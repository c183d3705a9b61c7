//! The virtual filesystem that `require` loads from: paths, and the node
//! that is registered under each.

use vstd::prelude::*;
use vstd::string::{StrSliceExecFns, StringExecFns};
use crate::chars::{chars_of, first_char};
use crate::error::{ArtichokeError, Failure};
use crate::registry::{lookup, put, Registry};

verus! {

/// The directory under which sources are registered and looked up.
pub open spec fn load_path() -> Seq<char> {
    "/src/lib"@
}

/// The extension of a source file.
pub open spec fn extension() -> Seq<char> {
    ".rb"@
}

/// Whether a path starts at the root.
pub open spec fn is_absolute(path: Seq<char>) -> bool {
    path.len() > 0 && path[0] == '/'
}

/// Whether a path ends in the extension of a source file.
pub open spec fn has_extension(path: Seq<char>) -> bool {
    path.len() >= 3 && path[path.len() - 3] == '.' && path[path.len() - 2] == 'r' && path[path.len()
        - 1] == 'b'
}

/// The place of the last `/` among the first `upto` characters of a path, or
/// `-1` where there is none.
pub open spec fn last_slash(path: Seq<char>, upto: int) -> int
    decreases upto,
{
    if upto <= 0 {
        -1
    } else if path[upto - 1] == '/' {
        upto - 1
    } else {
        last_slash(path, upto - 1)
    }
}

/// The directory of a file: its path up to the last `/`, and the empty path
/// where it has none.
pub open spec fn dirname(path: Seq<char>) -> Seq<char> {
    let slash = last_slash(path, path.len() as int);
    if slash < 0 {
        Seq::empty()
    } else {
        path.take(slash)
    }
}

/// The normalized path that the name of a file stands for, seen from the
/// directory `base`: an absolute name stands for itself and any other name is
/// joined to the directory; the extension of a source file is added where
/// the name does not end in it.
pub open spec fn resolve_spec(base: Seq<char>, name: Seq<char>) -> Seq<char> {
    let joined = if is_absolute(name) {
        name
    } else {
        base + "/"@ + name
    };
    if has_extension(joined) {
        joined
    } else {
        joined + ".rb"@
    }
}

/// The directory of the file at `path`.
pub fn parent(path: &str) -> (directory: String)
    ensures
        directory@ == dirname(path@),
{
    let chars = chars_of(path);
    let mut upto: usize = chars.len();
    while upto > 0 && chars[upto - 1] != '/'
        invariant
            upto <= chars.len(),
            chars@ == path@,
            last_slash(path@, path@.len() as int) == last_slash(path@, upto as int),
        decreases upto,
    {
        upto -= 1;
    }
    let slash = if upto > 0 {
        upto - 1
    } else {
        0
    };
    String::from_str(path.substring_char(0, slash))
}

/// Whether `path` ends in the extension of a source file.
fn ends_in_extension(path: &str) -> (ends: bool)
    ensures
        ends == has_extension(path@),
{
    let chars = chars_of(path);
    let len = chars.len();
    len >= 3 && chars[len - 3] == '.' && chars[len - 2] == 'r' && chars[len - 1] == 'b'
}

/// The normalized path that `name` stands for, seen from the directory
/// `base`.
pub fn resolve(base: &str, name: &str) -> (path: String)
    ensures
        path@ == resolve_spec(base@, name@),
{
    let absolute = match first_char(name) {
        Some(c) => c == '/',
        None => false,
    };
    let mut path = if absolute {
        String::from_str(name)
    } else {
        let mut joined = String::from_str(base);
        joined.append("/");
        joined.append(name);
        joined
    };
    if !ends_in_extension(path.as_str()) {
        path.append(".rb");
    }
    path
}

/// The identity of a native hook that registers classes, modules and
/// methods when a file is required.
#[derive(Clone, Copy, Debug, PartialEq, Eq, Hash, Structural)]
pub struct Hook(pub u32);

/// What is registered under one path.
#[derive(Debug)]
pub struct Node {
    /// The source text, if the file has one.
    pub source: Option<Vec<u8>>,
    /// The native hook, if the file has one.
    pub hook: Option<Hook>,
    /// Whether the file was loaded.
    pub loaded: bool,
}

/// The model of a node.
pub ghost struct NodeView {
    pub source: Option<Seq<u8>>,
    pub hook: Option<Hook>,
    pub loaded: bool,
}

impl NodeView {
    /// A node holds a source text or a hook.
    pub open spec fn wf(self) -> bool {
        self.source is Some || self.hook is Some
    }
}

impl View for Node {
    type V = NodeView;

    open spec fn view(&self) -> NodeView {
        NodeView {
            source: match self.source {
                Some(text) => Some(text@),
                None => None,
            },
            hook: self.hook,
            loaded: self.loaded,
        }
    }
}

/// Where a path stands in its life: nothing is registered under it, a file
/// is registered and not loaded, or the file was loaded.
#[derive(Clone, Copy, Debug, PartialEq, Eq, Structural)]
pub enum Phase {
    Unregistered,
    Registered,
    Loaded,
}

/// The model of the filesystem: the nodes by their paths.
pub type Files = Seq<(Seq<char>, NodeView)>;

/// The phase of a path.
pub open spec fn phase(files: Files, path: Seq<char>) -> Phase {
    match lookup(files, path) {
        None => Phase::Unregistered,
        Some(node) => if node.loaded {
            Phase::Loaded
        } else {
            Phase::Registered
        },
    }
}

/// Every node holds a source text or a hook.
pub open spec fn files_wf(files: Files) -> bool {
    forall|i: int| 0 <= i < files.len() ==> (#[trigger] files[i]).1.wf()
}

/// The error of registering a second, different source text or hook under a
/// path.
pub open spec fn conflict(path: Seq<char>) -> Failure {
    Failure::Vfs("conflicting registration of "@ + path)
}

/// The files after a source text was registered under a path. A second
/// registration of the same text changes nothing; one of another text is an
/// error.
pub open spec fn define_source_spec(files: Files, path: Seq<char>, text: Seq<u8>) -> Result<
    Files,
    Failure,
> {
    match lookup(files, path) {
        None => Ok(put(files, path, NodeView { source: Some(text), hook: None, loaded: false })),
        Some(node) => match node.source {
            None => Ok(put(files, path, NodeView { source: Some(text), ..node })),
            Some(present) => if present == text {
                Ok(files)
            } else {
                Err(conflict(path))
            },
        },
    }
}

/// The files after a native hook was registered under a path. A second
/// registration of the same hook changes nothing; one of another hook is an
/// error.
pub open spec fn define_hook_spec(files: Files, path: Seq<char>, hook: Hook) -> Result<
    Files,
    Failure,
> {
    match lookup(files, path) {
        None => Ok(put(files, path, NodeView { source: None, hook: Some(hook), loaded: false })),
        Some(node) => match node.hook {
            None => Ok(put(files, path, NodeView { hook: Some(hook), ..node })),
            Some(present) => if present == hook {
                Ok(files)
            } else {
                Err(conflict(path))
            },
        },
    }
}

/// The files after the file under a path was loaded.
pub open spec fn mark_loaded_spec(files: Files, path: Seq<char>) -> Files {
    match lookup(files, path) {
        None => files,
        Some(node) => put(files, path, NodeView { loaded: true, ..node }),
    }
}

/// Registering and loading keep every node well formed: none is ever left
/// without both a source text and a hook.
pub proof fn lemma_files_stay_well_formed(files: Files, path: Seq<char>, text: Seq<u8>, hook: Hook)
    requires
        files_wf(files),
    ensures
        define_source_spec(files, path, text) matches Ok(after) ==> files_wf(after),
        define_hook_spec(files, path, hook) matches Ok(after) ==> files_wf(after),
        files_wf(mark_loaded_spec(files, path)),
{
    crate::registry::lemma_index_of(files, path);
    match lookup(files, path) {
        Some(node) => {
            assert(files[crate::registry::index_of(files, path)->Some_0].1.wf());
        },
        None => {},
    }
}

/// Whether two byte strings are the same.
fn bytes_eq(left: &Vec<u8>, right: &Vec<u8>) -> (equal: bool)
    ensures
        equal == (left@ == right@),
{
    if left.len() != right.len() {
        return false;
    }
    let mut i: usize = 0;
    while i < left.len()
        invariant
            i <= left.len(),
            left.len() == right.len(),
            forall|j: int| 0 <= j < i ==> left[j] == right[j],
        decreases left.len() - i,
    {
        if left[i] != right[i] {
            return false;
        }
        i += 1;
    }
    assert(left@ =~= right@);
    true
}

/// The virtual filesystem.
pub struct Vfs {
    nodes: Registry<Node>,
}

impl View for Vfs {
    type V = Files;

    closed spec fn view(&self) -> Files {
        self.nodes@
    }
}

impl Vfs {
    /// An empty filesystem.
    pub fn new() -> (vfs: Vfs)
        ensures
            vfs@ == Seq::<(Seq<char>, NodeView)>::empty(),
    {
        Vfs { nodes: Registry::new() }
    }

    /// The node under `path`.
    pub fn node(&self, path: &str) -> (node: Option<&Node>)
        ensures
            match node {
                Some(node) => lookup(self@, path@) == Some(node@),
                None => lookup(self@, path@) is None,
            },
    {
        self.nodes.get(path)
    }

    /// The phase of `path`.
    pub fn phase(&self, path: &str) -> (at: Phase)
        ensures
            at == phase(self@, path@),
    {
        match self.nodes.get(path) {
            None => Phase::Unregistered,
            Some(node) => if node.loaded {
                Phase::Loaded
            } else {
                Phase::Registered
            },
        }
    }

    /// The error of a conflicting registration under `path`.
    fn conflict(path: &str) -> (error: ArtichokeError)
        ensures
            error@ == conflict(path@),
    {
        let mut text = String::from_str("conflicting registration of ");
        text.append(path);
        ArtichokeError::Vfs(text)
    }

    /// Registers a source text under `path`.
    pub fn define_source(&mut self, path: &str, text: Vec<u8>) -> (result: Result<
        (),
        ArtichokeError,
    >)
        ensures
            match define_source_spec(old(self)@, path@, text@) {
                Ok(files) => result is Ok && final(self)@ == files,
                Err(failure) => result matches Err(error) && error@ == failure && final(self)@
                    == old(self)@,
            },
    {
        let node = match self.nodes.get(path) {
            None => Node { source: Some(text), hook: None, loaded: false },
            Some(node) => match &node.source {
                None => Node { source: Some(text), hook: node.hook, loaded: node.loaded },
                Some(present) => {
                    if bytes_eq(present, &text) {
                        return Ok(());
                    } else {
                        return Err(Self::conflict(path));
                    }
                },
            },
        };
        self.nodes.insert(String::from_str(path), node);
        Ok(())
    }

    /// Registers a native hook under `path`.
    pub fn define_hook(&mut self, path: &str, hook: Hook) -> (result: Result<(), ArtichokeError>)
        ensures
            match define_hook_spec(old(self)@, path@, hook) {
                Ok(files) => result is Ok && final(self)@ == files,
                Err(failure) => result matches Err(error) && error@ == failure && final(self)@
                    == old(self)@,
            },
    {
        let node = match self.nodes.get(path) {
            None => Node { source: None, hook: Some(hook), loaded: false },
            Some(node) => match node.hook {
                None => Node {
                    source: copy_source(&node.source),
                    hook: Some(hook),
                    loaded: node.loaded,
                },
                Some(present) => {
                    if present == hook {
                        return Ok(());
                    } else {
                        return Err(Self::conflict(path));
                    }
                },
            },
        };
        self.nodes.insert(String::from_str(path), node);
        Ok(())
    }

    /// Records that the file under `path` was loaded.
    pub fn mark_loaded(&mut self, path: &str)
        ensures
            final(self)@ == mark_loaded_spec(old(self)@, path@),
    {
        let node = match self.nodes.get(path) {
            None => {
                return ;
            },
            Some(node) => Node { source: copy_source(&node.source), hook: node.hook, loaded: true },
        };
        self.nodes.insert(String::from_str(path), node);
    }
}

/// A copy of an optional source text.
pub(crate) fn copy_source(source: &Option<Vec<u8>>) -> (copy: Option<Vec<u8>>)
    ensures
        match copy {
            Some(text) => source matches Some(present) && text@ == present@,
            None => source is None,
        },
{
    match source {
        Some(text) => Some(text.clone()),
        None => None,
    }
}

} // verus!
