//! The interpreter state: what the host knows of one VM.
//!
//! The state holds the specifications of the classes and modules that the
//! host has registered, the virtual filesystem, the files that are being
//! loaded, and the definition of a class or module that is under way. It
//! is created once for a VM and handed to every operation.

use vstd::prelude::*;
use vstd::string::StringExecFns;
use crate::def::{Kind, Spec, SpecView};
use crate::error::{ArtichokeError, Failure};
use crate::fs::{
    define_hook_spec,
    define_source_spec,
    load_path,
    mark_loaded_spec,
    resolve,
    resolve_spec,
    Files,
    Hook,
    Node,
    Vfs,
};
use crate::registry::{lookup, put, Registry};

verus! {

/// How far the definition of a class or module in the VM has come. Until it
/// is done the specification is kept here, and is not registered.
pub enum Progress {
    /// No definition is under way.
    Idle,
    /// The VM evaluates the source text of the class or module.
    Evaluating(Spec),
    /// The VM defines the class or module from this specification.
    Defining(Spec),
}

/// The model of a [`Progress`].
pub ghost enum ProgressView {
    Idle,
    Evaluating(SpecView),
    Defining(SpecView),
}

impl View for Progress {
    type V = ProgressView;

    open spec fn view(&self) -> ProgressView {
        match self {
            Progress::Idle => ProgressView::Idle,
            Progress::Evaluating(spec) => ProgressView::Evaluating(spec@),
            Progress::Defining(spec) => ProgressView::Defining(spec@),
        }
    }
}

/// The interpreter state.
pub struct State {
    specs: Registry<Spec>,
    vfs: Vfs,
    contexts: Vec<String>,
    progress: Progress,
}

/// The model of the interpreter state.
pub ghost struct StateView {
    /// The registered classes and modules, by name.
    pub specs: Seq<(Seq<char>, SpecView)>,
    /// The registered files, by path.
    pub files: Files,
    /// The paths of the files that are being loaded, the innermost last.
    pub contexts: Seq<Seq<char>>,
    /// The definition that is under way.
    pub progress: ProgressView,
}

impl View for State {
    type V = StateView;

    closed spec fn view(&self) -> StateView {
        StateView {
            specs: self.specs@,
            files: self.vfs@,
            contexts: Seq::new(self.contexts@.len(), |i: int| self.contexts@[i]@),
            progress: self.progress@,
        }
    }
}

impl StateView {
    /// The state of a VM of which nothing is registered.
    pub open spec fn initial() -> StateView {
        StateView {
            specs: Seq::empty(),
            files: Seq::empty(),
            contexts: Seq::empty(),
            progress: ProgressView::Idle,
        }
    }

    /// The specification of the class `name`.
    pub open spec fn class_spec(self, name: Seq<char>) -> Option<SpecView> {
        match lookup(self.specs, name) {
            Some(spec) => if spec.kind == Kind::Class {
                Some(spec)
            } else {
                None
            },
            None => None,
        }
    }

    /// The specification of the module `name`.
    pub open spec fn module_spec(self, name: Seq<char>) -> Option<SpecView> {
        match lookup(self.specs, name) {
            Some(spec) => if spec.kind == Kind::Module {
                Some(spec)
            } else {
                None
            },
            None => None,
        }
    }

    /// The state after a class or module was registered anew under `name`.
    pub open spec fn define(self, name: Seq<char>, kind: Kind) -> StateView {
        StateView { specs: put(self.specs, name, SpecView::fresh(name, kind)), ..self }
    }

    /// The state after a specification was registered under its name.
    pub open spec fn register(self, spec: SpecView) -> StateView {
        StateView { specs: put(self.specs, spec.name, spec), ..self }
    }

    /// The state after a native method was added to the class or module
    /// `owner`, which is registered.
    pub open spec fn add_method(self, owner: Seq<char>, name: Seq<char>, aspec: u32) -> StateView {
        let spec = lookup(self.specs, owner)->Some_0;
        StateView {
            specs: put(self.specs, owner, spec.add_method(name, aspec)),
            ..self
        }
    }

    /// The path of the file that is being loaded.
    pub open spec fn current_file(self) -> Option<Seq<char>> {
        if self.contexts.len() > 0 {
            Some(self.contexts.last())
        } else {
            None
        }
    }
}

/// Creates the state of a new VM.
pub fn interpreter() -> (interp: State)
    ensures
        interp@ == StateView::initial(),
{
    State::new()
}

impl State {
    /// The state of a VM of which nothing is registered.
    pub fn new() -> (state: State)
        ensures
            state@ == StateView::initial(),
    {
        let state = State {
            specs: Registry::new(),
            vfs: Vfs::new(),
            contexts: Vec::new(),
            progress: Progress::Idle,
        };
        assert(state@.contexts =~= Seq::empty());
        state
    }

    /// Registers a class under `name`, without methods. A class or module
    /// that was registered under the name is replaced.
    pub fn def_class(&mut self, name: &str)
        ensures
            final(self)@ == old(self)@.define(name@, Kind::Class),
    {
        self.specs.insert(String::from_str(name), Spec::new(name, Kind::Class));
    }

    /// Registers a module under `name`, without methods. A class or module
    /// that was registered under the name is replaced.
    pub fn def_module(&mut self, name: &str)
        ensures
            final(self)@ == old(self)@.define(name@, Kind::Module),
    {
        self.specs.insert(String::from_str(name), Spec::new(name, Kind::Module));
    }

    /// Registers a specification under its name. A class or module that was
    /// registered under the name is replaced.
    pub fn register(&mut self, spec: Spec)
        ensures
            final(self)@ == old(self)@.register(spec@),
    {
        let name = String::from_str(spec.name());
        self.specs.insert(name, spec);
    }

    /// The definition that is under way.
    pub fn progress(&self) -> (progress: &Progress)
        ensures
            progress@ == self@.progress,
    {
        &self.progress
    }

    /// Records how far a definition has come, and gives back what was
    /// recorded before.
    pub fn set_progress(&mut self, progress: Progress) -> (previous: Progress)
        ensures
            previous@ == old(self)@.progress,
            final(self)@ == (StateView { progress: progress@, ..old(self)@ }),
    {
        let mut progress = progress;
        std::mem::swap(&mut self.progress, &mut progress);
        progress
    }

    /// The specification of the class `name`.
    pub fn class_spec(&self, name: &str) -> (spec: Option<&Spec>)
        ensures
            match spec {
                Some(spec) => self@.class_spec(name@) == Some(spec@),
                None => self@.class_spec(name@) is None,
            },
    {
        match self.specs.get(name) {
            Some(spec) => match spec.kind() {
                Kind::Class => Some(spec),
                Kind::Module => None,
            },
            None => None,
        }
    }

    /// The specification of the module `name`.
    pub fn module_spec(&self, name: &str) -> (spec: Option<&Spec>)
        ensures
            match spec {
                Some(spec) => self@.module_spec(name@) == Some(spec@),
                None => self@.module_spec(name@) is None,
            },
    {
        match self.specs.get(name) {
            Some(spec) => match spec.kind() {
                Kind::Module => Some(spec),
                Kind::Class => None,
            },
            None => None,
        }
    }

    /// Adds a native method to the class or module `owner`, with the encoded
    /// shape of its arguments. Fails where no class or module of that name is
    /// registered.
    pub fn add_method(&mut self, owner: &str, name: &str, aspec: u32) -> (result: Result<
        (),
        ArtichokeError,
    >)
        ensures
            match lookup(old(self)@.specs, owner@) {
                Some(_) => result is Ok && final(self)@ == old(self)@.add_method(
                    owner@,
                    name@,
                    aspec,
                ),
                None => result matches Err(error) && error@ == Failure::NotDefined(owner@)
                    && final(self)@ == old(self)@,
            },
    {
        match self.specs.position(owner) {
            Some(place) => {
                let mut spec = self.specs.replace(place, Spec::new(owner, Kind::Class));
                spec.add_method(name, aspec);
                let ghost changed = spec@;
                self.specs.replace(place, spec);
                proof {
                    crate::registry::lemma_index_of(old(self)@.specs, owner@);
                    assert(self@.specs =~= old(self)@.specs.update(
                        place as int,
                        (owner@, changed),
                    ));
                }
                Ok(())
            },
            None => Err(ArtichokeError::NotDefined(String::from_str(owner))),
        }
    }

    /// Registers a source text under the path that `filename` stands for in
    /// the load path.
    pub fn def_rb_source_file(&mut self, filename: &str, contents: Vec<u8>) -> (result: Result<
        (),
        ArtichokeError,
    >)
        ensures
            final(self)@.specs == old(self)@.specs,
            final(self)@.contexts == old(self)@.contexts,
            final(self)@.progress == old(self)@.progress,
            match define_source_spec(
                old(self)@.files,
                resolve_spec(load_path(), filename@),
                contents@,
            ) {
                Ok(files) => result is Ok && final(self)@.files == files,
                Err(failure) => result matches Err(error) && error@ == failure && final(self)@
                    == old(self)@,
            },
    {
        let path = resolve("/src/lib", filename);
        self.vfs.define_source(path.as_str(), contents)
    }

    /// Registers a native hook under the path that `filename` stands for in
    /// the load path.
    pub fn def_file(&mut self, filename: &str, hook: Hook) -> (result: Result<(), ArtichokeError>)
        ensures
            final(self)@.specs == old(self)@.specs,
            final(self)@.contexts == old(self)@.contexts,
            final(self)@.progress == old(self)@.progress,
            match define_hook_spec(old(self)@.files, resolve_spec(load_path(), filename@), hook) {
                Ok(files) => result is Ok && final(self)@.files == files,
                Err(failure) => result matches Err(error) && error@ == failure && final(self)@
                    == old(self)@,
            },
    {
        let path = resolve("/src/lib", filename);
        self.vfs.define_hook(path.as_str(), hook)
    }

    /// The node that is registered under `path`.
    pub fn node(&self, path: &str) -> (node: Option<&Node>)
        ensures
            match node {
                Some(node) => lookup(self@.files, path@) == Some(node@),
                None => lookup(self@.files, path@) is None,
            },
    {
        self.vfs.node(path)
    }

    /// Records that the file under `path` was loaded.
    pub fn mark_loaded(&mut self, path: &str)
        ensures
            final(self)@ == (StateView {
                files: mark_loaded_spec(old(self)@.files, path@),
                ..old(self)@
            }),
    {
        self.vfs.mark_loaded(path);
    }

    /// Makes the file under `path` the one that is being loaded.
    pub fn push_context(&mut self, path: String)
        ensures
            final(self)@ == (StateView {
                contexts: old(self)@.contexts.push(path@),
                ..old(self)@
            }),
    {
        self.contexts.push(path);
        assert(self@.contexts =~= old(self)@.contexts.push(path@));
    }

    /// Ends the load of the file that is being loaded, and gives its path;
    /// the file whose load it interrupted is being loaded again.
    pub fn pop_context(&mut self) -> (path: Option<String>)
        ensures
            match path {
                Some(path) => old(self)@.current_file() == Some(path@) && final(self)@
                    == (StateView { contexts: old(self)@.contexts.drop_last(), ..old(self)@ }),
                None => old(self)@.current_file() is None && final(self)@ == old(self)@,
            },
    {
        let path = self.contexts.pop();
        proof {
            if path is Some {
                assert(self@.contexts =~= old(self)@.contexts.drop_last());
            } else {
                assert(self@.contexts =~= old(self)@.contexts);
            }
        }
        path
    }

    /// The path of the file that is being loaded.
    pub fn current_file(&self) -> (path: Option<&str>)
        ensures
            match path {
                Some(path) => self@.current_file() == Some(path@),
                None => self@.current_file() is None,
            },
    {
        if self.contexts.len() > 0 {
            Some(self.contexts[self.contexts.len() - 1].as_str())
        } else {
            None
        }
    }
}

} // verus!
