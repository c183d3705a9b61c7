//! Loading a file at most once.
//!
//! A `require` is carried out in two steps, with the VM's work between them.
//! [`State::require`] resolves the name and decides: the file is not there,
//! it was loaded before, or it is to be loaded now, and then the [`Plan`] says
//! what to run. The embedding program runs the native hook and evaluates the
//! source text of the plan, in that order, and reports how it went with
//! [`State::complete`], which marks the file as loaded if all went well.

use vstd::prelude::*;
use vstd::string::StringExecFns;
use crate::error::{ArtichokeError, Failure};
use crate::fs::{
    copy_source,
    dirname,
    load_path,
    mark_loaded_spec,
    parent,
    phase,
    resolve,
    resolve_spec,
    Hook,
    NodeView,
    Phase,
};
use crate::registry::{lemma_put, lookup};
use crate::state::{State, StateView};

verus! {

/// What is to be run to load a file: the native hook first, where there is
/// one, then the source text, where there is one, with the path as the
/// identity of the file that is being evaluated.
#[derive(Debug)]
pub struct Plan {
    pub path: String,
    pub hook: Option<Hook>,
    pub source: Option<Vec<u8>>,
}

/// The model of a plan.
pub ghost struct PlanView {
    pub path: Seq<char>,
    pub hook: Option<Hook>,
    pub source: Option<Seq<u8>>,
}

impl View for Plan {
    type V = PlanView;

    open spec fn view(&self) -> PlanView {
        PlanView {
            path: self.path@,
            hook: self.hook,
            source: match self.source {
                Some(text) => Some(text@),
                None => None,
            },
        }
    }
}

/// The model of an optional plan.
pub open spec fn plan_view(plan: Option<Plan>) -> Option<PlanView> {
    match plan {
        Some(plan) => Some(plan@),
        None => None,
    }
}

impl StateView {
    /// The directory against which `require_relative` resolves a name: that
    /// of the file that is being loaded, and the load path where none is.
    pub open spec fn base(self) -> Seq<char> {
        match self.current_file() {
            Some(path) => dirname(path),
            None => load_path(),
        }
    }

    /// What a `require` of the file under `path` decides, where `filename` is
    /// the name that was asked for: an error where nothing is registered
    /// under the path, no plan where the file was loaded, and else the plan
    /// to load it.
    pub open spec fn decide(self, path: Seq<char>, filename: Seq<char>) -> Result<
        Option<PlanView>,
        Failure,
    > {
        match lookup(self.files, path) {
            None => Err(Failure::SourceNotFound(filename)),
            Some(node) => if node.loaded {
                Ok(None)
            } else {
                Ok(Some(PlanView { path, hook: node.hook, source: node.source }))
            },
        }
    }

    /// The state after a `require` of the file under `path`: where the file
    /// is to be loaded, it is the file that is being loaded from now on.
    pub open spec fn begin(self, path: Seq<char>) -> StateView {
        if phase(self.files, path) == Phase::Registered {
            StateView { contexts: self.contexts.push(path), ..self }
        } else {
            self
        }
    }

    /// What an explicit request to load the file under `path` again decides:
    /// the plan to load it, whether or not it was loaded before.
    pub open spec fn decide_again(self, path: Seq<char>, filename: Seq<char>) -> Result<
        PlanView,
        Failure,
    > {
        match lookup(self.files, path) {
            None => Err(Failure::SourceNotFound(filename)),
            Some(node) => Ok(PlanView { path, hook: node.hook, source: node.source }),
        }
    }

    /// The state after an explicit request to load the file under `path`
    /// again: where a file is registered there, it is the file that is being
    /// loaded from now on.
    pub open spec fn begin_again(self, path: Seq<char>) -> StateView {
        if phase(self.files, path) == Phase::Unregistered {
            self
        } else {
            StateView { contexts: self.contexts.push(path), ..self }
        }
    }

    /// The state after the load of the file under `path` ended: the file is
    /// no longer being loaded, and it is loaded if all went well.
    pub open spec fn end(self, path: Seq<char>, ok: bool) -> StateView {
        StateView {
            files: if ok {
                mark_loaded_spec(self.files, path)
            } else {
                self.files
            },
            contexts: if self.current_file() == Some(path) {
                self.contexts.drop_last()
            } else {
                self.contexts
            },
            ..self
        }
    }

    /// A file that is registered and not loaded is loaded by the first
    /// `require` that succeeds: the plan names its hook and its source text.
    /// After that the file is loaded, every further `require` of its path
    /// gives no plan, and changes nothing.
    pub proof fn lemma_loads_once(self, path: Seq<char>, filename: Seq<char>, again: Seq<char>)
        requires
            phase(self.files, path) == Phase::Registered,
        ensures
            ({
                let node = lookup(self.files, path)->Some_0;
                let loaded = self.begin(path).end(path, true);
                &&& self.decide(path, filename) == Ok::<Option<PlanView>, Failure>(
                    Some(PlanView { path, hook: node.hook, source: node.source }),
                )
                &&& phase(loaded.files, path) == Phase::Loaded
                &&& loaded.contexts == self.contexts
                &&& loaded.decide(path, again) == Ok::<Option<PlanView>, Failure>(None)
                &&& loaded.begin(path) == loaded
            }),
    {
        let node = lookup(self.files, path)->Some_0;
        lemma_put(self.files, path, NodeView { loaded: true, ..node }, path);
        assert(self.begin(path).contexts.drop_last() =~= self.contexts);
    }

    /// A load that failed leaves the file registered and not loaded: the next
    /// `require` gives the same plan again.
    pub proof fn lemma_failure_allows_retry(self, path: Seq<char>, filename: Seq<char>)
        requires
            phase(self.files, path) == Phase::Registered,
        ensures
            self.begin(path).end(path, false) == self,
            self.begin(path).end(path, false).decide(path, filename) == self.decide(path, filename),
    {
        assert(self.begin(path).contexts.drop_last() =~= self.contexts);
    }

    /// Two names that stand for the same path load one file: after the first
    /// was loaded, a `require` of the second gives no plan.
    pub proof fn lemma_same_path_loads_once(
        self,
        base: Seq<char>,
        name: Seq<char>,
        other_base: Seq<char>,
        other_name: Seq<char>,
    )
        requires
            resolve_spec(base, name) == resolve_spec(other_base, other_name),
            phase(self.files, resolve_spec(base, name)) == Phase::Registered,
        ensures
            ({
                let path = resolve_spec(base, name);
                let loaded = self.begin(path).end(path, true);
                loaded.decide(resolve_spec(other_base, other_name), other_name) == Ok::<
                    Option<PlanView>,
                    Failure,
                >(None)
            }),
    {
        self.lemma_loads_once(resolve_spec(base, name), name, other_name);
    }
}

impl State {
    /// Decides what a `require` of the file under `path` does.
    fn decide(&mut self, path: String, filename: &str) -> (result: Result<
        Option<Plan>,
        ArtichokeError,
    >)
        ensures
            final(self)@ == old(self)@.begin(path@),
            match result {
                Ok(plan) => old(self)@.decide(path@, filename@) == Ok::<Option<PlanView>, Failure>(
                    plan_view(plan),
                ),
                Err(error) => old(self)@.decide(path@, filename@) == Err::<
                    Option<PlanView>,
                    Failure,
                >(error@),
            },
    {
        let (hook, source) = match self.node(path.as_str()) {
            None => {
                return Err(ArtichokeError::SourceNotFound(String::from_str(filename)));
            },
            Some(node) => {
                if node.loaded {
                    return Ok(None);
                }
                (node.hook, copy_source(&node.source))
            },
        };
        self.push_context(path.clone());
        Ok(Some(Plan { path, hook, source }))
    }

    /// Begins a `require` of `filename`, resolved against the load path.
    ///
    /// Returns the plan to load the file, no plan where the file was loaded
    /// before, and an error where no file is registered under the path. With
    /// a plan, the file is the one that is being loaded until
    /// [`State::complete`] is called.
    pub fn require(&mut self, filename: &str) -> (result: Result<Option<Plan>, ArtichokeError>)
        ensures
            final(self)@ == old(self)@.begin(resolve_spec(load_path(), filename@)),
            match result {
                Ok(plan) => old(self)@.decide(resolve_spec(load_path(), filename@), filename@)
                    == Ok::<Option<PlanView>, Failure>(plan_view(plan)),
                Err(error) => old(self)@.decide(resolve_spec(load_path(), filename@), filename@)
                    == Err::<Option<PlanView>, Failure>(error@),
            },
    {
        let path = resolve("/src/lib", filename);
        self.decide(path, filename)
    }

    /// Begins a `require` of `filename`, resolved against the directory of
    /// the file that is being loaded.
    pub fn require_relative(&mut self, filename: &str) -> (result: Result<
        Option<Plan>,
        ArtichokeError,
    >)
        ensures
            final(self)@ == old(self)@.begin(resolve_spec(old(self)@.base(), filename@)),
            match result {
                Ok(plan) => old(self)@.decide(
                    resolve_spec(old(self)@.base(), filename@),
                    filename@,
                ) == Ok::<Option<PlanView>, Failure>(plan_view(plan)),
                Err(error) => old(self)@.decide(
                    resolve_spec(old(self)@.base(), filename@),
                    filename@,
                ) == Err::<Option<PlanView>, Failure>(error@),
            },
    {
        let base = match self.current_file() {
            Some(path) => parent(path),
            None => String::from_str("/src/lib"),
        };
        let path = resolve(base.as_str(), filename);
        self.decide(path, filename)
    }

    /// Begins a load of `filename` that is asked for explicitly, resolved
    /// against the directory of the file that is being loaded. Unlike a
    /// `require`, it gives the plan also for a file that was loaded before.
    pub fn reload(&mut self, filename: &str) -> (result: Result<Plan, ArtichokeError>)
        ensures
            final(self)@ == old(self)@.begin_again(resolve_spec(old(self)@.base(), filename@)),
            match result {
                Ok(plan) => old(self)@.decide_again(
                    resolve_spec(old(self)@.base(), filename@),
                    filename@,
                ) == Ok::<PlanView, Failure>(plan@),
                Err(error) => old(self)@.decide_again(
                    resolve_spec(old(self)@.base(), filename@),
                    filename@,
                ) == Err::<PlanView, Failure>(error@),
            },
    {
        let base = match self.current_file() {
            Some(path) => parent(path),
            None => String::from_str("/src/lib"),
        };
        let path = resolve(base.as_str(), filename);
        let (hook, source) = match self.node(path.as_str()) {
            None => {
                return Err(ArtichokeError::SourceNotFound(String::from_str(filename)));
            },
            Some(node) => (node.hook, copy_source(&node.source)),
        };
        self.push_context(path.clone());
        Ok(Plan { path, hook, source })
    }

    /// Ends the load that `plan` describes, with its outcome.
    ///
    /// Where the hook and the source text ran without error, the file is
    /// marked as loaded and the result is `true`. Where one of them failed,
    /// its error is returned and the file stays registered, to be required
    /// again.
    pub fn complete(&mut self, plan: Plan, outcome: Result<(), ArtichokeError>) -> (result: Result<
        bool,
        ArtichokeError,
    >)
        ensures
            final(self)@ == old(self)@.end(plan.path@, outcome is Ok),
            match outcome {
                Ok(_) => result == Ok::<bool, ArtichokeError>(true),
                Err(error) => result == Err::<bool, ArtichokeError>(error),
            },
    {
        let is_current = match self.current_file() {
            Some(path) => String::from_str(path).eq(&plan.path),
            None => false,
        };
        if is_current {
            self.pop_context();
        }
        match outcome {
            Ok(_) => {
                self.mark_loaded(plan.path.as_str());
                Ok(true)
            },
            Err(error) => Err(error),
        }
    }
}

} // verus!
