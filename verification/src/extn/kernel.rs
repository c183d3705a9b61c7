//! `Kernel`: the methods available to every object.

use vstd::prelude::*;
use crate::args::Frame;
use crate::error::{ArtichokeError, Failure};
use crate::extn::kernel::args::Require;
use crate::fs::{load_path, resolve_spec};
use crate::load::{plan_view, Plan, PlanView};
use crate::state::{State, StateView};
use crate::value::Term;

pub mod args;

verus! {

/// What a call of `require` or `require_relative` decides, where names are
/// resolved against the directory `base`: the error of reading the
/// arguments, or what the state decides for the path of the file.
pub open spec fn require_spec(state: StateView, base: Seq<char>, args: Seq<Term>) -> Result<
    Option<PlanView>,
    Failure,
> {
    match Require::extract_spec(args) {
        Err(failure) => Err(failure),
        Ok(filename) => state.decide(resolve_spec(base, filename), filename),
    }
}

/// The state after a call of `require` or `require_relative`.
pub open spec fn require_state(state: StateView, base: Seq<char>, args: Seq<Term>) -> StateView {
    match Require::extract_spec(args) {
        Err(_) => state,
        Ok(filename) => state.begin(resolve_spec(base, filename)),
    }
}

/// `Kernel#require`: begins the load of the file that the call names, looked
/// up in the load path.
///
/// The result is the plan to load the file, and no plan where the file was
/// loaded before: the call then gives `false` to the guest program. After a
/// plan was carried out and [`State::complete`] gave `true`, so does the
/// call.
pub fn require(interp: &mut State, frame: &Frame) -> (result: Result<Option<Plan>, ArtichokeError>)
    ensures
        final(interp)@ == require_state(old(interp)@, load_path(), frame.arg_terms()),
        match result {
            Ok(plan) => require_spec(old(interp)@, load_path(), frame.arg_terms()) == Ok::<
                Option<PlanView>,
                Failure,
            >(plan_view(plan)),
            Err(error) => require_spec(old(interp)@, load_path(), frame.arg_terms()) == Err::<
                Option<PlanView>,
                Failure,
            >(error@),
        },
{
    match Require::extract(frame) {
        Ok(args) => interp.require(args.filename.as_str()),
        Err(error) => Err(error),
    }
}

/// `Kernel#require_relative`: begins the load of the file that the call
/// names, looked up in the directory of the file that is being loaded.
pub fn require_relative(interp: &mut State, frame: &Frame) -> (result: Result<
    Option<Plan>,
    ArtichokeError,
>)
    ensures
        final(interp)@ == require_state(old(interp)@, old(interp)@.base(), frame.arg_terms()),
        match result {
            Ok(plan) => require_spec(old(interp)@, old(interp)@.base(), frame.arg_terms()) == Ok::<
                Option<PlanView>,
                Failure,
            >(plan_view(plan)),
            Err(error) => require_spec(old(interp)@, old(interp)@.base(), frame.arg_terms())
                == Err::<Option<PlanView>, Failure>(error@),
        },
{
    match Require::extract(frame) {
        Ok(args) => interp.require_relative(args.filename.as_str()),
        Err(error) => Err(error),
    }
}

} // verus!
