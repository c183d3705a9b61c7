//! `String`: the native methods that the bridge adds to the class.

use vstd::prelude::*;
use vstd::string::StringExecFns;
use crate::args::ArgSpec;
use crate::chars::first_char;
use crate::convert::Convert;
use crate::def::{Kind, Spec, SpecView};
use crate::error::{ArtichokeError, Failure};
use crate::extn::error::{Exception, ExceptionClass, ExceptionView};
use crate::state::{Progress, ProgressView, State, StateView};
use crate::value::{Term, Value};

pub mod scan;

verus! {

/// What the embedding program has done for [`patch`] since the last step.
#[derive(Debug)]
pub enum Event {
    /// Nothing yet.
    Start,
    /// The VM evaluated the source text of the core library of `String`,
    /// with this outcome.
    Evaluated(Result<(), ArtichokeError>),
    /// The VM defined the class from its specification, or failed to.
    Defined(bool),
}

/// What the embedding program does next for [`patch`].
#[derive(Clone, Copy, Debug, PartialEq, Eq, Structural)]
pub enum Patch {
    /// Nothing: the class is patched.
    Done,
    /// Evaluate the source text of the core library of `String`, and report
    /// the outcome with [`Event::Evaluated`].
    Evaluate,
    /// Define the class in the VM from the specification that the state
    /// keeps as under way, and report the outcome with [`Event::Defined`].
    Define,
}

/// The model of an event.
pub ghost enum EventView {
    Start,
    Evaluated(Result<(), Failure>),
    Defined(bool),
}

impl View for Event {
    type V = EventView;

    open spec fn view(&self) -> EventView {
        match self {
            Event::Start => EventView::Start,
            Event::Evaluated(outcome) => EventView::Evaluated(
                match outcome {
                    Ok(_) => Ok(()),
                    Err(error) => Err(error@),
                },
            ),
            Event::Defined(ok) => EventView::Defined(*ok),
        }
    }
}

/// The encoded argument shape of `String#ord`, which takes no argument.
pub open spec fn ord_aspec() -> u32 {
    (ArgSpec { required: 0, optional: 0, rest: false, block: false }).aspec_spec()
}

/// The encoded argument shape of `String#scan`, which takes one argument.
pub open spec fn scan_aspec() -> u32 {
    (ArgSpec { required: 1, optional: 0, rest: false, block: false }).aspec_spec()
}

/// Whether the step that an event reports is the one that is under way.
pub open spec fn in_step(state: StateView, event: EventView) -> bool {
    match event {
        EventView::Start => true,
        EventView::Evaluated(_) => state.progress is Evaluating && state.progress->Evaluating_0.name
            == "String"@,
        EventView::Defined(_) => state.progress is Defining && state.progress->Defining_0.name
            == "String"@,
    }
}

/// The state after a step of [`patch`].
///
/// At the start, a `String` class that is registered is left as it is; else
/// its specification is kept as under way, without methods, and nothing is
/// registered. After the evaluation went well, the native methods `ord` and
/// `scan` are added to that specification. After the class was defined, the
/// specification is registered. A step that failed leaves nothing under way
/// and nothing registered, and an event that does not report the step under
/// way changes nothing.
pub open spec fn patch_state(state: StateView, event: EventView) -> StateView {
    if !in_step(state, event) {
        state
    } else {
        match event {
            EventView::Start => if state.class_spec("String"@) is Some {
                state
            } else {
                StateView {
                    progress: ProgressView::Evaluating(SpecView::fresh("String"@, Kind::Class)),
                    ..state
                }
            },
            EventView::Evaluated(Ok(_)) => StateView {
                progress: ProgressView::Defining(
                    state.progress->Evaluating_0.add_method("ord"@, ord_aspec()).add_method(
                        "scan"@,
                        scan_aspec(),
                    ),
                ),
                ..state
            },
            EventView::Defined(true) => StateView {
                progress: ProgressView::Idle,
                ..state.register(state.progress->Defining_0)
            },
            _ => StateView { progress: ProgressView::Idle, ..state },
        }
    }
}

/// What a step of [`patch`] asks for, or the error that ends it.
///
/// The error of an evaluation that failed is handed on as it is, and a class
/// that could not be defined is an error. An event of success that does not
/// report the step under way is an error too.
pub open spec fn patch_next(state: StateView, event: EventView) -> Result<Patch, Failure> {
    match event {
        EventView::Start => if state.class_spec("String"@) is Some {
            Ok(Patch::Done)
        } else {
            Ok(Patch::Evaluate)
        },
        EventView::Evaluated(Err(failure)) => Err(failure),
        EventView::Evaluated(Ok(_)) => if in_step(state, event) {
            Ok(Patch::Define)
        } else {
            Err(Failure::NotDefined("String"@))
        },
        EventView::Defined(ok) => if !ok {
            Err(Failure::New)
        } else if in_step(state, event) {
            Ok(Patch::Done)
        } else {
            Err(Failure::NotDefined("String"@))
        },
    }
}

/// A patch that fails leaves no registration behind, so that it can be tried
/// again: after an evaluation that failed, and after a class that could not
/// be defined, the error is handed on, the registered classes are as they
/// were, and `patch` from the start asks for the evaluation again.
pub proof fn lemma_failed_patch_can_be_tried_again(state: StateView, failure: Failure)
    requires
        state.class_spec("String"@) is None,
    ensures
        ({
            let evaluating = patch_state(state, EventView::Start);
            let failed = EventView::Evaluated(Err(failure));
            let defining = patch_state(evaluating, EventView::Evaluated(Ok(())));
            &&& patch_next(state, EventView::Start) == Ok::<Patch, Failure>(Patch::Evaluate)
            &&& patch_next(evaluating, failed) == Err::<Patch, Failure>(failure)
            &&& patch_state(evaluating, failed) == (StateView {
                progress: ProgressView::Idle,
                ..state
            })
            &&& patch_next(patch_state(evaluating, failed), EventView::Start) == Ok::<
                Patch,
                Failure,
            >(Patch::Evaluate)
            &&& patch_next(evaluating, EventView::Evaluated(Ok(()))) == Ok::<Patch, Failure>(
                Patch::Define,
            )
            &&& patch_next(defining, EventView::Defined(false)) == Err::<Patch, Failure>(
                Failure::New,
            )
            &&& patch_state(defining, EventView::Defined(false)) == (StateView {
                progress: ProgressView::Idle,
                ..state
            })
            &&& patch_next(patch_state(defining, EventView::Defined(false)), EventView::Start)
                == Ok::<Patch, Failure>(Patch::Evaluate)
        }),
{
}

/// A patch that goes well registers the class with its two native methods,
/// and only at its end; after that, `patch` from the start does nothing.
pub proof fn lemma_patched(state: StateView)
    requires
        state.class_spec("String"@) is None,
    ensures
        ({
            let evaluating = patch_state(state, EventView::Start);
            let defining = patch_state(evaluating, EventView::Evaluated(Ok(())));
            let done = patch_state(defining, EventView::Defined(true));
            let spec = SpecView::fresh("String"@, Kind::Class).add_method(
                "ord"@,
                ord_aspec(),
            ).add_method("scan"@, scan_aspec());
            &&& evaluating.specs == state.specs
            &&& defining.specs == state.specs
            &&& patch_next(defining, EventView::Defined(true)) == Ok::<Patch, Failure>(Patch::Done)
            &&& done == (StateView { progress: ProgressView::Idle, ..state.register(spec) })
            &&& done.class_spec("String"@) == Some(spec)
            &&& patch_next(done, EventView::Start) == Ok::<Patch, Failure>(Patch::Done)
            &&& patch_state(done, EventView::Start) == done
        }),
{
    let spec = SpecView::fresh("String"@, Kind::Class).add_method("ord"@, ord_aspec()).add_method(
        "scan"@,
        scan_aspec(),
    );
    crate::registry::lemma_put(state.specs, "String"@, spec, "String"@);
}

/// An event that reports a step which is not under way changes nothing and
/// does not count as success.
pub proof fn lemma_events_follow_their_step(state: StateView, event: EventView)
    requires
        !in_step(state, event),
    ensures
        patch_state(state, event) == state,
        patch_next(state, event) is Err,
{
}

/// Whether the specification under way is that of `String`.
fn is_string(spec: &Spec) -> (is: bool)
    ensures
        is == (spec@.name == "String"@),
{
    String::from_str(spec.name()).eq(&String::from_str("String"))
}

/// Patches the class `String` onto the interpreter, one step at a time.
///
/// The first call is made with [`Event::Start`]. Each call says what the
/// embedding program does next, and takes the outcome of what it did last.
/// The class is registered when the last step went well, and not before:
/// after a step that failed, `patch` from the start begins again. Once the
/// class is registered, `patch` from the start does nothing.
pub fn patch(interp: &mut State, event: Event) -> (result: Result<Patch, ArtichokeError>)
    ensures
        final(interp)@ == patch_state(old(interp)@, event@),
        match result {
            Ok(next) => patch_next(old(interp)@, event@) == Ok::<Patch, Failure>(next),
            Err(error) => patch_next(old(interp)@, event@) == Err::<Patch, Failure>(error@),
        },
{
    match event {
        Event::Start => {
            if interp.class_spec("String").is_some() {
                return Ok(Patch::Done);
            }
            interp.set_progress(Progress::Evaluating(Spec::new("String", Kind::Class)));
            Ok(Patch::Evaluate)
        },
        Event::Evaluated(outcome) => {
            let under_way = match interp.progress() {
                Progress::Evaluating(spec) => is_string(spec),
                _ => false,
            };
            match outcome {
                Err(error) => {
                    if under_way {
                        interp.set_progress(Progress::Idle);
                    }
                    Err(error)
                },
                Ok(_) => {
                    if !under_way {
                        return Err(ArtichokeError::NotDefined(String::from_str("String")));
                    }
                    match interp.set_progress(Progress::Idle) {
                        Progress::Evaluating(spec) => {
                            let mut spec = spec;
                            spec.add_method("ord", ArgSpec::new().aspec());
                            spec.add_method("scan", ArgSpec::new().required(1).aspec());
                            interp.set_progress(Progress::Defining(spec));
                            Ok(Patch::Define)
                        },
                        _ => Err(ArtichokeError::NotDefined(String::from_str("String"))),
                    }
                },
            }
        },
        Event::Defined(ok) => {
            let under_way = match interp.progress() {
                Progress::Defining(spec) => is_string(spec),
                _ => false,
            };
            if !under_way {
                return if ok {
                    Err(ArtichokeError::NotDefined(String::from_str("String")))
                } else {
                    Err(ArtichokeError::New)
                };
            }
            match interp.set_progress(Progress::Idle) {
                Progress::Defining(spec) => {
                    if ok {
                        interp.register(spec);
                        Ok(Patch::Done)
                    } else {
                        Err(ArtichokeError::New)
                    }
                },
                _ => Err(ArtichokeError::New),
            }
        },
    }
}

/// The class `String`.
pub struct RString;

impl RString {
    /// What `String#ord` gives for a receiver: `nil` where the receiver is
    /// not a string of valid UTF-8, the code point of its first character
    /// where it has one, and an `ArgumentError` where it is empty.
    pub open spec fn ord_spec(slf: Term) -> Result<Term, ExceptionView> {
        match String::decode(slf) {
            Err(_) => Ok(Term::Nil),
            Ok(text) => if text.len() > 0 {
                Ok(Term::Fixnum(text[0] as u32 as i64))
            } else {
                Err(
                    ExceptionView {
                        class: ExceptionClass::ArgumentError,
                        message: "empty string"@,
                    },
                )
            },
        }
    }

    /// `String#ord`: the code point of the first character of the receiver.
    pub fn ord(slf: &Value) -> (result: Result<Value, Exception>)
        ensures
            match result {
                Ok(value) => Self::ord_spec(slf@) == Ok::<Term, ExceptionView>(value@),
                Err(exception) => Self::ord_spec(slf@) == Err::<Term, ExceptionView>(exception@),
            },
    {
        match String::try_convert(slf) {
            Ok(text) => match first_char(text.as_str()) {
                Some(first) => Ok((first as u32).convert()),
                None => Err(ExceptionClass::ArgumentError.raise("empty string")),
            },
            Err(_) => Ok(Value::Nil),
        }
    }

    /// What the VM sees of an outcome of scanning: the value, a `TypeError`
    /// for an argument that is no pattern, and a `RuntimeError` for any
    /// other failure.
    pub open spec fn scan_spec(outcome: Result<Term, scan::Error>) -> Result<Term, ExceptionView> {
        match outcome {
            Ok(value) => Ok(value),
            Err(scan::Error::WrongType) => Err(
                ExceptionView {
                    class: ExceptionClass::TypeError,
                    message: "wrong argument type (expected Regexp)"@,
                },
            ),
            Err(scan::Error::Fatal) => Err(
                ExceptionView {
                    class: ExceptionClass::RuntimeError,
                    message: "fatal String#scan error"@,
                },
            ),
        }
    }

    /// `String#scan`: hands the outcome of scanning the receiver to the VM.
    pub fn scan(outcome: Result<Value, scan::Error>) -> (result: Result<Value, Exception>)
        ensures
            match result {
                Ok(value) => outcome matches Ok(given) && value@ == given@,
                Err(exception) => outcome matches Err(error) && Self::scan_spec(
                    Err::<Term, scan::Error>(error),
                ) == Err::<Term, ExceptionView>(exception@),
            },
    {
        match outcome {
            Ok(value) => Ok(value),
            Err(scan::Error::WrongType) => Err(
                ExceptionClass::TypeError.raise("wrong argument type (expected Regexp)"),
            ),
            Err(scan::Error::Fatal) => Err(
                ExceptionClass::RuntimeError.raise("fatal String#scan error"),
            ),
        }
    }
}

} // verus!
