//! The global installer and the startup entry point: parse the severity
//! text, compose the pipeline, realize its sinks, and install the realized
//! pipeline as the process-wide diagnostics handle, exactly once.

use vstd::prelude::*;

use crate::errors::{InitError, InstallError, ParseError};
use crate::pipeline::Pipeline;
use crate::route::standard_overrides;
use crate::severity::{level_of_text, parse};
use crate::sink::SinkConfig;

verus! {

#[verifier::external_type_specification]
#[verifier::external_body]
pub struct ExDispatch(tracing::Dispatch);

/// Relies on tracing::dispatcher::set_global_default: the given dispatcher
/// becomes the process-wide default for all later emission; at most one call
/// per process ever succeeds, and every later call returns an error and
/// leaves the first installed dispatcher in place, unaffected.
#[verifier::external_body]
fn set_global_dispatch(dispatch: tracing::Dispatch) -> (r: Result<(), ()>) {
    match tracing::dispatcher::set_global_default(dispatch) {
        Ok(()) => Ok(()),
        Err(_) => Err(()),
    }
}

/// Installs a realized pipeline's dispatcher as the process-wide diagnostics
/// handle. The handle is write-once: the only failure is a second
/// installation attempt, and the first installed pipeline stays active.
pub fn install(dispatch: tracing::Dispatch) -> (r: Result<(), InstallError>)
    ensures
        r is Err ==> r->Err_0 is AlreadyInstalled,
{
    match set_global_dispatch(dispatch) {
        Ok(()) => Ok(()),
        Err(()) => Err(InstallError::AlreadyInstalled),
    }
}

/// The startup entry point: sequences the severity filter, the pipeline
/// composer and the global installer. `realize` turns the composed pipeline
/// into the process-wide dispatcher, building each sink adapter; it reports
/// a construction failure as text.
///
/// The stages decide in order: a level text that names no level fails with
/// `UnrecognizedLevel` before anything is built; a sink the builder could
/// not construct fails with `SinkConstruction` before anything is installed;
/// a second installation in the same process fails with `AlreadyInstalled`
/// and leaves the first pipeline in place. Success, like `AlreadyInstalled`,
/// can only follow a build the builder reported as successful, on the
/// pipeline composed from this very call's level and sinks. On success the
/// caller receives the composed pipeline as its emission handle.
pub fn init<F: FnOnce(&Pipeline) -> Result<tracing::Dispatch, String>>(
    level_text: &str,
    sinks: Vec<SinkConfig>,
    realize: F,
) -> (r: Result<Pipeline, InitError>)
    requires
        forall|p: &Pipeline| #[trigger] call_requires(realize, (p,)),
    ensures
        (r is Err && r->Err_0 is UnrecognizedLevel) <==> level_of_text(level_text@) is None,
        r is Err && r->Err_0 is UnrecognizedLevel ==> r->Err_0->UnrecognizedLevel_0@
            == level_text@,
        r is Ok ==> level_of_text(level_text@) == Some(r->Ok_0.rule.default_min),
        r is Ok ==> r->Ok_0.rule.overrides@ == standard_overrides(),
        r is Ok ==> r->Ok_0.sinks@ == sinks@,
        r is Err && r->Err_0 is SinkConstruction ==> exists|p: &Pipeline, res: Result<
            tracing::Dispatch,
            String,
        >|
            #[trigger] call_ensures(realize, (p,), res) && res is Err && res->Err_0 == r->Err_0
                ->SinkConstruction_0 && level_of_text(level_text@) == Some(p.rule.default_min)
                && p.rule.overrides@ == standard_overrides() && p.sinks@ == sinks@,
        r is Ok || (r is Err && r->Err_0 is AlreadyInstalled) ==> exists|p: &Pipeline, res: Result<
            tracing::Dispatch,
            String,
        >|
            #[trigger] call_ensures(realize, (p,), res) && res is Ok && level_of_text(level_text@)
                == Some(p.rule.default_min) && p.rule.overrides@ == standard_overrides()
                && p.sinks@ == sinks@,
{
    let level = match parse(level_text) {
        Ok(level) => level,
        Err(ParseError::UnrecognizedLevel(text)) => {
            return Err(InitError::UnrecognizedLevel(text));
        },
    };
    let pipeline = Pipeline::compose(level, sinks);
    let built = realize(&pipeline);
    let ghost snapshot = built;
    let dispatch = match built {
        Ok(dispatch) => {
            proof {
                assert(snapshot is Ok);
                assert(call_ensures(realize, (&pipeline,), snapshot));
            }
            dispatch
        },
        Err(cause) => {
            proof {
                assert(snapshot == Result::<tracing::Dispatch, String>::Err(cause));
                assert(call_ensures(realize, (&pipeline,), snapshot));
            }
            return Err(InitError::SinkConstruction(cause));
        },
    };
    match install(dispatch) {
        Ok(()) => Ok(pipeline),
        Err(InstallError::AlreadyInstalled) => Err(InitError::AlreadyInstalled),
    }
}

} // verus!
