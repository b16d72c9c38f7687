//! The entry points that the host invokes, bound to one plugin.
//!
//! Each of them runs the plugin's own function and lowers what it returns to
//! the plain shape that crosses the boundary. No error leaves a plugin in any
//! other form.

use crate::auth::{IntoAuthResult, UserContext};
use crate::error::VtxResult;
use crate::events::PluginEvent;
use crate::host::Host;
use crate::http::{reports, shown_message, Request, Response, ResponseBuilder};
use crate::plugin::{Manifest, VtxPlugin};
use vstd::prelude::*;

verus! {

/// What the host receives for the outcome of a plugin's `handle`: the
/// plugin's response, or a response that reports the plugin's error.
pub open spec fn handled<H: Host>(
    host: &H,
    outcome: VtxResult<Response<H::Buffer>>,
    resp: Response<H::Buffer>,
) -> bool {
    match outcome {
        Ok(answer) => resp == answer,
        Err(err) => reports(host, resp, err.status(), err.kind(), shown_message(err)),
    }
}

/// Lowers the outcome of a plugin's `handle`.
pub fn lower_response<H: Host>(host: &H, outcome: VtxResult<Response<H::Buffer>>) -> (resp:
    Response<H::Buffer>)
    ensures
        handled(host, outcome, resp),
{
    match outcome {
        Ok(answer) => answer,
        Err(err) => ResponseBuilder::error(host, err),
    }
}

/// What the host receives for the outcome of a plugin's `handle_event`:
/// success, or the printed form of the plugin's error.
pub open spec fn event_handled(outcome: VtxResult<()>, r: Result<(), String>) -> bool {
    match outcome {
        Ok(_) => r is Ok,
        Err(err) => r matches Err(printed) && printed@ == err.display(),
    }
}

/// Lowers the outcome of a plugin's `handle_event`.
pub fn lower_event(outcome: VtxResult<()>) -> (r: Result<(), String>)
    ensures
        event_handled(outcome, r),
{
    match outcome {
        Ok(_) => Ok(()),
        Err(err) => Err(err.to_string()),
    }
}

/// Runs the plugin's `handle` and lowers its outcome.
pub fn handle<P: VtxPlugin, H: Host>(host: &H, req: Request<H::Buffer>) -> (resp: Response<
    H::Buffer,
>)
    ensures
        exists|outcome: VtxResult<Response<H::Buffer>>|
            call_ensures(P::handle::<H>, (host, req), outcome) && #[trigger] handled(
                host,
                outcome,
                resp,
            ),
{
    let outcome = P::handle(host, req);
    let ghost seen = outcome;
    let resp = lower_response(host, outcome);
    assert(call_ensures(P::handle::<H>, (host, req), seen) && handled(host, seen, resp));
    resp
}

/// Runs the plugin's `handle_event` and lowers its outcome.
pub fn handle_event<P: VtxPlugin, H: Host>(host: &H, event: PluginEvent) -> (r: Result<(), String>)
    ensures
        exists|outcome: VtxResult<()>|
            call_ensures(P::handle_event::<H>, (host, event), outcome) && #[trigger] event_handled(
                outcome,
                r,
            ),
{
    let outcome = P::handle_event(host, event);
    let ghost seen = outcome;
    let r = lower_event(outcome);
    assert(call_ensures(P::handle_event::<H>, (host, event), seen) && event_handled(seen, r));
    r
}

/// The plugin's migration scripts, as the plugin gives them.
pub fn get_migrations<P: VtxPlugin>() -> (scripts: Vec<String>)
    ensures
        call_ensures(P::get_migrations, (), scripts),
{
    P::get_migrations()
}

/// The plugin's manifest, as the plugin gives it.
pub fn get_manifest<P: VtxPlugin>() -> (manifest: Manifest)
    ensures
        call_ensures(P::get_manifest, (), manifest),
{
    P::get_manifest()
}

/// The plugin's resources, as the plugin gives them.
pub fn get_resources<P: VtxPlugin>() -> (resources: Vec<String>)
    ensures
        call_ensures(P::get_resources, (), resources),
{
    P::get_resources()
}

/// Runs the plugin's `authenticate` and lowers its outcome: the identity, or
/// nothing but the status that stands for the plugin's error.
pub fn authenticate<P: VtxPlugin, H: Host>(host: &H, headers: Vec<(String, String)>) -> (r: Result<
    UserContext,
    u16,
>)
    ensures
        exists|given: &[(String, String)], outcome: VtxResult<UserContext>|
            #![trigger call_ensures(P::authenticate::<H>, (host, given), outcome)]
            given@ == headers@ && call_ensures(P::authenticate::<H>, (host, given), outcome) && r
                == outcome.lowered(),
{
    let given = headers.as_slice();
    let outcome = P::authenticate(host, given);
    let ghost seen = outcome;
    let r = outcome.into_auth_result();
    assert(given@ == headers@ && call_ensures(P::authenticate::<H>, (host, given), seen) && r
        == seen.lowered());
    r
}

} // verus!
