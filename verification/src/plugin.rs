//! What a plugin author writes: one type that implements `VtxPlugin`.

use crate::auth::UserContext;
use crate::error::{VtxError, VtxResult};
use crate::events::PluginEvent;
use crate::host::Host;
use crate::http::{Request, Response, ResponseBuilder};
use vstd::prelude::*;

verus! {

/// What a plugin says of itself. The host receives it as it is.
pub struct Manifest {
    pub id: String,
    pub name: String,
    pub version: String,
    pub description: String,
    pub entrypoint: String,
}

/// The entry points of a plugin. Only `get_manifest` has to be written; the
/// others have defaults for a plugin that does not take part in them.
pub trait VtxPlugin {
    /// Answers a request. By default: status 404 and no body.
    fn handle<H: Host>(host: &H, req: Request<H::Buffer>) -> (r: VtxResult<Response<H::Buffer>>)
        default_ensures
            r == Ok::<Response<H::Buffer>, VtxError>(Response { status: 404, body: None }),
    {
        Ok(ResponseBuilder::not_found())
    }

    /// Takes note of an event. By default: does nothing and succeeds.
    fn handle_event<H: Host>(host: &H, event: PluginEvent) -> (r: VtxResult<()>)
        default_ensures
            r is Ok,
    {
        Ok(())
    }

    /// The migration scripts of the plugin, in order. By default: none.
    fn get_migrations() -> (scripts: Vec<String>)
        default_ensures
            scripts@.len() == 0,
    {
        Vec::new()
    }

    /// What the plugin says of itself.
    fn get_manifest() -> Manifest;

    /// The resources that the plugin declares. By default: none.
    fn get_resources() -> (resources: Vec<String>)
        default_ensures
            resources@.len() == 0,
    {
        Vec::new()
    }

    /// Tells who sent a request, from its headers. By default: nobody, with
    /// status 401, which leaves the question to other plugins.
    fn authenticate<H: Host>(host: &H, headers: &[(String, String)]) -> (r: VtxResult<UserContext>)
        default_ensures
            r == Err::<UserContext, VtxError>(VtxError::AuthDenied(401)),
    {
        Err(VtxError::AuthDenied(401))
    }
}

} // verus!
