//! Where the endpoint handles come from: the configured addresses, read only
//! once they have been set. Reading one that was never set is a defect of the
//! program, not a failure of the remote system, so the callers must rule it
//! out first.
use crate::config::Config;
use vstd::prelude::*;

verus! {

/// The address of the request/response endpoint.
pub fn request_url(config: &Config) -> (r: String)
    requires
        config.rpc_http.content() is Some,
    ensures
        config.rpc_http.content() == Some(r),
{
    config.rpc_http.get().unwrap().clone()
}

/// The address of the streaming endpoint.
pub fn streaming_url(config: &Config) -> (r: String)
    requires
        config.rpc_ws.content() is Some,
    ensures
        config.rpc_ws.content() == Some(r),
{
    config.rpc_ws.get().unwrap().clone()
}

} // verus!
