//! The client side of the control socket.
use vstd::prelude::*;
use crate::text::join3;

verus! {

/// Where the client finds the daemon.
#[derive(Debug, Clone)]
pub struct IpcClient {
    socket_path: String,
}

impl IpcClient {
    /// A client of the daemon's default control socket.
    pub fn new() -> (r: IpcClient)
        ensures
            r.socket_path_spec() == "/var/run/dockyard.sock"@,
    {
        IpcClient { socket_path: crate::paths::socket_path() }
    }

    pub closed spec fn socket_path_spec(&self) -> Seq<char> {
        self.socket_path@
    }

    /// The control socket's path.
    pub fn socket_path(&self) -> (r: &str)
        ensures
            r@ == self.socket_path_spec(),
    {
        self.socket_path.as_str()
    }
}

/// `/api/projects/<slug><suffix>`, the route of one project's resource.
pub fn project_route(slug: &str, suffix: &str) -> (r: String)
    ensures
        r@ == "/api/projects/"@ + slug@ + suffix@,
{
    join3("/api/projects/", slug, suffix)
}

} // verus!
