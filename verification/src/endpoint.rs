//! The two gateway endpoints and their fixed routing hosts.

use vstd::prelude::*;

verus! {

/// Which push gateway a client talks to, chosen once at construction.
#[derive(Clone, Copy, Debug, PartialEq, Eq, Structural)]
pub enum Endpoint {
    /// The development gateway.
    Sandbox,
    /// The production gateway.
    Production,
}

/// The port every exchange uses.
pub const GATEWAY_PORT: u16 = 443;

impl Endpoint {
    /// The hostname this endpoint resolves to.
    pub open spec fn spec_host(self) -> Seq<char> {
        match self {
            Endpoint::Sandbox => "api.sandbox.push.apple.com"@,
            Endpoint::Production => "api.push.apple.com"@,
        }
    }

    /// Resolve the endpoint to its fixed gateway hostname.
    pub fn host(&self) -> (r: String)
        ensures
            r@ == self.spec_host(),
    {
        match self {
            Endpoint::Sandbox => "api.sandbox.push.apple.com".to_owned(),
            Endpoint::Production => "api.push.apple.com".to_owned(),
        }
    }
}

} // verus!
