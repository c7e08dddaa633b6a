//! The closed set of grants that a token can be acquired with.

use vstd::prelude::*;

verus! {

/// The OAuth 2.0 flow used to obtain a token.
#[derive(Clone, Copy, Debug, PartialEq, Eq, Structural)]
pub enum Grant {
    /// Authorization code with a proof key for code exchange.
    AuthorizationCodeWithPkce,
    /// Authorization code.
    AuthorizationCode,
    /// Implicit grant: the token arrives in the callback itself.
    Implicit,
    /// Resource owner password credentials.
    ResourceOwnerPasswordClientCredentials,
    /// Client credentials.
    ClientCredentials,
}

impl Grant {
    /// Whether the grant needs the user's browser and therefore a callback.
    pub open spec fn interactive(self) -> bool {
        self is AuthorizationCodeWithPkce || self is AuthorizationCode || self is Implicit
    }

    /// The name under which the grant is configured.
    pub open spec fn name_text(self) -> Seq<char> {
        match self {
            Grant::AuthorizationCodeWithPkce => "authorization-code-with-pkce"@,
            Grant::AuthorizationCode => "authorization-code"@,
            Grant::Implicit => "implicit"@,
            Grant::ResourceOwnerPasswordClientCredentials =>
                "resource-owner-password-client-credentials"@,
            Grant::ClientCredentials => "client-credentials"@,
        }
    }

    /// The name under which the grant is configured.
    pub fn name(&self) -> (r: &'static str)
        ensures
            r@ == self.name_text(),
    {
        match self {
            Grant::AuthorizationCodeWithPkce => "authorization-code-with-pkce",
            Grant::AuthorizationCode => "authorization-code",
            Grant::Implicit => "implicit",
            Grant::ResourceOwnerPasswordClientCredentials =>
                "resource-owner-password-client-credentials",
            Grant::ClientCredentials => "client-credentials",
        }
    }

    /// Tells the interactive grants from the ones that only talk to the
    /// token endpoint.
    pub fn is_interactive(&self) -> (r: bool)
        ensures
            r == self.interactive(),
    {
        match self {
            Grant::AuthorizationCodeWithPkce => true,
            Grant::AuthorizationCode => true,
            Grant::Implicit => true,
            Grant::ResourceOwnerPasswordClientCredentials => false,
            Grant::ClientCredentials => false,
        }
    }
}

} // verus!
