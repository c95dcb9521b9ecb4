use vstd::prelude::*;

verus! {

/// What the editor does about signing in once it has started.
#[derive(Clone, Copy, Debug, PartialEq, Eq, Structural)]
pub enum AuthStep {
    /// Sign in and connect; `try_provider` lets the client use stored
    /// credentials before asking.
    Connect { try_provider: bool },
    /// Ask whether credentials are stored, then call `after_credentials_check`.
    CheckCredentials,
    /// Do not sign in.
    Skip,
}

/// The first sign-in decision. Run from a terminal, the editor signs in only
/// for development sign-in (with stored credentials allowed) or when
/// impersonating a user (without them); otherwise it signs in when
/// credentials are stored.
pub fn auth_step(stdout_is_a_pty: bool, development_auth: bool, impersonating: bool) -> (r:
    AuthStep)
    ensures
        r == if stdout_is_a_pty {
            if development_auth {
                AuthStep::Connect { try_provider: true }
            } else if impersonating {
                AuthStep::Connect { try_provider: false }
            } else {
                AuthStep::Skip
            }
        } else {
            AuthStep::CheckCredentials
        },
{
    if stdout_is_a_pty {
        if development_auth {
            AuthStep::Connect { try_provider: true }
        } else if impersonating {
            AuthStep::Connect { try_provider: false }
        } else {
            AuthStep::Skip
        }
    } else {
        AuthStep::CheckCredentials
    }
}

/// The sign-in decision once it is known whether credentials are stored.
pub fn after_credentials_check(has_credentials: bool) -> (r: AuthStep)
    ensures
        r == if has_credentials {
            AuthStep::Connect { try_provider: true }
        } else {
            AuthStep::Skip
        },
{
    if has_credentials {
        AuthStep::Connect { try_provider: true }
    } else {
        AuthStep::Skip
    }
}

} // verus!
