use vstd::prelude::*;

verus! {

/// Outcome of inspecting a request's credential header on a protected route:
/// the literal header value as an opaque bearer token, an immediate
/// rejection with the given status, or an instruction to skip this handler
/// and let the dispatcher keep matching.
#[derive(Debug, PartialEq)]
pub enum AuthOutcome {
    Authenticated(String),
    Rejected(u16),
    Skip,
}

/// The sentinel credential value that bypasses a matched handler instead of
/// being treated as a session token. This is a debug bypass kept for
/// compatibility; a hardened deployment should remove it.
pub open spec fn sentinel() -> Seq<char> {
    "test"@
}

/// Extracts the authentication outcome from the credential-header values of
/// one request, in order: no value or more than one value rejects with 401;
/// the sentinel value skips the handler; anything else authenticates with the
/// literal header value as the token. The sentinel is never handed out as a
/// token. No store access happens here.
pub fn extract(headers: &Vec<String>) -> (r: AuthOutcome)
    ensures
        headers@.len() != 1 ==> r == AuthOutcome::Rejected(401u16),
        headers@.len() == 1 && headers@[0]@ == sentinel() ==> r == AuthOutcome::Skip,
        headers@.len() == 1 && headers@[0]@ != sentinel() ==> r == AuthOutcome::Authenticated(
            headers@[0],
        ),
        r matches AuthOutcome::Authenticated(t) ==> t@ != sentinel(),
        r matches AuthOutcome::Rejected(s) ==> s == 401,
{
    if headers.len() != 1 {
        return AuthOutcome::Rejected(401);
    }
    let key = &headers[0];
    let bypass = String::from_str("test");
    if *key == bypass {
        return AuthOutcome::Skip;
    }
    AuthOutcome::Authenticated(key.clone())
}

} // verus!
