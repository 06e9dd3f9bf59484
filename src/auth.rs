//! The OAuth callback as a sequence of decisions: check the code, read the
//! exchange's answer, read the profile, then issue the state and redirect.
//! The caller performs each outbound call that a step asks for and hands the
//! outcome to the next step.

use crate::cipher::{CipherError, TokenCipher};
use crate::hexcode::hex_text;
use crate::reply::Failure;
use vstd::prelude::*;
use vstd::string::StringExecFns;

verus! {

/// The authorised user in the platform's answer to a code exchange.
pub struct AuthedUser {
    pub id: String,
    pub access_token: String,
}

/// The platform's answer to a code exchange.
pub struct OAuthAccess {
    pub ok: bool,
    pub authed_user: Option<AuthedUser>,
    pub access_token: Option<String>,
}

/// What the callback keeps between the exchange and the profile lookup.
pub struct PendingAuth {
    pub user_id: String,
    pub access_token: String,
}

/// The next step of the callback.
pub enum AuthStep {
    /// Exchange the code with the platform; no call has been made yet.
    Exchange { code: String },
    /// Fetch the profile with the user's own token.
    FetchProfile { user_token: String, pending: PendingAuth },
    /// Answer with this failure; no further call is made.
    Fail(Failure),
}

/// The first step: an empty code is refused before any outbound call.
pub fn auth_begin(code: &str) -> (r: AuthStep)
    ensures
        code@.len() == 0 ==> r == AuthStep::Fail(Failure::NoCode),
        code@.len() != 0 ==> (r matches AuthStep::Exchange { code: c } && c@ == code@),
{
    if code.is_empty() {
        AuthStep::Fail(Failure::NoCode)
    } else {
        AuthStep::Exchange { code: code.to_owned() }
    }
}

/// The step after the exchange. `None` stands for an exchange that could not
/// be made or whose answer was not a readable body.
pub fn auth_after_exchange(answer: Option<OAuthAccess>) -> (r: AuthStep)
    ensures
        match answer {
            None => r == AuthStep::Fail(Failure::TokenExchangeFailed),
            Some(a) => if !a.ok {
                r == AuthStep::Fail(Failure::InvalidCode)
            } else {
                match (a.authed_user, a.access_token) {
                    (Some(u), Some(t)) => r == (AuthStep::FetchProfile {
                        user_token: u.access_token,
                        pending: PendingAuth { user_id: u.id, access_token: t },
                    }),
                    _ => r == AuthStep::Fail(Failure::TokenExchangeFailed),
                }
            },
        },
{
    match answer {
        None => AuthStep::Fail(Failure::TokenExchangeFailed),
        Some(a) => {
            if !a.ok {
                AuthStep::Fail(Failure::InvalidCode)
            } else {
                match (a.authed_user, a.access_token) {
                    (Some(u), Some(t)) => AuthStep::FetchProfile {
                        user_token: u.access_token,
                        pending: PendingAuth { user_id: u.id, access_token: t },
                    },
                    _ => AuthStep::Fail(Failure::TokenExchangeFailed),
                }
            }
        },
    }
}

pub open spec fn connected_location_spec(
    prefix: Seq<char>,
    id: Seq<char>,
    name: Seq<char>,
    state: Seq<char>,
) -> Seq<char> {
    prefix + "/api/connected?authorId="@ + id + "&authorName="@ + name + "&authorState="@ + state
}

/// The page of the backend that a connected user is sent to, with the user's
/// id, display name and state in its query.
pub fn connected_location(prefix: &str, id: &str, name: &str, state: &str) -> (r: String)
    ensures
        r@ == connected_location_spec(prefix@, id@, name@, state@),
{
    proof {
        reveal_strlit("/api/connected?authorId=");
        reveal_strlit("&authorName=");
        reveal_strlit("&authorState=");
    }
    let mut s = prefix.to_owned();
    s.append("/api/connected?authorId=");
    s.append(id);
    s.append("&authorName=");
    s.append(name);
    s.append("&authorState=");
    s.append(state);
    s
}

/// What the profile lookup gave.
pub enum ProfileAnswer {
    /// The lookup could not be made or its body not read.
    Unreachable,
    /// The body was read but held no display name.
    Unnamed,
    /// The user's display name.
    Named(String),
}

/// The answer once the state is issued or refused: a redirect to the
/// connected page that carries the state.
pub fn auth_redirect(prefix: &str, user_id: &str, name: &str, issued: Result<String, CipherError>) -> (r:
    Result<String, Failure>)
    ensures
        match issued {
            Ok(state) => r is Ok && r->Ok_0@ == connected_location_spec(
                prefix@,
                user_id@,
                name@,
                state@,
            ),
            Err(_) => r == Err::<String, Failure>(Failure::StateNotIssued),
        },
{
    match issued {
        Ok(state) => Ok(connected_location(prefix, user_id, name, state.as_str())),
        Err(_) => Err(Failure::StateNotIssued),
    }
}

/// The last step: with a display name, the platform token becomes state and
/// the user is redirected to the backend's connected page. The padding of
/// the encryption is random, so the state is stated as the hexadecimal text
/// of some ciphertext of the key's size.
pub fn auth_finish(
    cipher: &TokenCipher,
    prefix: &str,
    pending: PendingAuth,
    profile: ProfileAnswer,
) -> (r: Result<String, Failure>)
    ensures
        match profile {
            ProfileAnswer::Unreachable => r == Err::<String, Failure>(Failure::ProfileFailed),
            ProfileAnswer::Unnamed => r == Err::<String, Failure>(Failure::NameMissing),
            ProfileAnswer::Named(n) => {
                &&& (cipher.token_too_long(pending.access_token@) ==> r == Err::<String, Failure>(
                    Failure::StateNotIssued,
                ))
                &&& (r is Err ==> r == Err::<String, Failure>(Failure::StateNotIssued))
                &&& (r is Ok ==> exists|c: Seq<u8>|
                    c.len() == cipher.public_modulus() && r->Ok_0@ == connected_location_spec(
                        prefix@,
                        pending.user_id@,
                        n@,
                        hex_text(c),
                    ))
            },
        },
{
    match profile {
        ProfileAnswer::Unreachable => Err(Failure::ProfileFailed),
        ProfileAnswer::Unnamed => Err(Failure::NameMissing),
        ProfileAnswer::Named(name) => {
            let issued = cipher.encrypt(pending.access_token.as_str());
            auth_redirect(prefix, pending.user_id.as_str(), name.as_str(), issued)
        },
    }
}

} // verus!
