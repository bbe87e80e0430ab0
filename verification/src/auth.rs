use vstd::prelude::*;

use crate::errors::CoreError;
use crate::jwt::aud_claim_ok;
use crate::jwt::iss_claim_ok;
use crate::jwt::jwt_header_of;
use crate::jwt::sub_claim_of;
use crate::jwt::AlgFamily;
use crate::jwt::VerifiedClaims;
use crate::jwt::VerifyIssue;
use crate::jwt::decode_token_header;
use crate::jwt::verify_rsa_token;
use crate::keys::plan_of;
use crate::keys::KeyAlgorithm;
use crate::keys::KeyPlan;
use crate::keys::KeySetCache;
use std::sync::Arc;
use std::sync::RwLock;

verus! {

#[verifier::external_type_specification]
#[verifier::external_body]
#[verifier::reject_recursive_types(T)]
pub struct ExRwLock<T: ?Sized>(RwLock<T>);

/// Relies on std::sync::RwLock::new: wraps a value in a fresh, unpoisoned
/// multi-reader/single-writer lock.
#[verifier::external_body]
fn rwlock_new<T>(obj: T) -> RwLock<T> {
    RwLock::new(obj)
}

/// A shared handle to one logical cache value: any number of holders may
/// read it, one at a time may write it, and a holder that panics poisons
/// it for everyone.
pub type Locker<T> = Arc<RwLock<T>>;

/// Share one value behind a reference-counted reader-writer lock, the cell
/// every long-lived cache of this crate lives in. The lock plumbing itself
/// is unverified; holders that find the lock poisoned must surface
/// [`CoreError::LockFailure`], never retry or ignore it.
pub fn locker<T>(obj: T) -> Locker<T> {
    Arc::new(rwlock_new(obj))
}

/// The authenticated subject of a request: the `sub` claim of a token that
/// passed every check.
pub struct Auth(pub String);

/// The expected values a deployment validates tokens against.
pub struct AuthOptions {
    /// The audience a token's `aud` claim must carry.
    pub audience: String,
    /// The issuer a token's `iss` claim must carry.
    pub issuer: String,
    /// An allowed cross-origin value, if any; read only by the HTTP layer.
    pub origin: Option<String>,
}

/// Why a set of authentication options cannot be used.
#[derive(Clone, Copy, Debug, PartialEq, Eq, Structural)]
pub enum SetupIssue {
    MissingAudience,
    MissingIssuer,
}

impl AuthOptions {
    /// Options are usable only with a nonempty audience and issuer; the
    /// audience is reported first when both are missing.
    pub fn validate(&self) -> (r: Result<(), SetupIssue>)
        ensures
            r == (if self.audience@.len() == 0 {
                Err::<(), SetupIssue>(SetupIssue::MissingAudience)
            } else if self.issuer@.len() == 0 {
                Err::<(), SetupIssue>(SetupIssue::MissingIssuer)
            } else {
                Ok::<(), SetupIssue>(())
            }),
    {
        if self.audience.as_str().is_empty() {
            Err(SetupIssue::MissingAudience)
        } else if self.issuer.as_str().is_empty() {
            Err(SetupIssue::MissingIssuer)
        } else {
            Ok(())
        }
    }
}

/// `i` splits `s` into exactly two nonempty space-separated components:
/// `s[i]` is a space, no other position is, and both sides are nonempty.
pub open spec fn is_split_index(s: Seq<char>, i: int) -> bool {
    &&& 1 <= i
    &&& i + 2 <= s.len()
    &&& s[i] == ' '
    &&& forall|j: int| 0 <= j < s.len() && j != i ==> s[j] != ' '
}

/// The token component of a well-shaped `Authorization` value, of the form
/// `<scheme> <token>` with exactly one space and nothing empty; anything
/// else has no token.
pub open spec fn spec_bearer_token(s: Seq<char>) -> Option<Seq<char>> {
    if exists|i: int| is_split_index(s, i) {
        let i = choose|i: int| is_split_index(s, i);
        Some(s.subrange(i + 1, s.len() as int))
    } else {
        None
    }
}

/// The header value of a request, if it sent one.
pub open spec fn header_text(header: Option<&String>) -> Option<Seq<char>> {
    match header {
        Some(h) => Some(h@),
        None => None,
    }
}

/// The bearer token of a request: a present, well-shaped header value's
/// second component.
pub open spec fn request_token(header: Option<&String>) -> Option<Seq<char>> {
    match header_text(header) {
        Some(h) => spec_bearer_token(h),
        None => None,
    }
}

/// Extract the bearer token from an `Authorization` value: exactly two
/// space-separated nonempty components are required, and the second is the
/// token; any other shape is a malformed request.
pub fn bearer_token(header: &String) -> (r: Result<String, CoreError>)
    ensures
        match spec_bearer_token(header@) {
            Some(t) => r matches Ok(tok) && tok@ == t,
            None => r == Err::<String, CoreError>(CoreError::MalformedRequest),
        },
{
    let s = header.as_str();
    let n = s.unicode_len();
    let mut space_at: usize = 0;
    let mut count: usize = 0;
    for idx in 0..n
        invariant
            n == s@.len(),
            count <= idx,
            count == 0 ==> (forall|j: int| 0 <= j < idx ==> s@[j] != ' '),
            count == 1 ==> (space_at < idx && s@[space_at as int] == ' ' && (forall|j: int|
                0 <= j < idx && j != space_at ==> s@[j] != ' ')),
            count >= 2 ==> (exists|a: int, b: int|
                0 <= a < b < idx && s@[a] == ' ' && s@[b] == ' '),
    {
        if s.get_char(idx) == ' ' {
            proof {
                if count == 1 {
                    assert(s@[space_at as int] == ' ' && s@[idx as int] == ' '
                        && space_at < idx);
                }
            }
            space_at = idx;
            count = count + 1;
        }
    }
    if count == 1 && space_at >= 1 && space_at + 1 < n {
        proof {
            assert(is_split_index(s@, space_at as int));
            assert forall|i: int| is_split_index(s@, i) implies i == space_at as int by {
                if i != space_at as int {
                    assert(s@[space_at as int] == ' ');
                }
            }
        }
        let tok = s.substring_char(space_at + 1, n);
        Ok(tok.to_owned())
    } else {
        proof {
            assert forall|i: int| !is_split_index(s@, i) by {
                if is_split_index(s@, i) {
                    if count == 0 {
                        assert(s@[i] != ' ');
                    } else if count == 1 {
                        if i != space_at as int {
                            assert(s@[space_at as int] == ' ');
                        }
                    } else {
                        let (a, b) = choose|a: int, b: int|
                            0 <= a < b < n && s@[a] == ' ' && s@[b] == ' ';
                        assert(a != i || b != i);
                    }
                }
            }
        }
        Err(CoreError::MalformedRequest)
    }
}

/// What one validation pass answers: access as a subject, a rejection, or
/// an instruction to refresh the key set and run the pass again.
pub enum AuthStep {
    /// Every check passed; the request acts as this subject.
    Granted(Auth),
    /// The request is rejected with this kind.
    Denied(CoreError),
    /// The key id is uncached and the refresh window has passed: the caller
    /// fetches the published key set, merges it, and runs the pass again.
    /// A failed fetch merges nothing and the request is rejected as an
    /// upstream fetch failure.
    FetchKeys,
}

/// What one verification outcome settles to, the last step of a pass: a
/// verified token acts as its `sub` claim, a verified token without one is
/// a malformed token, a non-RSA rejection is an unsupported algorithm, and
/// any other rejection is unauthorized.
pub open spec fn settled_step(outcome: Result<VerifiedClaims, VerifyIssue>) -> AuthStep {
    match outcome {
        Ok(c) => match c.sub {
            Some(s) => AuthStep::Granted(Auth(s)),
            None => AuthStep::Denied(CoreError::MalformedToken),
        },
        Err(VerifyIssue::WrongAlgorithm) => AuthStep::Denied(CoreError::UnsupportedAlgorithm),
        Err(_) => AuthStep::Denied(CoreError::Unauthorized),
    }
}

/// Turn the verification call's outcome into the pass's answer, exactly as
/// [`settled_step`] says, for every value the call may hand back.
pub fn settle_verification(outcome: Result<VerifiedClaims, VerifyIssue>) -> (r: AuthStep)
    ensures
        r == settled_step(outcome),
{
    match outcome {
        Ok(claims) => match claims.sub {
            Some(sub) => AuthStep::Granted(Auth(sub)),
            None => AuthStep::Denied(CoreError::MalformedToken),
        },
        Err(VerifyIssue::WrongAlgorithm) => AuthStep::Denied(CoreError::UnsupportedAlgorithm),
        Err(_) => AuthStep::Denied(CoreError::Unauthorized),
    }
}

/// The part of a validation pass that parsing, the key lookup and the
/// staleness gate fully determine: `Some(step)` where the outcome is
/// decided before any signature work, `None` where the RSA verification
/// call has the last word.
pub open spec fn decided_outcome(
    cache: KeySetCache,
    header: Option<&String>,
    now: u64,
) -> Option<AuthStep> {
    match request_token(header) {
        None => Some(AuthStep::Denied(CoreError::MalformedRequest)),
        Some(tok) => match jwt_header_of(tok) {
            None => Some(AuthStep::Denied(CoreError::MalformedToken)),
            Some(th) => match th.kid {
                None => Some(AuthStep::Denied(CoreError::MalformedToken)),
                Some(kid) => if th.alg_family != AlgFamily::Rsa {
                    Some(AuthStep::Denied(CoreError::UnsupportedAlgorithm))
                } else {
                    match plan_of(
                        cache.keys(),
                        cache.timer_spec(),
                        cache.threshold_spec(),
                        kid,
                        now,
                    ) {
                        KeyPlan::FetchFirst => Some(AuthStep::FetchKeys),
                        KeyPlan::Unknown => Some(AuthStep::Denied(CoreError::UnknownKey)),
                        KeyPlan::Found(k) => match k.algorithm {
                            KeyAlgorithm::Other => Some(
                                AuthStep::Denied(CoreError::UnsupportedAlgorithm),
                            ),
                            KeyAlgorithm::Rsa { .. } => None,
                        },
                    }
                },
            },
        },
    }
}

/// One validation pass over the state the caller holds, with the clock
/// injected: extract the bearer token, decode its unverified header, fail
/// closed on any non-RSA algorithm, consult the key cache under its
/// staleness gate, and verify the signature and claims against the
/// expected audience and issuer.
///
/// Everything up to the verification call is decided exactly by
/// [`decided_outcome`]; the verification call itself answers to the clock,
/// so no grant can be owed, but everything around it is pinned: the
/// outcome is settled exactly by [`settle_verification`], the pass never
/// asks for a fetch past the call, a grant carries exactly the token's
/// `sub` claim and certifies that the audience and issuer checks passed —
/// a token whose claim conflicts with the expected value is never granted
/// — a missing-`sub` denial really means the token has no `sub`, and a
/// rejection is one of the kinds a failed verification may produce, with
/// the distinction visible only to the server's log, never to the client.
pub fn authenticate(
    cache: &KeySetCache,
    header: Option<&String>,
    opts: &AuthOptions,
    now: u64,
) -> (r: AuthStep)
    ensures
        match decided_outcome(*cache, header, now) {
            Some(step) => r == step,
            None => {
                &&& !(r is FetchKeys)
                &&& (r matches AuthStep::Granted(a) ==> request_token(header) matches Some(tok)
                    && sub_claim_of(tok) == Some(a.0@)
                    && aud_claim_ok(tok, opts.audience@)
                    && iss_claim_ok(tok, opts.issuer@))
                &&& (r matches AuthStep::Denied(e) ==> (e is Unauthorized
                    || e is UnsupportedAlgorithm || e is MalformedToken))
                &&& (r == AuthStep::Denied(CoreError::MalformedToken)
                    ==> (request_token(header) matches Some(tok) && sub_claim_of(tok) is None))
            },
        },
{
    let hdr = match header {
        Some(h) => h,
        None => {
            return AuthStep::Denied(CoreError::MalformedRequest);
        },
    };
    let token = match bearer_token(hdr) {
        Ok(t) => t,
        Err(e) => {
            return AuthStep::Denied(e);
        },
    };
    let th = match decode_token_header(&token) {
        Ok(h) => h,
        Err(_) => {
            return AuthStep::Denied(CoreError::MalformedToken);
        },
    };
    let kid = match &th.kid {
        Some(k) => k.clone(),
        None => {
            return AuthStep::Denied(CoreError::MalformedToken);
        },
    };
    if th.alg_family != AlgFamily::Rsa {
        return AuthStep::Denied(CoreError::UnsupportedAlgorithm);
    }
    match cache.ensure_key_plan(&kid, now) {
        KeyPlan::FetchFirst => AuthStep::FetchKeys,
        KeyPlan::Unknown => AuthStep::Denied(CoreError::UnknownKey),
        KeyPlan::Found(key) => match &key.algorithm {
            KeyAlgorithm::Other => AuthStep::Denied(CoreError::UnsupportedAlgorithm),
            KeyAlgorithm::Rsa { modulus, exponent } => settle_verification(
                verify_rsa_token(&token, modulus, exponent, &opts.audience, &opts.issuer),
            ),
        },
    }
}

} // verus!
