//! The rules under which a token is accepted.

use vstd::prelude::*;
use crate::text::{texts, copy_text, copy_texts};

verus! {

/// The largest clock-skew allowance, in seconds, that a policy may grant.
pub const MAX_LEEWAY: u64 = 1_000_000_000;

/// The clock-skew allowance of the strict policy, in seconds.
pub const STRICT_LEEWAY: u64 = 30;

/// The clock-skew allowance of a policy that was not given one, in seconds.
pub const DEFAULT_LEEWAY: u64 = 60;

/// The signature algorithm that a policy admits.
#[derive(Clone, Copy, Debug, PartialEq, Eq, Structural)]
pub enum Algorithm {
    HS256,
    RS256,
}

/// How a token is checked when it is decoded.
#[derive(Clone, Debug)]
pub struct ValidationPolicy {
    /// The one signature algorithm that is admitted.
    pub algorithm: Algorithm,
    /// The allowance for clock skew on `exp` and `nbf`, in seconds.
    pub leeway: u64,
    /// Whether an expired token is refused.
    pub validate_exp: bool,
    /// Whether a token that is not yet valid is refused.
    pub validate_nbf: bool,
    /// Whether the audience of a token is held against `audience`.
    pub validate_aud: bool,
    /// The audiences that are accepted.
    pub audience: Option<Vec<String>>,
    /// The issuers that are accepted; any issuer where there is none.
    pub issuer: Option<Vec<String>>,
    /// Whether the signature is checked.
    pub verify_signature: bool,
}

/// What a `ValidationPolicy` holds, as plain values.
pub struct ValidationPolicyView {
    pub algorithm: Algorithm,
    pub leeway: u64,
    pub validate_exp: bool,
    pub validate_nbf: bool,
    pub validate_aud: bool,
    pub audience: Option<Seq<Seq<char>>>,
    pub issuer: Option<Seq<Seq<char>>>,
    pub verify_signature: bool,
}

/// The texts of an optional list.
pub open spec fn opt_texts(o: Option<Vec<String>>) -> Option<Seq<Seq<char>>> {
    match o {
        Some(v) => Some(texts(v@)),
        None => None,
    }
}

impl View for ValidationPolicy {
    type V = ValidationPolicyView;

    open spec fn view(&self) -> ValidationPolicyView {
        ValidationPolicyView {
            algorithm: self.algorithm,
            leeway: self.leeway,
            validate_exp: self.validate_exp,
            validate_nbf: self.validate_nbf,
            validate_aud: self.validate_aud,
            audience: opt_texts(self.audience),
            issuer: opt_texts(self.issuer),
            verify_signature: self.verify_signature,
        }
    }
}

impl ValidationPolicyView {
    /// A policy is usable where its leeway is within the limit.
    pub open spec fn wf(self) -> bool {
        self.leeway <= MAX_LEEWAY
    }

    /// The same policy without the audience check.
    pub open spec fn audience_relaxed(self) -> ValidationPolicyView {
        ValidationPolicyView { validate_aud: false, ..self }
    }

    /// Whether anything is decided on trust in the token's signature.
    pub open spec fn is_strict(self) -> bool {
        self.verify_signature
    }
}

/// The insecure policy for a client: no signature check, the audience pinned to
/// the client, expiry enforced with the default leeway.
pub open spec fn insecure_policy(client_id: Seq<char>) -> ValidationPolicyView {
    ValidationPolicyView {
        algorithm: Algorithm::HS256,
        leeway: DEFAULT_LEEWAY,
        validate_exp: true,
        validate_nbf: false,
        validate_aud: true,
        audience: Some(seq![client_id]),
        issuer: None,
        verify_signature: false,
    }
}

/// The strict policy for a client and an issuer: RS256 signatures, the issuer and
/// the audience pinned, expiry and not-before enforced with 30 seconds of leeway.
pub open spec fn strict_policy(client_id: Seq<char>, authority: Seq<char>) -> ValidationPolicyView {
    ValidationPolicyView {
        algorithm: Algorithm::RS256,
        leeway: STRICT_LEEWAY,
        validate_exp: true,
        validate_nbf: true,
        validate_aud: true,
        audience: Some(seq![client_id]),
        issuer: Some(seq![authority]),
        verify_signature: true,
    }
}

/// A list of one text.
fn one_text(s: &String) -> (r: Vec<String>)
    ensures
        texts(r@) == seq![s@],
{
    let mut v: Vec<String> = Vec::new();
    v.push(copy_text(s));
    assert(texts(v@) =~= seq![s@]);
    v
}

/// Copies an optional list of texts.
fn copy_opt_texts(o: &Option<Vec<String>>) -> (r: Option<Vec<String>>)
    ensures
        opt_texts(r) == opt_texts(*o),
{
    match o {
        Some(v) => Some(copy_texts(v)),
        None => None,
    }
}

/// The policy that reads a token without checking its signature.
pub fn insecure_validation(client_id: &String) -> (r: ValidationPolicy)
    ensures
        r@ == insecure_policy(client_id@),
        r@.wf(),
        !r@.is_strict(),
{
    ValidationPolicy {
        algorithm: Algorithm::HS256,
        leeway: DEFAULT_LEEWAY,
        validate_exp: true,
        validate_nbf: false,
        validate_aud: true,
        audience: Some(one_text(client_id)),
        issuer: None,
        verify_signature: false,
    }
}

/// The policy that accepts only tokens signed by the provider for this client.
pub fn strict_validation(client_id: &String, authority: &String) -> (r: ValidationPolicy)
    ensures
        r@ == strict_policy(client_id@, authority@),
        r@.wf(),
        r@.is_strict(),
{
    ValidationPolicy {
        algorithm: Algorithm::RS256,
        leeway: STRICT_LEEWAY,
        validate_exp: true,
        validate_nbf: true,
        validate_aud: true,
        audience: Some(one_text(client_id)),
        issuer: Some(one_text(authority)),
        verify_signature: true,
    }
}

impl ValidationPolicy {
    /// A copy with the same contents.
    pub fn duplicate(&self) -> (r: ValidationPolicy)
        ensures
            r@ == self@,
    {
        ValidationPolicy {
            algorithm: self.algorithm,
            leeway: self.leeway,
            validate_exp: self.validate_exp,
            validate_nbf: self.validate_nbf,
            validate_aud: self.validate_aud,
            audience: copy_opt_texts(&self.audience),
            issuer: copy_opt_texts(&self.issuer),
            verify_signature: self.verify_signature,
        }
    }

    /// The same policy without the audience check: for the provider's own access
    /// and refresh tokens, which are not addressed to this client.
    pub fn audience_relaxed(&self) -> (r: ValidationPolicy)
        ensures
            r@ == self@.audience_relaxed(),
    {
        let mut relaxed = self.duplicate();
        relaxed.validate_aud = false;
        relaxed
    }
}

} // verus!
