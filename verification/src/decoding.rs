//! Decoding and validation of the provider's tokens.

use vstd::prelude::*;
use vstd::string::StringExecFns;
use jsonwebtoken::DecodingKey;
use jsonwebtoken::Validation;
use crate::claims::{basic_token_claims, id_token_claims};
use crate::claims::{BasicTokenPayload, ClaimFault, IdTokenPayload, IdTokenPayloadView};
use crate::claims::{RawClaim, RawClaimView};
use crate::config::SsoConfig;
use crate::error::{SsoError, SsoErrorView};
use crate::notice::{notices, record, Notice, NoticeView};
use crate::policy::{insecure_policy, insecure_validation, strict_policy, strict_validation};
use crate::policy::{ValidationPolicy, ValidationPolicyView};
use crate::text::copy_text;

verus! {

/// Key material of `jsonwebtoken`. Nothing is known of what a key holds.
#[verifier::external_type_specification]
#[verifier::external_body]
pub struct ExDecodingKey(jsonwebtoken::DecodingKey);

/// The validation settings of `jsonwebtoken`, as `decode` takes them.
#[verifier::external_type_specification]
#[verifier::external_body]
pub struct ExValidation(jsonwebtoken::Validation);

/// The error of `jsonwebtoken`.
#[verifier::external_type_specification]
#[verifier::external_body]
pub struct ExJwtError(jsonwebtoken::errors::Error);

/// The key that `jsonwebtoken` reads from the bytes of a PEM-encoded RSA public
/// key; none where it does not take the bytes for one.
pub uninterp spec fn rsa_pem_key(pem: Seq<u8>) -> Option<DecodingKey>;

/// Whether `jsonwebtoken` reads the bytes as a PEM-encoded RSA public key.
pub open spec fn rsa_pem_accepted(pem: Seq<u8>) -> bool {
    rsa_pem_key(pem) is Some
}

/// The key that `jsonwebtoken` makes of a shared secret.
pub uninterp spec fn secret_key(secret: Seq<u8>) -> DecodingKey;

/// Parses a PEM-encoded RSA public key with `DecodingKey::from_rsa_pem`.
///
/// Whether the bytes are accepted, and the key that is read from them, depend
/// on the bytes alone; that is all the contract says.
#[verifier::external_body]
fn rsa_key_from_pem(pem: &[u8]) -> (r: Result<DecodingKey, jsonwebtoken::errors::Error>)
    ensures
        (r is Ok) == (rsa_pem_key(pem@) is Some),
        r matches Ok(key) ==> rsa_pem_key(pem@) == Some(key),
{
    DecodingKey::from_rsa_pem(pem)
}

/// The key of the empty secret: the key of a setup that checks no signature.
pub open spec fn empty_secret_key() -> DecodingKey {
    secret_key(Seq::empty())
}

/// The key of a shared secret, from `DecodingKey::from_secret`, which copies
/// the bytes.
#[verifier::external_body]
fn hmac_key(secret: &[u8]) -> (key: DecodingKey)
    ensures
        key == secret_key(secret@),
{
    DecodingKey::from_secret(secret)
}

/// The policy that settings of the decoder carry: the one algorithm, the
/// leeway, the three checks, the accepted audiences and issuers that the
/// settings were built with, and whether the signature check is on.
pub uninterp spec fn settings_policy(settings: Validation) -> ValidationPolicyView;

/// Whether `jsonwebtoken::decode` may give this for a token, a key and settings
/// that carry this policy: the claim set as JSON text where it accepts the
/// token, no claims where it refuses it. Which of the two it gives depends on
/// the moment too, so this is no function of the three.
pub uninterp spec fn decoder_may_give(
    token: Seq<char>,
    key: DecodingKey,
    policy: ValidationPolicyView,
    claims: Option<Seq<char>>,
) -> bool;

/// Builds the settings that `jsonwebtoken::decode` takes, with `Validation::new`
/// for the policy's algorithm and with the policy's leeway, its three checks and
/// its accepted audiences and issuers in the fields of that name. The signature
/// check is left on, as `Validation::new` has it.
#[verifier::external_body]
fn validation_of(policy: &ValidationPolicy) -> (settings: Validation)
    ensures
        settings_policy(settings) == (ValidationPolicyView { verify_signature: true, ..policy@ }),
{
    let mut validation = Validation::new(match policy.algorithm {
        crate::policy::Algorithm::HS256 => jsonwebtoken::Algorithm::HS256,
        crate::policy::Algorithm::RS256 => jsonwebtoken::Algorithm::RS256,
    });
    validation.leeway = policy.leeway;
    validation.validate_exp = policy.validate_exp;
    validation.validate_nbf = policy.validate_nbf;
    validation.validate_aud = policy.validate_aud;
    validation.aud = policy.audience.as_ref().map(|a| a.iter().cloned().collect());
    validation.iss = policy.issuer.as_ref().map(|i| i.iter().cloned().collect());
    validation
}

/// The same settings with the signature check switched off, by
/// `Validation::insecure_disable_signature_validation`.
#[verifier::external_body]
fn without_signature_check(validation: Validation) -> (settings: Validation)
    ensures
        settings_policy(settings) == (ValidationPolicyView {
            verify_signature: false,
            ..settings_policy(validation)
        }),
{
    let mut unchecked = validation;
    unchecked.insecure_disable_signature_validation();
    unchecked
}

/// The decoder's settings for a policy: they carry that policy, the signature
/// check included.
fn settings_for(policy: &ValidationPolicy) -> (settings: Validation)
    ensures
        settings_policy(settings) == policy@,
{
    let validation = validation_of(policy);
    if policy.verify_signature {
        validation
    } else {
        without_signature_check(validation)
    }
}

/// The claim set that a token carries in its payload, as the JSON text that
/// `serde_json` prints for it. It says nothing of a text that is no token.
pub uninterp spec fn token_claims(token: Seq<char>) -> Seq<char>;

/// The member of the given name in a claim set that is given as JSON text; no
/// member where the text is no JSON.
pub uninterp spec fn json_member(claims: Seq<char>, name: Seq<char>) -> RawClaimView;

/// Decodes a token with `jsonwebtoken::decode` and hands back its claim set as
/// JSON text.
///
/// Whether the token is accepted depends on the token, the key, the settings
/// and the current time. So the contract names no result: it says that the
/// outcome is one that the decoder may give for this token, this key and the
/// policy that these settings carry. The claim set of a token that is accepted
/// is read from the token's payload and from nothing else.
///
/// `decode` subtracts the leeway from the current time in unsigned seconds, so
/// the leeway must not exceed the clock: the limit is a moment long past.
#[verifier::external_body]
fn jwt_decode(token: &str, key: &DecodingKey, validation: &Validation) -> (decoded: Result<
    String,
    jsonwebtoken::errors::Error,
>)
    requires
        settings_policy(*validation).wf(),
    ensures
        decoder_may_give(token@, *key, settings_policy(*validation), match decoded {
            Ok(claims) => Some(claims@),
            Err(_) => None,
        }),
        decoded matches Ok(claims) ==> claims@ == token_claims(token@),
{
    jsonwebtoken::decode::<serde_json::Value>(token, key, validation).map(|data| data.claims.to_string())
}

/// The member of a claim set with the given name: the text is read with
/// `serde_json::from_str` and the member taken with `Value::get`, told apart by
/// its JSON type, a number kept only where `as_i64` gives one.
#[verifier::external_body]
fn claim_of(claims: &str, name: &str) -> (claim: RawClaim)
    ensures
        claim@ == json_member(claims@, name@),
{
    match serde_json::from_str::<serde_json::Value>(claims).ok().as_ref().and_then(|all| all.get(name)) {
        None => RawClaim::Absent,
        Some(serde_json::Value::Null) => RawClaim::Null,
        Some(serde_json::Value::Number(n)) => match n.as_i64() {
            Some(i) => RawClaim::Integer(i),
            None => RawClaim::Other,
        },
        Some(serde_json::Value::String(s)) => RawClaim::Text(s.clone()),
        Some(_) => RawClaim::Other,
    }
}

/// The message of a `jsonwebtoken` error, as its `Display` gives it.
#[verifier::external_body]
fn error_text(error: &jsonwebtoken::errors::Error) -> String {
    error.to_string()
}

/// What a decoding attempt gave, before the claims are read: the three members
/// that the reader needs, or the decoder's message.
pub enum Decoded {
    Claims { first: RawClaim, second: RawClaim, third: RawClaim },
    Refused { detail: String },
}

/// The detail that is reported for a claim that does not fit.
pub open spec fn fault_detail(fault: ClaimFault) -> Seq<char> {
    "invalid or missing claim: "@ + fault.claim_name()
}

/// The detail that is reported for a claim that does not fit.
pub fn fault_text(fault: ClaimFault) -> (r: String)
    ensures
        r@ == fault_detail(fault),
{
    let mut out = String::from_str("invalid or missing claim: ");
    out.append(fault.name());
    out
}

/// What a `Decoded` holds, as plain values.
pub enum DecodedView {
    Claims { first: RawClaimView, second: RawClaimView, third: RawClaimView },
    Refused { detail: Seq<char> },
}

impl View for Decoded {
    type V = DecodedView;

    open spec fn view(&self) -> DecodedView {
        match *self {
            Decoded::Claims { first, second, third } => DecodedView::Claims {
                first: first@,
                second: second@,
                third: third@,
            },
            Decoded::Refused { detail } => DecodedView::Refused { detail: detail@ },
        }
    }
}

/// The view of an outcome whose value is an `IdTokenPayload`.
pub open spec fn id_outcome(r: Result<IdTokenPayload, SsoError>) -> Result<
    IdTokenPayloadView,
    SsoErrorView,
> {
    match r {
        Ok(p) => Ok(p@),
        Err(e) => Err(e@),
    }
}

/// The view of an outcome whose value is a `BasicTokenPayload`.
pub open spec fn basic_outcome(r: Result<BasicTokenPayload, SsoError>) -> Result<
    BasicTokenPayload,
    SsoErrorView,
> {
    match r {
        Ok(p) => Ok(p),
        Err(e) => Err(e@),
    }
}

/// What decoding an identity token comes to, given what the decoder handed back
/// for `exp`, `email` and `nonce`: the claims where they fit, else a failure
/// with the decoder's message or the name of the claim that does not fit.
pub open spec fn id_token_outcome(decoded: DecodedView) -> Result<
    IdTokenPayloadView,
    SsoErrorView,
> {
    match decoded {
        DecodedView::Claims { first, second, third } => match id_token_claims(first, second, third) {
            Ok(p) => Ok(p),
            Err(fault) => Err(SsoErrorView::IdTokenDecode(fault_detail(fault))),
        },
        DecodedView::Refused { detail } => Err(SsoErrorView::IdTokenDecode(detail)),
    }
}

/// What decoding an access or refresh token comes to, given what the decoder
/// handed back for `iat`, `nbf` and `exp`.
pub open spec fn basic_token_outcome(token_name: Seq<char>, decoded: DecodedView) -> Result<
    BasicTokenPayload,
    SsoErrorView,
> {
    match decoded {
        DecodedView::Claims { first, second, third } => match basic_token_claims(
            first,
            second,
            third,
        ) {
            Ok(p) => Ok(p),
            Err(fault) => Err(
                SsoErrorView::TokenDecode { token_name, detail: fault_detail(fault) },
            ),
        },
        DecodedView::Refused { detail } => Err(SsoErrorView::TokenDecode { token_name, detail }),
    }
}

/// Reads the identity-token claims out of what the decoder handed back.
pub fn id_token_result(decoded: Decoded) -> (r: Result<IdTokenPayload, SsoError>)
    ensures
        id_outcome(r) == id_token_outcome(decoded@),
{
    match decoded {
        Decoded::Claims { first, second, third } => {
            let reading = IdTokenPayload::from_claims(first, second, third);
            match reading {
                Ok(p) => Ok(p),
                Err(fault) => Err(SsoError::IdTokenDecode(fault_text(fault))),
            }
        },
        Decoded::Refused { detail } => Err(SsoError::IdTokenDecode(detail)),
    }
}

/// Reads the access- or refresh-token claims out of what the decoder handed back.
pub fn basic_token_result(token_name: &str, decoded: Decoded) -> (r: Result<
    BasicTokenPayload,
    SsoError,
>)
    ensures
        basic_outcome(r) == basic_token_outcome(token_name@, decoded@),
{
    match decoded {
        Decoded::Claims { first, second, third } => {
            match BasicTokenPayload::from_claims(first, second, third) {
                Ok(p) => Ok(p),
                Err(fault) => Err(
                    SsoError::TokenDecode {
                        token_name: String::from_str(token_name),
                        detail: fault_text(fault),
                    },
                ),
            }
        },
        Decoded::Refused { detail } => Err(
            SsoError::TokenDecode { token_name: String::from_str(token_name), detail },
        ),
    }
}

/// What a token that the decoder accepts is read as, for three claim names: the
/// members of those names in the claim set that the token carries.
pub open spec fn accepted_reading(
    token: Seq<char>,
    first: Seq<char>,
    second: Seq<char>,
    third: Seq<char>,
) -> DecodedView {
    DecodedView::Claims {
        first: json_member(token_claims(token), first),
        second: json_member(token_claims(token), second),
        third: json_member(token_claims(token), third),
    }
}

/// What reading a token under a key and a policy comes to: the decoder was
/// handed the token, that key and settings that carry that policy; the reading
/// is claims exactly where the decoder gave some, and they are the members of
/// the three names in the claim set that the token carries.
pub open spec fn token_was_read(
    token: Seq<char>,
    key: DecodingKey,
    policy: ValidationPolicyView,
    first: Seq<char>,
    second: Seq<char>,
    third: Seq<char>,
    reading: DecodedView,
) -> bool {
    &&& exists|claims: Option<Seq<char>>| #[trigger]
        decoder_may_give(token, key, policy, claims) && (claims is Some <==> reading is Claims)
    &&& reading is Claims ==> reading == accepted_reading(token, first, second, third)
}

/// Decodes a token under a key and a policy and picks the three named members
/// of its claim set. Whether the token is accepted is the decoder's word, and
/// so is the message where it is refused.
fn read_token(
    token: &str,
    key: &DecodingKey,
    policy: &ValidationPolicy,
    first: &str,
    second: &str,
    third: &str,
) -> (r: Decoded)
    requires
        policy@.wf(),
    ensures
        token_was_read(token@, *key, policy@, first@, second@, third@, r@),
{
    let validation = settings_for(policy);
    match jwt_decode(token, key, &validation) {
        Ok(claims) => {
            assert(decoder_may_give(token@, *key, policy@, Some(claims@)));
            Decoded::Claims {
                first: claim_of(claims.as_str(), first),
                second: claim_of(claims.as_str(), second),
                third: claim_of(claims.as_str(), third),
            }
        },
        Err(error) => {
            assert(decoder_may_give(token@, *key, policy@, None));
            Decoded::Refused { detail: error_text(&error) }
        },
    }
}

/// The journal after what a diagnostic decode gave has been noted: longer by an
/// entry with the claims, where it gave some.
pub open spec fn claims_noted(
    before: Seq<NoticeView>,
    token_name: Seq<char>,
    claims: Option<Seq<char>>,
) -> Seq<NoticeView> {
    match claims {
        Some(text) => before.push(NoticeView::TokenClaims { token_name, claims: text }),
        None => before,
    }
}

/// Puts in the journal what a diagnostic decode gave: an entry with the claims
/// where it gave some, nothing where the token was refused once more.
pub fn note_claims(token_name: &str, claims: Option<String>, journal: &mut Vec<Notice>)
    ensures
        notices(final(journal)@) == claims_noted(
            notices(old(journal)@),
            token_name@,
            crate::text::opt_text(claims),
        ),
{
    match claims {
        Some(text) => {
            record(journal, Notice::TokenClaims { token_name: String::from_str(token_name), claims: text });
        },
        None => {},
    }
}

/// What the provider's key file gave at startup.
pub enum KeyFile {
    /// The file was not read.
    NotRead,
    /// The file could not be read; the text says why.
    Unreadable(String),
    /// The bytes of the file.
    Contents(Vec<u8>),
}

/// The keys and policies under which the provider's tokens are decoded.
///
/// The diagnostic key and policy never verify a signature, and what is read
/// with them only ever reaches the journal.
pub struct Decoding {
    key: DecodingKey,
    id_validation: ValidationPolicy,
    access_validation: ValidationPolicy,
    debug_key: DecodingKey,
    debug_validation: ValidationPolicy,
}

impl Decoding {
    #[verifier::type_invariant]
    spec fn inv(self) -> bool {
        &&& self.id_validation@.wf()
        &&& self.access_validation@.wf()
        &&& self.debug_validation@.wf()
        &&& !self.debug_validation@.verify_signature
    }

    /// The key that tokens are checked against.
    pub closed spec fn key(&self) -> DecodingKey {
        self.key
    }

    /// The policy for identity tokens.
    pub closed spec fn id_policy(&self) -> ValidationPolicyView {
        self.id_validation@
    }

    /// The policy for access and refresh tokens.
    pub closed spec fn access_policy(&self) -> ValidationPolicyView {
        self.access_validation@
    }

    /// The policy of the diagnostic decode.
    pub closed spec fn debug_policy(&self) -> ValidationPolicyView {
        self.debug_validation@
    }

    /// The key of the diagnostic decode.
    pub closed spec fn debug_key(&self) -> DecodingKey {
        self.debug_key
    }

    /// What decoding an identity token comes to: the token was read under the
    /// key and the identity-token policy, and the outcome is that of
    /// `id_token_outcome` for the reading.
    pub open spec fn id_token_decoded(
        &self,
        token: Seq<char>,
        outcome: Result<IdTokenPayloadView, SsoErrorView>,
    ) -> bool {
        exists|reading: DecodedView| #[trigger]
            token_was_read(
                token,
                self.key(),
                self.id_policy(),
                "exp"@,
                "email"@,
                "nonce"@,
                reading,
            ) && outcome == id_token_outcome(reading)
    }

    /// What decoding an access or refresh token comes to: the token was read
    /// under the key and the audience-relaxed policy, and the outcome is that of
    /// `basic_token_outcome` for the reading.
    pub open spec fn basic_token_decoded(
        &self,
        token_name: Seq<char>,
        token: Seq<char>,
        outcome: Result<BasicTokenPayload, SsoErrorView>,
    ) -> bool {
        exists|reading: DecodedView| #[trigger]
            token_was_read(
                token,
                self.key(),
                self.access_policy(),
                "iat"@,
                "nbf"@,
                "exp"@,
                reading,
            ) && outcome == basic_token_outcome(token_name, reading)
    }

    /// What a diagnostic decode comes to: the decoder was handed the token, the
    /// diagnostic key and settings that carry the diagnostic policy, and the
    /// journal is longer by the entry with the claims where it gave some, which
    /// are those that the token carries; else the journal is as before.
    pub open spec fn diagnosed(
        &self,
        before: Seq<NoticeView>,
        after: Seq<NoticeView>,
        token_name: Seq<char>,
        token: Seq<char>,
    ) -> bool {
        exists|claims: Option<Seq<char>>| #[trigger]
            decoder_may_give(token, self.debug_key(), self.debug_policy(), claims) && (
            claims matches Some(text) ==> text == token_claims(token)) && after == claims_noted(
                before,
                token_name,
                claims,
            )
    }

    /// Whether tokens are accepted on their signature: not so under the
    /// insecure fallback.
    pub fn is_strict(&self) -> (r: bool)
        ensures
            r == self.id_policy().is_strict(),
    {
        self.id_validation.verify_signature
    }

    /// From a key and the policy for identity tokens: access and refresh tokens
    /// are read under the same policy without the audience check, diagnostics
    /// under the insecure policy without the audience check.
    pub fn new(key: DecodingKey, validation: ValidationPolicy, client_id: &String) -> (r: Decoding)
        requires
            validation@.wf(),
        ensures
            r.key() == key,
            r.id_policy() == validation@,
            r.access_policy() == validation@.audience_relaxed(),
            r.debug_policy() == insecure_policy(client_id@).audience_relaxed(),
            r.debug_key() == empty_secret_key(),
    {
        let access_validation = validation.audience_relaxed();
        let debug_validation = insecure_validation(client_id).audience_relaxed();
        let no_secret: Vec<u8> = Vec::new();
        Decoding {
            key,
            id_validation: validation,
            access_validation,
            debug_key: hmac_key(no_secret.as_slice()),
            debug_validation,
        }
    }

    /// Decodes the identity token of a token response under the key and the
    /// identity-token policy. An absent token is a failure of its own. A token
    /// that is refused is decoded once more for the journal, under the
    /// diagnostic key and policy, and is still refused.
    ///
    /// Claims that come back are those that the token carries as `exp`, `email`
    /// and `nonce`.
    pub fn decode_id_token(&self, token: Option<&String>, journal: &mut Vec<Notice>) -> (r: Result<
        IdTokenPayload,
        SsoError,
    >)
        ensures
            token is None ==> id_outcome(r) == Err::<IdTokenPayloadView, SsoErrorView>(
                SsoErrorView::MissingIdToken,
            ) && notices(final(journal)@) == notices(old(journal)@),
            r is Ok ==> token is Some && notices(final(journal)@) == notices(old(journal)@),
            token is Some && r is Err ==> r->Err_0@ is IdTokenDecode,
            token matches Some(text) ==> (r is Ok ==> id_outcome(r) == id_token_outcome(
                accepted_reading(text@, "exp"@, "email"@, "nonce"@),
            )),
            token matches Some(text) ==> self.id_token_decoded(text@, id_outcome(r)),
            token matches Some(text) ==> (r is Err ==> self.diagnosed(
                notices(old(journal)@),
                notices(final(journal)@),
                "identity_token"@,
                text@,
            )),
    {
        proof {
            use_type_invariant(self);
        }
        let text = match token {
            None => { return Err(SsoError::MissingIdToken); },
            Some(t) => t,
        };
        let decoded = read_token(text.as_str(), &self.key, &self.id_validation, "exp", "email", "nonce");
        let ghost reading = decoded@;
        let result = id_token_result(decoded);
        assert(token_was_read(
            text@,
            self.key(),
            self.id_policy(),
            "exp"@,
            "email"@,
            "nonce"@,
            reading,
        ));
        if result.is_err() {
            self.log_decode_debug("identity_token", text.as_str(), journal);
        }
        result
    }

    /// Decodes an access or refresh token under the key and the audience-relaxed
    /// policy. A token that is refused is decoded once more for the journal,
    /// under the diagnostic key and policy, and is still refused.
    ///
    /// Claims that come back are those that the token carries as `iat`, `nbf`
    /// and `exp`. A failure is a decoding failure of the named token: the
    /// decoder refused the token, or one of the three claims does not fit.
    pub fn decode_basic_token(&self, token_name: &str, token: &str, journal: &mut Vec<Notice>) -> (r:
        Result<BasicTokenPayload, SsoError>)
        ensures
            self.basic_token_decoded(token_name@, token@, basic_outcome(r)),
            r is Ok ==> basic_outcome(r) == basic_token_outcome(
                token_name@,
                accepted_reading(token@, "iat"@, "nbf"@, "exp"@),
            ),
            r is Ok ==> notices(final(journal)@) == notices(old(journal)@),
            r matches Err(e) ==> (e@ matches SsoErrorView::TokenDecode { token_name: n, .. } && n
                == token_name@) && self.diagnosed(
                notices(old(journal)@),
                notices(final(journal)@),
                token_name@,
                token@,
            ),
    {
        proof {
            use_type_invariant(self);
        }
        let decoded = read_token(token, &self.key, &self.access_validation, "iat", "nbf", "exp");
        let ghost reading = decoded@;
        let result = basic_token_result(token_name, decoded);
        assert(token_was_read(
            token@,
            self.key(),
            self.access_policy(),
            "iat"@,
            "nbf"@,
            "exp"@,
            reading,
        ));
        if result.is_err() {
            self.log_decode_debug(token_name, token, journal);
        }
        result
    }

    /// Decodes a token under the diagnostic key and policy, which check neither
    /// its signature nor its audience, and puts its claims in the journal.
    /// Nothing else comes of it: the claims are not handed back.
    ///
    /// Whether the token decodes is the decoder's word. Where it does, the
    /// entry holds the claims that the token carries.
    pub fn log_decode_debug(&self, token_name: &str, token: &str, journal: &mut Vec<Notice>)
        ensures
            self.diagnosed(
                notices(old(journal)@),
                notices(final(journal)@),
                token_name@,
                token@,
            ),
    {
        proof {
            use_type_invariant(self);
        }
        let validation = settings_for(&self.debug_validation);
        let claims = match jwt_decode(token, &self.debug_key, &validation) {
            Ok(text) => Some(text),
            Err(_) => None,
        };
        assert(decoder_may_give(
            token@,
            self.debug_key(),
            self.debug_policy(),
            crate::text::opt_text(claims),
        ));
        note_claims(token_name, claims, journal);
    }
}

/// The decoding setup for a key, or for none: with a key the strict policy, with
/// none the insecure policy and the key of the empty secret.
pub fn prepare_decoding(config: &SsoConfig, key: Option<DecodingKey>) -> (r: Decoding)
    ensures
        key matches Some(k) ==> r.key() == k && r.id_policy() == strict_policy(
            config.client_id@,
            config.authority@,
        ),
        key is None ==> r.key() == empty_secret_key() && r.id_policy() == insecure_policy(
            config.client_id@,
        ),
        r.access_policy() == r.id_policy().audience_relaxed(),
        r.debug_policy() == insecure_policy(config.client_id@).audience_relaxed(),
        r.debug_key() == empty_secret_key(),
{
    match key {
        Some(k) => Decoding::new(
            k,
            strict_validation(&config.client_id, &config.authority),
            &config.client_id,
        ),
        None => {
            let no_secret: Vec<u8> = Vec::new();
            Decoding::new(
                hmac_key(no_secret.as_slice()),
                insecure_validation(&config.client_id),
                &config.client_id,
            )
        },
    }
}

/// Whether startup must fail: single sign-on is on and the key file is there,
/// but is no PEM-encoded RSA public key.
pub open spec fn key_rejected(config: &SsoConfig, key_file: &KeyFile) -> bool {
    config.enabled && (key_file matches KeyFile::Contents(bytes) && !rsa_pem_accepted(bytes@))
}

/// Whether the strict policy applies: single sign-on is on and the key file was
/// read.
pub open spec fn key_present(config: &SsoConfig, key_file: &KeyFile) -> bool {
    config.enabled && key_file is Contents
}

/// Builds the decoding setup at startup from what the key file gave.
///
/// With single sign-on off the key file is not looked at. A file that could not
/// be read is noted in the journal, and tokens are then read without a signature
/// check. A file that was read and is no key is a failure: the process must not
/// start on a trust anchor that it cannot parse.
pub fn pre_load_sso_jwt_validation(
    config: &SsoConfig,
    key_file: &KeyFile,
    journal: &mut Vec<Notice>,
) -> (r: Result<Decoding, SsoError>)
    ensures
        r is Err <==> key_rejected(config, key_file),
        r matches Err(e) ==> e@ is InvalidKey,
        r matches Ok(d) ==> {
            &&& d.key() == if key_present(config, key_file) {
                rsa_pem_key(key_file->Contents_0@)->Some_0
            } else {
                empty_secret_key()
            }
            &&& d.id_policy() == if key_present(config, key_file) {
                strict_policy(config.client_id@, config.authority@)
            } else {
                insecure_policy(config.client_id@)
            }
            &&& d.access_policy() == d.id_policy().audience_relaxed()
            &&& d.debug_policy() == insecure_policy(config.client_id@).audience_relaxed()
            &&& d.debug_key() == empty_secret_key()
        },
        notices(final(journal)@) == if config.enabled && key_file is Unreadable {
            notices(old(journal)@).push(
                NoticeView::KeyFileUnreadable {
                    path: config.key_filepath@,
                    detail: key_file->Unreadable_0@,
                },
            )
        } else {
            notices(old(journal)@)
        },
{
    if !config.key_file_wanted() {
        return Ok(prepare_decoding(config, None));
    }
    match key_file {
        KeyFile::NotRead => Ok(prepare_decoding(config, None)),
        KeyFile::Unreadable(detail) => {
            let notice = Notice::KeyFileUnreadable {
                path: copy_text(&config.key_filepath),
                detail: copy_text(detail),
            };
            record(journal, notice);
            Ok(prepare_decoding(config, None))
        },
        KeyFile::Contents(bytes) => match rsa_key_from_pem(bytes.as_slice()) {
            Ok(key) => Ok(prepare_decoding(config, Some(key))),
            Err(error) => Err(SsoError::InvalidKey(error_text(&error))),
        },
    }
}

} // verus!
