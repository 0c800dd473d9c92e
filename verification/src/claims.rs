//! The claims that are read from the provider's tokens.

use vstd::prelude::*;
use crate::clock::{unix_now, CLOCK_LIMIT};
use crate::text::opt_text;

verus! {

/// One member of a token's claim set, as far as the flows read it.
#[derive(Clone, Debug)]
pub enum RawClaim {
    /// The claim set has no member of that name.
    Absent,
    /// The member is `null`.
    Null,
    /// The member is a whole number that fits in 64 signed bits.
    Integer(i64),
    /// The member is a string.
    Text(String),
    /// The member is anything else.
    Other,
}

/// What a `RawClaim` holds, as plain values.
pub enum RawClaimView {
    Absent,
    Null,
    Integer(i64),
    Text(Seq<char>),
    Other,
}

impl View for RawClaim {
    type V = RawClaimView;

    open spec fn view(&self) -> RawClaimView {
        match *self {
            RawClaim::Absent => RawClaimView::Absent,
            RawClaim::Null => RawClaimView::Null,
            RawClaim::Integer(i) => RawClaimView::Integer(i),
            RawClaim::Text(s) => RawClaimView::Text(s@),
            RawClaim::Other => RawClaimView::Other,
        }
    }
}

impl RawClaimView {
    /// A number that must be there.
    pub open spec fn required_integer(self) -> Option<i64> {
        match self {
            RawClaimView::Integer(i) => Some(i),
            _ => None,
        }
    }

    /// A number that may be missing or `null`; `None` where the member is
    /// something else.
    pub open spec fn optional_integer(self) -> Option<Option<i64>> {
        match self {
            RawClaimView::Absent => Some(None),
            RawClaimView::Null => Some(None),
            RawClaimView::Integer(i) => Some(Some(i)),
            _ => None,
        }
    }

    /// A string that must be there.
    pub open spec fn required_text(self) -> Option<Seq<char>> {
        match self {
            RawClaimView::Text(s) => Some(s),
            _ => None,
        }
    }

    /// A string that may be missing or `null`; `None` where the member is
    /// something else.
    pub open spec fn optional_text(self) -> Option<Option<Seq<char>>> {
        match self {
            RawClaimView::Absent => Some(None),
            RawClaimView::Null => Some(None),
            RawClaimView::Text(s) => Some(Some(s)),
            _ => None,
        }
    }
}

/// The claim that kept a claim set from being read.
#[derive(Clone, Copy, Debug, PartialEq, Eq, Structural)]
pub enum ClaimFault {
    Exp,
    Email,
    Nonce,
    Iat,
    Nbf,
}

impl ClaimFault {
    /// The name of the claim.
    pub open spec fn claim_name(self) -> Seq<char> {
        match self {
            ClaimFault::Exp => "exp"@,
            ClaimFault::Email => "email"@,
            ClaimFault::Nonce => "nonce"@,
            ClaimFault::Iat => "iat"@,
            ClaimFault::Nbf => "nbf"@,
        }
    }

    /// The name of the claim.
    pub fn name(&self) -> (r: &'static str)
        ensures
            r@ == self.claim_name(),
    {
        match self {
            ClaimFault::Exp => "exp",
            ClaimFault::Email => "email",
            ClaimFault::Nonce => "nonce",
            ClaimFault::Iat => "iat",
            ClaimFault::Nbf => "nbf",
        }
    }
}

/// What is read from an identity token: `{exp, email?, nonce}`.
#[derive(Clone, Debug)]
pub struct IdTokenPayload {
    pub exp: i64,
    pub email: Option<String>,
    pub nonce: String,
}

/// What an `IdTokenPayload` holds, as plain values.
pub struct IdTokenPayloadView {
    pub exp: i64,
    pub email: Option<Seq<char>>,
    pub nonce: Seq<char>,
}

impl View for IdTokenPayload {
    type V = IdTokenPayloadView;

    open spec fn view(&self) -> IdTokenPayloadView {
        IdTokenPayloadView { exp: self.exp, email: opt_text(self.email), nonce: self.nonce@ }
    }
}

/// The identity-token claims that three members give: `exp` must be a number and
/// `nonce` a string; `email` may be missing or `null`. The first member that does
/// not fit, in that order, is the fault.
pub open spec fn id_token_claims(
    exp: RawClaimView,
    email: RawClaimView,
    nonce: RawClaimView,
) -> Result<IdTokenPayloadView, ClaimFault> {
    if exp.required_integer() is None {
        Err(ClaimFault::Exp)
    } else if email.optional_text() is None {
        Err(ClaimFault::Email)
    } else if nonce.required_text() is None {
        Err(ClaimFault::Nonce)
    } else {
        Ok(
            IdTokenPayloadView {
                exp: exp.required_integer().unwrap(),
                email: email.optional_text().unwrap(),
                nonce: nonce.required_text().unwrap(),
            },
        )
    }
}

/// The view of a reading of identity-token claims.
pub open spec fn id_reading(r: Result<IdTokenPayload, ClaimFault>) -> Result<
    IdTokenPayloadView,
    ClaimFault,
> {
    match r {
        Ok(p) => Ok(p@),
        Err(f) => Err(f),
    }
}

impl IdTokenPayload {
    /// Reads the identity-token claims from the three members.
    pub fn from_claims(exp: RawClaim, email: RawClaim, nonce: RawClaim) -> (r: Result<
        IdTokenPayload,
        ClaimFault,
    >)
        ensures
            id_reading(r) == id_token_claims(exp@, email@, nonce@),
    {
        let exp_value: i64 = match exp {
            RawClaim::Integer(i) => i,
            _ => { return Err(ClaimFault::Exp); },
        };
        let email_value: Option<String> = match email {
            RawClaim::Absent => None,
            RawClaim::Null => None,
            RawClaim::Text(s) => Some(s),
            _ => { return Err(ClaimFault::Email); },
        };
        let nonce_value: String = match nonce {
            RawClaim::Text(s) => s,
            _ => { return Err(ClaimFault::Nonce); },
        };
        Ok(IdTokenPayload { exp: exp_value, email: email_value, nonce: nonce_value })
    }
}

/// What is read from an access or refresh token: `{iat?, nbf?, exp}`.
#[derive(Clone, Copy, Debug, PartialEq, Eq, Structural)]
pub struct BasicTokenPayload {
    pub iat: Option<i64>,
    pub nbf: Option<i64>,
    pub exp: i64,
}

/// The access- or refresh-token claims that three members give: `iat` and `nbf`
/// may be missing or `null`, `exp` must be a number. The first member that does
/// not fit, in that order, is the fault.
pub open spec fn basic_token_claims(
    iat: RawClaimView,
    nbf: RawClaimView,
    exp: RawClaimView,
) -> Result<BasicTokenPayload, ClaimFault> {
    if iat.optional_integer() is None {
        Err(ClaimFault::Iat)
    } else if nbf.optional_integer() is None {
        Err(ClaimFault::Nbf)
    } else if exp.required_integer() is None {
        Err(ClaimFault::Exp)
    } else {
        Ok(
            BasicTokenPayload {
                iat: iat.optional_integer().unwrap(),
                nbf: nbf.optional_integer().unwrap(),
                exp: exp.required_integer().unwrap(),
            },
        )
    }
}

impl BasicTokenPayload {
    /// Reads the access- or refresh-token claims from the three members.
    pub fn from_claims(iat: RawClaim, nbf: RawClaim, exp: RawClaim) -> (r: Result<
        BasicTokenPayload,
        ClaimFault,
    >)
        ensures
            r == basic_token_claims(iat@, nbf@, exp@),
    {
        let iat_value: Option<i64> = match iat {
            RawClaim::Absent => None,
            RawClaim::Null => None,
            RawClaim::Integer(i) => Some(i),
            _ => { return Err(ClaimFault::Iat); },
        };
        let nbf_value: Option<i64> = match nbf {
            RawClaim::Absent => None,
            RawClaim::Null => None,
            RawClaim::Integer(i) => Some(i),
            _ => { return Err(ClaimFault::Nbf); },
        };
        let exp_value: i64 = match exp {
            RawClaim::Integer(i) => i,
            _ => { return Err(ClaimFault::Exp); },
        };
        Ok(BasicTokenPayload { iat: iat_value, nbf: nbf_value, exp: exp_value })
    }

    /// The effective not-before at the time `now`: `nbf` where the token has
    /// one, else `iat` where it has one, else `now`.
    pub open spec fn effective_nbf(self, now: i64) -> i64 {
        match self.nbf {
            Some(t) => t,
            None => match self.iat {
                Some(t) => t,
                None => now,
            },
        }
    }

    /// Whether the token itself settles its not-before.
    pub open spec fn dated(self) -> bool {
        self.nbf is Some || self.iat is Some
    }

    /// The effective not-before, given the current time.
    pub fn nbf_at(&self, now: i64) -> (r: i64)
        ensures
            r == self.effective_nbf(now),
    {
        match self.nbf {
            Some(t) => t,
            None => match self.iat {
                Some(t) => t,
                None => now,
            },
        }
    }

    /// The effective not-before. The clock is read only where the token has
    /// neither `nbf` nor `iat`.
    pub fn nbf(&self) -> (r: i64)
        ensures
            self.nbf matches Some(t) ==> r == t,
            self.nbf is None ==> (self.iat matches Some(t) ==> r == t),
            !self.dated() ==> 0 <= r < CLOCK_LIMIT,
    {
        if self.nbf.is_some() || self.iat.is_some() {
            self.nbf_at(0)
        } else {
            let now: i64 = unix_now();
            self.nbf_at(now)
        }
    }
}

} // verus!
