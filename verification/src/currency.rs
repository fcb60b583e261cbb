//! Three-letter ISO currency codes, lowercase on the wire.
//!
//! The set of codes the remote API accepts grows over time, so the enum is
//! open: a code this crate does not know is carried through unchanged in the
//! `Unrecognized` variant instead of being rejected.

use crate::strutil::str_eq;
use vstd::prelude::*;

verus! {

/// A currency, identified by its lowercase ISO code.
pub enum Currency {
    AUD,
    CAD,
    EUR,
    GBP,
    JPY,
    USD,
    /// A code unknown to this crate, kept as the server or caller wrote it.
    Unrecognized(String),
}

impl Currency {
    /// The wire form of this currency.
    pub open spec fn code_view(&self) -> Seq<char> {
        match self {
            Currency::AUD => "aud"@,
            Currency::CAD => "cad"@,
            Currency::EUR => "eur"@,
            Currency::GBP => "gbp"@,
            Currency::JPY => "jpy"@,
            Currency::USD => "usd"@,
            Currency::Unrecognized(raw) => raw@,
        }
    }

    /// The lowercase code this currency travels as.
    pub fn code(&self) -> (r: String)
        ensures
            r@ == self.code_view(),
    {
        match self {
            Currency::AUD => "aud".to_owned(),
            Currency::CAD => "cad".to_owned(),
            Currency::EUR => "eur".to_owned(),
            Currency::GBP => "gbp".to_owned(),
            Currency::JPY => "jpy".to_owned(),
            Currency::USD => "usd".to_owned(),
            Currency::Unrecognized(raw) => raw.clone(),
        }
    }

    /// Whether a code names one of the variants this crate knows.
    pub open spec fn spec_known(s: Seq<char>) -> bool {
        s == "aud"@ || s == "cad"@ || s == "eur"@ || s == "gbp"@ || s == "jpy"@ || s == "usd"@
    }

    /// Reads a currency from its wire code; an unknown code becomes
    /// `Unrecognized` with the code kept verbatim.
    pub fn from_code(s: &str) -> (r: Currency)
        ensures
            s@ == "aud"@ ==> r == Currency::AUD,
            s@ == "cad"@ ==> r == Currency::CAD,
            s@ == "eur"@ ==> r == Currency::EUR,
            s@ == "gbp"@ ==> r == Currency::GBP,
            s@ == "jpy"@ ==> r == Currency::JPY,
            s@ == "usd"@ ==> r == Currency::USD,
            !Currency::spec_known(s@) ==> (r matches Currency::Unrecognized(raw) && raw@ == s@),
            r.code_view() == s@,
    {
        proof {
            reveal_strlit("aud");
            reveal_strlit("cad");
            reveal_strlit("eur");
            reveal_strlit("gbp");
            reveal_strlit("jpy");
            reveal_strlit("usd");
            assert("aud"@[0] == 'a' && "cad"@[0] == 'c' && "eur"@[0] == 'e' && "gbp"@[0] == 'g'
                && "jpy"@[0] == 'j' && "usd"@[0] == 'u');
        }
        if str_eq(s, "aud") {
            Currency::AUD
        } else if str_eq(s, "cad") {
            Currency::CAD
        } else if str_eq(s, "eur") {
            Currency::EUR
        } else if str_eq(s, "gbp") {
            Currency::GBP
        } else if str_eq(s, "jpy") {
            Currency::JPY
        } else if str_eq(s, "usd") {
            Currency::USD
        } else {
            Currency::Unrecognized(s.to_owned())
        }
    }
}

impl Clone for Currency {
    fn clone(&self) -> (r: Self)
        ensures
            r.code_view() == self.code_view(),
    {
        match self {
            Currency::AUD => Currency::AUD,
            Currency::CAD => Currency::CAD,
            Currency::EUR => Currency::EUR,
            Currency::GBP => Currency::GBP,
            Currency::JPY => Currency::JPY,
            Currency::USD => Currency::USD,
            Currency::Unrecognized(raw) => Currency::Unrecognized(raw.clone()),
        }
    }
}

} // verus!
