//! Exchange-rate rules: which currency pairs are quoted, when a cached
//! rate may be reused, and which currencies the rate board lists.
//!
//! The rates themselves are floating-point values kept by the caller.

use vstd::prelude::*;
use crate::db::error::DbError;
use crate::utils::text::{join4, str_equal};

verus! {

/// A currency pair with a quoted rate.
#[derive(Debug, Clone, Copy, PartialEq, Eq, Structural)]
pub enum QuotedPair {
    UsdEur,
    EurUsd,
    UsdGbp,
    GbpUsd,
    UsdInr,
    InrUsd,
    EurInr,
    InrEur,
    GbpInr,
    InrGbp,
}

/// The (base, target) currencies of a quoted pair.
pub open spec fn pair_currencies(p: QuotedPair) -> (Seq<char>, Seq<char>) {
    match p {
        QuotedPair::UsdEur => ("USD"@, "EUR"@),
        QuotedPair::EurUsd => ("EUR"@, "USD"@),
        QuotedPair::UsdGbp => ("USD"@, "GBP"@),
        QuotedPair::GbpUsd => ("GBP"@, "USD"@),
        QuotedPair::UsdInr => ("USD"@, "INR"@),
        QuotedPair::InrUsd => ("INR"@, "USD"@),
        QuotedPair::EurInr => ("EUR"@, "INR"@),
        QuotedPair::InrEur => ("INR"@, "EUR"@),
        QuotedPair::GbpInr => ("GBP"@, "INR"@),
        QuotedPair::InrGbp => ("INR"@, "GBP"@),
    }
}

/// Whether some quoted pair converts `from` into `to`.
pub open spec fn is_quoted(from: Seq<char>, to: Seq<char>) -> bool {
    exists|p: QuotedPair| #[trigger] pair_currencies(p) == (from, to)
}

/// The quoted pair converting `from` into `to`, if there is one.
pub fn quoted_pair(from: &str, to: &str) -> (r: Option<QuotedPair>)
    ensures
        match r {
            Some(p) => pair_currencies(p) == (from@, to@),
            None => !is_quoted(from@, to@),
        },
{
    let usd_from = str_equal(from, "USD");
    let eur_from = str_equal(from, "EUR");
    let gbp_from = str_equal(from, "GBP");
    let inr_from = str_equal(from, "INR");
    let usd_to = str_equal(to, "USD");
    let eur_to = str_equal(to, "EUR");
    let gbp_to = str_equal(to, "GBP");
    let inr_to = str_equal(to, "INR");
    if usd_from && eur_to {
        Some(QuotedPair::UsdEur)
    } else if eur_from && usd_to {
        Some(QuotedPair::EurUsd)
    } else if usd_from && gbp_to {
        Some(QuotedPair::UsdGbp)
    } else if gbp_from && usd_to {
        Some(QuotedPair::GbpUsd)
    } else if usd_from && inr_to {
        Some(QuotedPair::UsdInr)
    } else if inr_from && usd_to {
        Some(QuotedPair::InrUsd)
    } else if eur_from && inr_to {
        Some(QuotedPair::EurInr)
    } else if inr_from && eur_to {
        Some(QuotedPair::InrEur)
    } else if gbp_from && inr_to {
        Some(QuotedPair::GbpInr)
    } else if inr_from && gbp_to {
        Some(QuotedPair::InrGbp)
    } else {
        proof {
            assert forall|p: QuotedPair| #[trigger] pair_currencies(p) != (from@, to@) by {
                match p {
                    QuotedPair::UsdEur => {},
                    QuotedPair::EurUsd => {},
                    QuotedPair::UsdGbp => {},
                    QuotedPair::GbpUsd => {},
                    QuotedPair::UsdInr => {},
                    QuotedPair::InrUsd => {},
                    QuotedPair::EurInr => {},
                    QuotedPair::InrEur => {},
                    QuotedPair::GbpInr => {},
                    QuotedPair::InrGbp => {},
                }
            }
        }
        None
    }
}

/// The error for a pair without a quoted rate.
pub fn rate_not_found(from: &str, to: &str) -> (e: DbError)
    ensures
        e matches DbError::Custom(m) && m@ == "Exchange rate not found for currency pair: "@ + from@ + " to "@ + to@,
{
    DbError::Custom(join4("Exchange rate not found for currency pair: ", from, " to ", to))
}

/// How long a cached rate may be reused, in seconds (six hours).
pub open spec fn rate_ttl_seconds() -> int {
    21600
}

/// Whether a cached rate of the given age (whole seconds, as
/// `num_seconds` of the elapsed time gives it) may still be used.
pub fn is_cached_rate_fresh(age_seconds: i64) -> (r: bool)
    ensures
        r == (age_seconds < rate_ttl_seconds()),
{
    age_seconds < 21600
}

/// Whether converting between two currencies is the identity (rate 1).
pub fn is_identity_conversion(from: &str, to: &str) -> (r: bool)
    ensures
        r == (from@ == to@),
{
    str_equal(from, to)
}

/// The currencies the rate board lists against a base currency.
pub open spec fn rate_board() -> Seq<Seq<char>> {
    seq!["USD"@, "EUR"@, "GBP"@, "JPY"@, "AUD"@, "CAD"@, "CHF"@, "INR"@, "SGD"@, "AED"@]
}

/// The currencies the rate board lists, in display order.
pub fn rate_board_currencies() -> (v: Vec<&'static str>)
    ensures
        v@.map_values(|c: &'static str| c@) == rate_board(),
{
    let mut v: Vec<&'static str> = Vec::new();
    v.push("USD");
    v.push("EUR");
    v.push("GBP");
    v.push("JPY");
    v.push("AUD");
    v.push("CAD");
    v.push("CHF");
    v.push("INR");
    v.push("SGD");
    v.push("AED");
    assert(v@.map_values(|c: &'static str| c@) =~= rate_board());
    v
}


/// The pair used to convert `from` into `to` quotes `from` as its base and
/// `to` as its target: converting EUR into INR uses the EUR->INR quote,
/// never the INR->EUR one, and likewise for every quoted direction.
pub proof fn quote_follows_the_direction(from: Seq<char>, to: Seq<char>, p: QuotedPair)
    requires
        pair_currencies(p) == (from, to),
    ensures
        (from == "USD"@ && to == "EUR"@) <==> p == QuotedPair::UsdEur,
        (from == "EUR"@ && to == "USD"@) <==> p == QuotedPair::EurUsd,
        (from == "USD"@ && to == "GBP"@) <==> p == QuotedPair::UsdGbp,
        (from == "GBP"@ && to == "USD"@) <==> p == QuotedPair::GbpUsd,
        (from == "USD"@ && to == "INR"@) <==> p == QuotedPair::UsdInr,
        (from == "INR"@ && to == "USD"@) <==> p == QuotedPair::InrUsd,
        (from == "EUR"@ && to == "INR"@) <==> p == QuotedPair::EurInr,
        (from == "INR"@ && to == "EUR"@) <==> p == QuotedPair::InrEur,
        (from == "GBP"@ && to == "INR"@) <==> p == QuotedPair::GbpInr,
        (from == "INR"@ && to == "GBP"@) <==> p == QuotedPair::InrGbp,
{
    reveal_strlit("USD");
    reveal_strlit("EUR");
    reveal_strlit("GBP");
    reveal_strlit("INR");
    assert("USD"@ != "EUR"@) by {
        assert("USD"@[0] != "EUR"@[0]);
    }
    assert("USD"@ != "GBP"@) by {
        assert("USD"@[0] != "GBP"@[0]);
    }
    assert("USD"@ != "INR"@) by {
        assert("USD"@[0] != "INR"@[0]);
    }
    assert("EUR"@ != "GBP"@) by {
        assert("EUR"@[0] != "GBP"@[0]);
    }
    assert("EUR"@ != "INR"@) by {
        assert("EUR"@[0] != "INR"@[0]);
    }
    assert("GBP"@ != "INR"@) by {
        assert("GBP"@[0] != "INR"@[0]);
    }
}

/// A conversion is quoted exactly for the ten directions between USD, EUR,
/// GBP and INR other than GBP<->EUR.
pub proof fn quoted_directions(from: Seq<char>, to: Seq<char>)
    ensures
        is_quoted(from, to) <==> ((from == "USD"@ && to == "EUR"@) || (from == "EUR"@ && to == "USD"@) || (from == "USD"@ && to == "GBP"@) || (from == "GBP"@ && to == "USD"@) || (from == "USD"@ && to == "INR"@) || (from == "INR"@ && to == "USD"@) || (from == "EUR"@ && to == "INR"@) || (from == "INR"@ && to == "EUR"@) || (from == "GBP"@ && to == "INR"@) || (from == "INR"@ && to == "GBP"@)),
{
    reveal_strlit("USD");
    reveal_strlit("EUR");
    reveal_strlit("GBP");
    reveal_strlit("INR");
    if is_quoted(from, to) {
        let p = choose|p: QuotedPair| #[trigger] pair_currencies(p) == (from, to);
        quote_follows_the_direction(from, to, p);
    }
    if from == "USD"@ && to == "EUR"@ {
        assert(pair_currencies(QuotedPair::UsdEur) == (from, to));
    }
    if from == "EUR"@ && to == "USD"@ {
        assert(pair_currencies(QuotedPair::EurUsd) == (from, to));
    }
    if from == "USD"@ && to == "GBP"@ {
        assert(pair_currencies(QuotedPair::UsdGbp) == (from, to));
    }
    if from == "GBP"@ && to == "USD"@ {
        assert(pair_currencies(QuotedPair::GbpUsd) == (from, to));
    }
    if from == "USD"@ && to == "INR"@ {
        assert(pair_currencies(QuotedPair::UsdInr) == (from, to));
    }
    if from == "INR"@ && to == "USD"@ {
        assert(pair_currencies(QuotedPair::InrUsd) == (from, to));
    }
    if from == "EUR"@ && to == "INR"@ {
        assert(pair_currencies(QuotedPair::EurInr) == (from, to));
    }
    if from == "INR"@ && to == "EUR"@ {
        assert(pair_currencies(QuotedPair::InrEur) == (from, to));
    }
    if from == "GBP"@ && to == "INR"@ {
        assert(pair_currencies(QuotedPair::GbpInr) == (from, to));
    }
    if from == "INR"@ && to == "GBP"@ {
        assert(pair_currencies(QuotedPair::InrGbp) == (from, to));
    }
}

} // verus!
