//! Currency to country mapping and cross-border detection.

use vstd::prelude::*;
use crate::utils::text::str_equal;

verus! {

/// The currency/country table: ISO 4217 code to ISO 3166-1 alpha-2 code.
pub open spec fn currency_country_table() -> Seq<(Seq<char>, Seq<char>)> {
    seq![
        (seq!['U', 'S', 'D'], seq!['U', 'S']),
        (seq!['E', 'U', 'R'], seq!['E', 'U']),
        (seq!['G', 'B', 'P'], seq!['G', 'B']),
        (seq!['I', 'N', 'R'], seq!['I', 'N']),
        (seq!['S', 'G', 'D'], seq!['S', 'G']),
        (seq!['A', 'E', 'D'], seq!['A', 'E']),
        (seq!['J', 'P', 'Y'], seq!['J', 'P']),
        (seq!['A', 'U', 'D'], seq!['A', 'U']),
        (seq!['C', 'A', 'D'], seq!['C', 'A']),
        (seq!['C', 'H', 'F'], seq!['C', 'H']),
    ]
}

/// The value stored under `key` in an association list (first match wins).
pub open spec fn lookup(entries: Seq<(Seq<char>, Seq<char>)>, key: Seq<char>) -> Option<Seq<char>>
    decreases entries.len(),
{
    if entries.len() == 0 {
        None
    } else if entries[0].0 == key {
        Some(entries[0].1)
    } else {
        lookup(entries.drop_first(), key)
    }
}

/// The primary country of a currency, if the currency is known.
pub open spec fn country_of(currency: Seq<char>) -> Option<Seq<char>> {
    lookup(currency_country_table(), currency)
}

/// Whether two currencies belong to different countries; an unknown
/// currency counts as cross-border.
pub open spec fn spec_is_cross_border_by_currency(from: Seq<char>, to: Seq<char>) -> bool {
    if from == to {
        false
    } else {
        match (country_of(from), country_of(to)) {
            (Some(a), Some(b)) => a != b,
            _ => true,
        }
    }
}

/// The views of a list of string pairs.
pub open spec fn pair_views(v: Seq<(&'static str, &'static str)>) -> Seq<(Seq<char>, Seq<char>)> {
    v.map_values(|p: (&'static str, &'static str)| (p.0@, p.1@))
}

/// Builds the currency to country table.
pub fn get_currency_country_mapping() -> (mapping: Vec<(&'static str, &'static str)>)
    ensures
        pair_views(mapping@) == currency_country_table(),
{
    let mut mapping: Vec<(&'static str, &'static str)> = Vec::new();
    mapping.push(("USD", "US"));
    mapping.push(("EUR", "EU"));
    mapping.push(("GBP", "GB"));
    mapping.push(("INR", "IN"));
    mapping.push(("SGD", "SG"));
    mapping.push(("AED", "AE"));
    mapping.push(("JPY", "JP"));
    mapping.push(("AUD", "AU"));
    mapping.push(("CAD", "CA"));
    mapping.push(("CHF", "CH"));
    proof {
        reveal_strlit("USD");
        assert("USD"@ =~= seq!['U', 'S', 'D']);
        reveal_strlit("US");
        assert("US"@ =~= seq!['U', 'S']);
        reveal_strlit("EUR");
        assert("EUR"@ =~= seq!['E', 'U', 'R']);
        reveal_strlit("EU");
        assert("EU"@ =~= seq!['E', 'U']);
        reveal_strlit("GBP");
        assert("GBP"@ =~= seq!['G', 'B', 'P']);
        reveal_strlit("GB");
        assert("GB"@ =~= seq!['G', 'B']);
        reveal_strlit("INR");
        assert("INR"@ =~= seq!['I', 'N', 'R']);
        reveal_strlit("IN");
        assert("IN"@ =~= seq!['I', 'N']);
        reveal_strlit("SGD");
        assert("SGD"@ =~= seq!['S', 'G', 'D']);
        reveal_strlit("SG");
        assert("SG"@ =~= seq!['S', 'G']);
        reveal_strlit("AED");
        assert("AED"@ =~= seq!['A', 'E', 'D']);
        reveal_strlit("AE");
        assert("AE"@ =~= seq!['A', 'E']);
        reveal_strlit("JPY");
        assert("JPY"@ =~= seq!['J', 'P', 'Y']);
        reveal_strlit("JP");
        assert("JP"@ =~= seq!['J', 'P']);
        reveal_strlit("AUD");
        assert("AUD"@ =~= seq!['A', 'U', 'D']);
        reveal_strlit("AU");
        assert("AU"@ =~= seq!['A', 'U']);
        reveal_strlit("CAD");
        assert("CAD"@ =~= seq!['C', 'A', 'D']);
        reveal_strlit("CA");
        assert("CA"@ =~= seq!['C', 'A']);
        reveal_strlit("CHF");
        assert("CHF"@ =~= seq!['C', 'H', 'F']);
        reveal_strlit("CH");
        assert("CH"@ =~= seq!['C', 'H']);
        assert(pair_views(mapping@) =~= currency_country_table());
    }
    mapping
}

proof fn lemma_lookup_skip(entries: Seq<(Seq<char>, Seq<char>)>, key: Seq<char>, i: int)
    requires
        0 <= i < entries.len(),
    ensures
        lookup(entries.skip(i), key) == if entries[i].0 == key {
            Some(entries[i].1)
        } else {
            lookup(entries.skip(i + 1), key)
        },
{
    assert(entries.skip(i)[0] == entries[i]);
    assert(entries.skip(i).drop_first() =~= entries.skip(i + 1));
}

/// Looks up the primary country of a currency.
pub fn get_country_for_currency(currency: &str) -> (country: Option<&'static str>)
    ensures
        match country {
            Some(c) => country_of(currency@) == Some(c@),
            None => country_of(currency@) is None,
        },
{
    let mapping = get_currency_country_mapping();
    let ghost table = pair_views(mapping@);
    let mut i: usize = 0;
    proof {
        assert(table.skip(0) =~= table);
    }
    while i < mapping.len()
        invariant
            0 <= i <= mapping.len(),
            table == pair_views(mapping@),
            table == currency_country_table(),
            lookup(table, currency@) == lookup(table.skip(i as int), currency@),
        decreases mapping.len() - i,
    {
        let (code, country) = mapping[i];
        proof {
            lemma_lookup_skip(table, currency@, i as int);
        }
        if str_equal(code, currency) {
            return Some(country);
        }
        i = i + 1;
    }
    proof {
        assert(table.skip(i as int).len() == 0);
    }
    None
}

/// Whether two currencies represent different countries or regions.
pub fn is_cross_border_by_currency(from_currency: &str, to_currency: &str) -> (r: bool)
    ensures
        r == spec_is_cross_border_by_currency(from_currency@, to_currency@),
{
    if str_equal(from_currency, to_currency) {
        return false;
    }
    let from_country = get_country_for_currency(from_currency);
    let to_country = get_country_for_currency(to_currency);
    match (from_country, to_country) {
        (Some(from), Some(to)) => !str_equal(from, to),
        _ => true,
    }
}


/// Each listed currency belongs to its issuing country (ISO 3166-1):
/// USD to US, EUR to EU, GBP to GB, INR to IN, SGD to SG, AED to AE, JPY to
/// JP, AUD to AU, CAD to CA and CHF to CH; any other currency has none.
pub proof fn currencies_belong_to_their_issuers(currency: Seq<char>)
    ensures
        country_of(currency) == {
            if currency == "USD"@ { Some("US"@) } else
            if currency == "EUR"@ { Some("EU"@) } else
            if currency == "GBP"@ { Some("GB"@) } else
            if currency == "INR"@ { Some("IN"@) } else
            if currency == "SGD"@ { Some("SG"@) } else
            if currency == "AED"@ { Some("AE"@) } else
            if currency == "JPY"@ { Some("JP"@) } else
            if currency == "AUD"@ { Some("AU"@) } else
            if currency == "CAD"@ { Some("CA"@) } else
            if currency == "CHF"@ { Some("CH"@) } else { None }
        },
{
    reveal_with_fuel(lookup, 11);
    reveal_strlit("USD");
    assert("USD"@ =~= seq!['U', 'S', 'D']);
    reveal_strlit("US");
    assert("US"@ =~= seq!['U', 'S']);
    reveal_strlit("EUR");
    assert("EUR"@ =~= seq!['E', 'U', 'R']);
    reveal_strlit("EU");
    assert("EU"@ =~= seq!['E', 'U']);
    reveal_strlit("GBP");
    assert("GBP"@ =~= seq!['G', 'B', 'P']);
    reveal_strlit("GB");
    assert("GB"@ =~= seq!['G', 'B']);
    reveal_strlit("INR");
    assert("INR"@ =~= seq!['I', 'N', 'R']);
    reveal_strlit("IN");
    assert("IN"@ =~= seq!['I', 'N']);
    reveal_strlit("SGD");
    assert("SGD"@ =~= seq!['S', 'G', 'D']);
    reveal_strlit("SG");
    assert("SG"@ =~= seq!['S', 'G']);
    reveal_strlit("AED");
    assert("AED"@ =~= seq!['A', 'E', 'D']);
    reveal_strlit("AE");
    assert("AE"@ =~= seq!['A', 'E']);
    reveal_strlit("JPY");
    assert("JPY"@ =~= seq!['J', 'P', 'Y']);
    reveal_strlit("JP");
    assert("JP"@ =~= seq!['J', 'P']);
    reveal_strlit("AUD");
    assert("AUD"@ =~= seq!['A', 'U', 'D']);
    reveal_strlit("AU");
    assert("AU"@ =~= seq!['A', 'U']);
    reveal_strlit("CAD");
    assert("CAD"@ =~= seq!['C', 'A', 'D']);
    reveal_strlit("CA");
    assert("CA"@ =~= seq!['C', 'A']);
    reveal_strlit("CHF");
    assert("CHF"@ =~= seq!['C', 'H', 'F']);
    reveal_strlit("CH");
    assert("CH"@ =~= seq!['C', 'H']);
}

} // verus!
