//! Cursor pagination: what the list endpoints share.
//!
//! A list request may name a cursor before or after which the page lies, and
//! a page size. The page size is kept between 1 and 1000.
use vstd::prelude::*;
use crate::clients::pairs_view;
use crate::text::{decimal, decimal_string, decimal_value, lemma_decimal_value};

verus! {

/// The smallest page size.
pub const MIN_LIMIT: u16 = 1;

/// The largest page size.
pub const MAX_LIMIT: u16 = 1000;

/// The page size nearest to `limit` among those from 1 to 1000.
pub open spec fn clamped(limit: u16) -> u16 {
    if limit < MIN_LIMIT {
        MIN_LIMIT
    } else if limit > MAX_LIMIT {
        MAX_LIMIT
    } else {
        limit
    }
}

/// Whether a page size, where one is set, lies between 1 and 1000.
pub open spec fn limit_in_range(limit: Option<u16>) -> bool {
    match limit {
        Some(l) => MIN_LIMIT <= l <= MAX_LIMIT,
        None => true,
    }
}

/// The page size nearest to `limit` among those from 1 to 1000.
pub fn clamp_limit(limit: u16) -> (r: u16)
    ensures
        r == clamped(limit),
        MIN_LIMIT <= r <= MAX_LIMIT,
        MIN_LIMIT <= limit <= MAX_LIMIT ==> r == limit,
{
    if limit < MIN_LIMIT {
        MIN_LIMIT
    } else if limit > MAX_LIMIT {
        MAX_LIMIT
    } else {
        limit
    }
}

/// The query parameter that a text field writes: its name and its value where
/// the field is set, nothing where it is not.
pub open spec fn text_parameter(name: Seq<char>, value: Option<String>) -> Seq<
    (Seq<char>, Seq<char>),
> {
    match value {
        Some(v) => seq![(name, v@)],
        None => Seq::empty(),
    }
}

/// The query parameter that the page size writes: `limit` and the decimal
/// numeral of the size where one is set, nothing where none is.
pub open spec fn limit_parameter(limit: Option<u16>) -> Seq<(Seq<char>, Seq<char>)> {
    match limit {
        Some(l) => seq![("limit"@, decimal(l as nat))],
        None => Seq::empty(),
    }
}

/// Writes a text field behind the parameters in `query`.
pub fn push_text_parameter(query: &mut Vec<(String, String)>, name: &str, value: &Option<String>)
    ensures
        pairs_view(final(query)@) == pairs_view(old(query)@) + text_parameter(name@, *value),
{
    match value {
        Some(v) => {
            query.push((name.to_owned(), v.clone()));
        },
        None => {},
    }
    assert(pairs_view(query@) =~= pairs_view(old(query)@) + text_parameter(name@, *value));
}

/// Writes the page size behind the parameters in `query`.
pub fn push_limit_parameter(query: &mut Vec<(String, String)>, limit: Option<u16>)
    ensures
        pairs_view(final(query)@) == pairs_view(old(query)@) + limit_parameter(limit),
{
    match limit {
        Some(l) => {
            query.push(("limit".to_owned(), decimal_string(l as u64)));
        },
        None => {},
    }
    assert(pairs_view(query@) =~= pairs_view(old(query)@) + limit_parameter(limit));
}

/// The page size that is written reads as the number that was set.
pub proof fn lemma_limit_parameter(limit: Option<u16>)
    ensures
        forall|i: int|
            0 <= i < limit_parameter(limit).len() ==> limit is Some && (
            #[trigger] limit_parameter(limit)[i]).0 == "limit"@ && decimal_value(
                limit_parameter(limit)[i].1,
            ) == limit->0,
{
    if let Some(l) = limit {
        lemma_decimal_value(l as nat);
    }
}

/// A text field named otherwise than `limit` writes no parameter of that
/// name.
pub proof fn lemma_text_parameter_is_no_limit(name: Seq<char>, value: Option<String>)
    requires
        name != "limit"@,
    ensures
        forall|i: int|
            0 <= i < text_parameter(name, value).len() ==> (#[trigger] text_parameter(
                name,
                value,
            )[i]).0 != "limit"@,
{
}

} // verus!
