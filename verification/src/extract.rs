//! Extractors: typed values out of the path, the query string and the body
//! of a request. Each either yields its value or names the part it turned
//! down; none touches anything but its input.

use crate::json::{json_text_member, text_member, text_of};
use crate::model::{Item, Page, Rejection};
use crate::text::{find_char, find_from, is_text, parse_unsigned, parse_unsigned_spec};
use vstd::prelude::*;
use vstd::slice::slice_subrange;

verus! {

/// The largest item id and page number.
pub open spec fn small_max() -> nat {
    0xffff_ffff
}

/// The largest user id.
pub open spec fn large_max() -> nat {
    0xffff_ffff_ffff_ffff
}

/// The value of the first pair named `key` among the `&`-separated pairs of
/// `query` that start at or after `from`. A pair is a name, then `=`, then
/// the value; a pair without `=` has the empty value.
pub open spec fn query_value(query: Seq<char>, key: Seq<char>, from: int) -> Option<Seq<char>>
    decreases query.len() - from,
{
    if from < 0 || from > query.len() {
        None
    } else {
        let end = find_from(query, '&', from);
        let pair = query.subrange(from, end);
        let eq = find_from(pair, '=', 0);
        if pair.subrange(0, eq) == key {
            if eq < pair.len() {
                Some(pair.subrange(eq + 1, pair.len() as int))
            } else {
                Some(Seq::empty())
            }
        } else if end < from || end >= query.len() {
            None
        } else {
            query_value(query, key, end + 1)
        }
    }
}

/// The page number that a query string carries: the value of its first
/// `number` pair, read as an unsigned numeral of 32 bits.
pub open spec fn page_number(query: Seq<char>) -> Option<nat> {
    match query_value(query, "number"@, 0) {
        Some(v) => parse_unsigned_spec(v, small_max()),
        None => None,
    }
}

/// Reads a path segment as an item id.
pub fn extract_item_id(segment: &[char]) -> (r: Result<u32, Rejection>)
    ensures
        match r {
            Ok(id) => parse_unsigned_spec(segment@, small_max()) == Some(id as nat),
            Err(e) => e == Rejection::Path && parse_unsigned_spec(segment@, small_max()) is None,
        },
{
    match parse_unsigned(segment, 0xffff_ffff) {
        Some(v) => Ok(v as u32),
        None => Err(Rejection::Path),
    }
}

/// Reads a path segment as a user id.
pub fn extract_user_id(segment: &[char]) -> (r: Result<u64, Rejection>)
    ensures
        match r {
            Ok(id) => parse_unsigned_spec(segment@, large_max()) == Some(id as nat),
            Err(e) => e == Rejection::Path && parse_unsigned_spec(segment@, large_max()) is None,
        },
{
    match parse_unsigned(segment, 0xffff_ffff_ffff_ffff) {
        Some(v) => Ok(v),
        None => Err(Rejection::Path),
    }
}

/// Finds the value of the first pair named `key` in a query string.
pub fn find_query_value<'a>(query: &'a [char], key: &str) -> (r: Option<&'a [char]>)
    ensures
        match r {
            Some(v) => query_value(query@, key@, 0) == Some(v@),
            None => query_value(query@, key@, 0) is None,
        },
{
    let n: usize = query.len();
    let mut from: usize = 0;
    loop
        invariant
            n == query@.len(),
            from <= n,
            query_value(query@, key@, 0) == query_value(query@, key@, from as int),
        decreases n - from,
    {
        let end: usize = find_char(query, '&', from);
        let pair: &[char] = slice_subrange(query, from, end);
        let eq: usize = find_char(pair, '=', 0);
        if is_text(slice_subrange(pair, 0, eq), key) {
            if eq < pair.len() {
                return Some(slice_subrange(pair, eq + 1, pair.len()));
            } else {
                let empty: &[char] = slice_subrange(pair, eq, eq);
                assert(empty@ =~= Seq::<char>::empty());
                return Some(empty);
            }
        }
        if end >= n {
            return None;
        }
        from = end + 1;
    }
}

/// Reads the page parameters out of a query string.
pub fn extract_page(query: &[char]) -> (r: Result<Page, Rejection>)
    ensures
        match r {
            Ok(page) => page_number(query@) == Some(page.number as nat),
            Err(e) => e == Rejection::Query && page_number(query@) is None,
        },
{
    match find_query_value(query, "number") {
        None => Err(Rejection::Query),
        Some(v) => match parse_unsigned(v, 0xffff_ffff) {
            Some(number) => Ok(Page { number: number as u32 }),
            None => Err(Rejection::Query),
        },
    }
}

/// The item that a body gives, from the `title` member read out of it.
pub open spec fn item_title(member: Option<Seq<char>>) -> Result<Seq<char>, Rejection> {
    match member {
        Some(title) => Ok(title),
        None => Err(Rejection::Body),
    }
}

/// Builds the item from the `title` member of a body, where there was one.
pub fn item_from_member(member: Option<String>) -> (r: Result<Item, Rejection>)
    ensures
        match r {
            Ok(item) => item_title(text_of(member)) == Ok::<Seq<char>, Rejection>(item.title@),
            Err(e) => item_title(text_of(member)) == Err::<Seq<char>, Rejection>(e),
        },
{
    match member {
        Some(title) => Ok(Item { title }),
        None => Err(Rejection::Body),
    }
}

/// Reads a request body as an item: a JSON object with a text member
/// `title`.
pub fn extract_item(body: &[u8]) -> (r: Result<Item, Rejection>)
    ensures
        match r {
            Ok(item) => item_title(json_text_member(body@, "title"@)) == Ok::<
                Seq<char>,
                Rejection,
            >(item.title@),
            Err(e) => item_title(json_text_member(body@, "title"@)) == Err::<
                Seq<char>,
                Rejection,
            >(e),
        },
{
    item_from_member(text_member(body, "title"))
}

} // verus!
