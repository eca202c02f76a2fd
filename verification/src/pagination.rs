//! Paging through the trading-pair listing: reading the page that a query asks
//! for, and the cursors that lead to the next and the previous page.
use vstd::prelude::*;

use crate::decimal::{
    decimal_digits, law_numeral_round_trip, parse_unsigned, parse_usize, usize_to_decimal,
};

verus! {

/// Page size when the query names none.
pub const DEFAULT_PAGE_SIZE: usize = 25;

/// Largest page size a query can obtain.
pub const MAX_PAGE_SIZE: usize = 100;

/// The paging part of a listing request: `limit`, `cursor` and `offset`, each optional.
#[derive(Debug)]
pub struct PairsQuery {
    pub limit: Option<usize>,
    pub cursor: Option<String>,
    pub offset: Option<usize>,
}

impl Default for PairsQuery {
    fn default() -> (q: Self)
        ensures
            q.limit is None,
            q.cursor is None,
            q.offset is None,
    {
        PairsQuery { limit: None, cursor: None, offset: None }
    }
}

/// One page of a listing: at most `limit` items, starting after `offset` items.
#[derive(Debug)]
pub struct Page {
    pub limit: usize,
    pub offset: usize,
}

/// Errors that a request can be refused with.
#[derive(Debug)]
pub enum ApiError {
    /// The request is malformed; the text says how.
    Validation(String),
}

/// The text of the error for a cursor that is not a number.
pub open spec fn invalid_cursor_message() -> Seq<char> {
    "Invalid cursor; expected a numeric offset"@
}

/// `r` is the validation error for a cursor that is not a number.
pub open spec fn is_invalid_cursor_error(r: ApiError) -> bool {
    r matches ApiError::Validation(m) && m@ == invalid_cursor_message()
}

/// The page size for a requested `limit`: the default when none is asked for,
/// then held between 1 and `MAX_PAGE_SIZE`.
pub open spec fn page_limit(requested: Option<usize>) -> usize {
    let l = match requested {
        Some(l) => l,
        None => DEFAULT_PAGE_SIZE,
    };
    if l < 1 {
        1
    } else if l > MAX_PAGE_SIZE {
        MAX_PAGE_SIZE
    } else {
        l
    }
}

/// The offset that a cursor names, if it is a numeral that fits a `usize`.
pub open spec fn cursor_offset(cursor: Seq<char>) -> Option<nat> {
    parse_unsigned(cursor, usize::MAX as nat)
}

/// The page a query asks for, or `None` where its cursor is not a number.
/// A cursor takes precedence over an offset; with neither, the listing starts at 0.
pub open spec fn requested_page(q: PairsQuery) -> Option<Page> {
    let limit = page_limit(q.limit);
    match q.cursor {
        Some(c) => match cursor_offset(c@) {
            Some(o) => Some(Page { limit, offset: o as usize }),
            None => None,
        },
        None => Some(
            Page {
                limit,
                offset: match q.offset {
                    Some(o) => o,
                    None => 0,
                },
            },
        ),
    }
}

/// Reads a cursor: the offset it names, written in decimal.
pub fn parse_cursor(cursor: &str) -> (r: Result<usize, ApiError>)
    ensures
        r matches Ok(o) ==> cursor_offset(cursor@) == Some(o as nat),
        r matches Err(e) ==> cursor_offset(cursor@) is None && is_invalid_cursor_error(e),
{
    match parse_usize(cursor) {
        Some(o) => Ok(o),
        None => Err(
            ApiError::Validation(String::from_str("Invalid cursor; expected a numeric offset")),
        ),
    }
}

/// The page that `query` asks for; a cursor that is not a number is refused.
pub fn parse_page(query: &PairsQuery) -> (r: Result<Page, ApiError>)
    ensures
        requested_page(*query) matches Some(p) ==> (r matches Ok(page) && page == p),
        requested_page(*query) is None ==> (r matches Err(e) && is_invalid_cursor_error(e)),
        r matches Ok(page) ==> 1 <= page.limit <= MAX_PAGE_SIZE,
{
    let requested = match query.limit {
        Some(l) => l,
        None => DEFAULT_PAGE_SIZE,
    };
    let limit = if requested < 1 {
        1
    } else if requested > MAX_PAGE_SIZE {
        MAX_PAGE_SIZE
    } else {
        requested
    };
    let offset = match (&query.cursor, query.offset) {
        (Some(cursor), _) => parse_cursor(cursor.as_str())?,
        (None, Some(offset)) => offset,
        (None, None) => 0,
    };
    Ok(Page { limit, offset })
}

/// The offset of the next page, where items remain after this one.
pub open spec fn next_page_offset(offset: nat, page_size: nat, total: nat) -> Option<nat> {
    if offset + page_size < total {
        Some(offset + page_size)
    } else {
        None
    }
}

/// The offset of the previous page, where this page is not the first:
/// one `limit` back, and never below 0.
pub open spec fn prev_page_offset(offset: nat, limit: nat) -> Option<nat> {
    if offset > 0 {
        Some(
            if offset >= limit {
                (offset - limit) as nat
            } else {
                0
            },
        )
    } else {
        None
    }
}

/// The text of a cursor for a page offset.
pub open spec fn cursor_text(offset: Option<nat>) -> Option<Seq<char>> {
    match offset {
        Some(o) => Some(decimal_digits(o)),
        None => None,
    }
}

/// The text that an optional cursor holds.
pub open spec fn cursor_view(cursor: Option<String>) -> Option<Seq<char>> {
    match cursor {
        Some(c) => Some(c@),
        None => None,
    }
}

/// The cursors of the next and the previous page, for a page that starts at
/// `offset`, was asked for with `limit`, holds `page_size` items, out of `total`.
pub fn compute_cursors(offset: usize, limit: usize, page_size: usize, total: usize) -> (r: (
    Option<String>,
    Option<String>,
))
    requires
        offset + page_size <= usize::MAX,
    ensures
        cursor_view(r.0) == cursor_text(next_page_offset(offset as nat, page_size as nat, total as nat)),
        cursor_view(r.1) == cursor_text(prev_page_offset(offset as nat, limit as nat)),
{
    let next_offset = offset + page_size;
    let next_cursor = if next_offset < total {
        Some(usize_to_decimal(next_offset))
    } else {
        None
    };
    let prev_cursor = if offset > 0 {
        Some(usize_to_decimal(offset.saturating_sub(limit)))
    } else {
        None
    };
    (next_cursor, prev_cursor)
}

/// The total that a listing reports, from the count column of its first row:
/// the count read as a `usize`, or 0 where the listing has no row.
pub open spec fn listed_total(first_row_count: Option<i64>) -> usize {
    match first_row_count {
        Some(c) => c as usize,
        None => 0,
    }
}

/// The total that a listing reports, from the count column of its first row.
pub fn page_total(first_row_count: Option<i64>) -> (t: usize)
    ensures
        t == listed_total(first_row_count),
        first_row_count matches Some(c) ==> (0 <= c <= usize::MAX ==> t == c),
{
    match first_row_count {
        Some(c) => #[verifier::truncate] (c as usize),
        None => 0,
    }
}

/// What a listing reports besides its items: the total, the page size, and the cursors.
#[derive(Debug)]
pub struct PairsPageMeta {
    pub total: usize,
    pub limit: Option<usize>,
    pub next_cursor: Option<String>,
    pub prev_cursor: Option<String>,
}

/// The paging part of the answer to a listing: `page` was asked for, `page_len`
/// items came back, and the first row carried `first_row_count`.
pub fn pairs_page_meta(page: &Page, first_row_count: Option<i64>, page_len: usize) -> (m: PairsPageMeta)
    requires
        page.offset + page_len <= usize::MAX,
    ensures
        m.total == listed_total(first_row_count),
        m.limit == Some(page.limit),
        cursor_view(m.next_cursor) == cursor_text(
            next_page_offset(page.offset as nat, page_len as nat, m.total as nat),
        ),
        cursor_view(m.prev_cursor) == cursor_text(prev_page_offset(page.offset as nat, page.limit as nat)),
{
    let total = page_total(first_row_count);
    let (next_cursor, prev_cursor) = compute_cursors(page.offset, page.limit, page_len, total);
    PairsPageMeta { total, limit: Some(page.limit), next_cursor, prev_cursor }
}

/// One side of a trading pair: the native asset, or a credit asset named by its
/// code and issuer.
#[derive(Debug)]
pub enum AssetRef {
    Native,
    Credit { code: String, issuer: Option<String> },
}

/// The text of a code column that may be null: empty where it is null.
pub open spec fn code_text(code: Option<String>) -> Seq<char> {
    match code {
        Some(c) => c@,
        None => Seq::empty(),
    }
}

/// The asset of one side of a listed pair, from its type, code and issuer columns:
/// the type `native` names the native asset; any other names a credit asset.
pub fn classify_asset(asset_type: &String, code: Option<String>, issuer: Option<String>) -> (a: AssetRef)
    ensures
        asset_type@ == "native"@ ==> a is Native,
        asset_type@ != "native"@ ==> (a matches AssetRef::Credit { code: c, issuer: i } && c@
            == code_text(code) && i == issuer),
{
    let native = String::from_str("native");
    if *asset_type == native {
        AssetRef::Native
    } else {
        let code = match code {
            Some(c) => c,
            None => String::new(),
        };
        AssetRef::Credit { code, issuer }
    }
}

/// Every page size that a query can obtain lies between 1 and `MAX_PAGE_SIZE`.
pub proof fn law_page_limit_in_range(requested: Option<usize>)
    ensures
        1 <= page_limit(requested) <= MAX_PAGE_SIZE,
{
}

/// A cursor takes precedence over an offset: two queries with the same cursor and
/// the same limit ask for the same page, whatever offsets they carry.
pub proof fn law_cursor_takes_precedence(q1: PairsQuery, q2: PairsQuery)
    requires
        q1.cursor is Some,
        q1.cursor == q2.cursor,
        q1.limit == q2.limit,
    ensures
        requested_page(q1) == requested_page(q2),
{
}

/// The numeral of an offset that fits a `usize` reads back as that offset.
proof fn lemma_cursor_reads_back(n: nat)
    requires
        n <= usize::MAX,
    ensures
        cursor_offset(decimal_digits(n)) == Some(n),
{
    law_numeral_round_trip(n, usize::MAX as nat);
}

/// Following the next cursor of a page leads to the page right after it: a query
/// that carries that cursor asks for the page that starts `page_size` items later.
pub proof fn law_next_cursor_leads_to_next_page(
    q: PairsQuery,
    offset: usize,
    limit: usize,
    page_size: usize,
    total: usize,
)
    requires
        offset + page_size <= usize::MAX,
        q.cursor matches Some(c) && Some(c@) == cursor_text(
            next_page_offset(offset as nat, page_size as nat, total as nat),
        ),
    ensures
        requested_page(q) == Some(
            Page { limit: page_limit(q.limit), offset: (offset + page_size) as usize },
        ),
{
    lemma_cursor_reads_back((offset + page_size) as nat);
}

/// Following the previous cursor of a page leads one `limit` back, or to the start.
pub proof fn law_prev_cursor_leads_to_prev_page(q: PairsQuery, offset: usize, limit: usize)
    requires
        q.cursor matches Some(c) && Some(c@) == cursor_text(
            prev_page_offset(offset as nat, limit as nat),
        ),
    ensures
        requested_page(q) == Some(
            Page {
                limit: page_limit(q.limit),
                offset: if offset >= limit {
                    (offset - limit) as usize
                } else {
                    0
                },
            },
        ),
{
    let back: nat = if offset >= limit {
        (offset - limit) as nat
    } else {
        0
    };
    lemma_cursor_reads_back(back);
}

/// Going forward one full page and then back one page returns to the same page.
pub proof fn law_forward_then_back(offset: usize, limit: usize, total: usize)
    requires
        limit >= 1,
        offset + limit <= usize::MAX,
    ensures
        next_page_offset(offset as nat, limit as nat, total as nat) matches Some(n) ==> prev_page_offset(
            n,
            limit as nat,
        ) == Some(offset as nat),
{
}

/// A page has a next cursor exactly when items remain after it, and a previous
/// cursor exactly when it does not start at the beginning.
pub proof fn law_cursor_presence(offset: usize, limit: usize, page_size: usize, total: usize)
    ensures
        next_page_offset(offset as nat, page_size as nat, total as nat) is Some <==> offset
            + page_size < total,
        prev_page_offset(offset as nat, limit as nat) is Some <==> offset > 0,
{
}

/// The page size a query obtains: 25 where it names none, the size it names where
/// that lies in 1..=100, else 1 below and 100 above; the page it asks for has that size.
pub proof fn law_page_size_values(q: PairsQuery)
    ensures
        q.limit is None ==> page_limit(q.limit) == 25,
        q.limit matches Some(l) ==> (1 <= l <= 100 ==> page_limit(q.limit) == l),
        q.limit matches Some(l) ==> (l < 1 ==> page_limit(q.limit) == 1),
        q.limit matches Some(l) ==> (l > 100 ==> page_limit(q.limit) == 100),
        requested_page(q) matches Some(p) ==> p.limit == page_limit(q.limit),
{
}

/// Without a cursor, a query gets the offset it names, any offset at all, or 0
/// where it names none; such a query is never refused.
pub proof fn law_offset_without_cursor(q: PairsQuery)
    ensures
        q.cursor is None ==> (q.offset matches Some(o) ==> requested_page(q) == Some(
            Page { limit: page_limit(q.limit), offset: o },
        )),
        q.cursor is None ==> (q.offset is None ==> requested_page(q) == Some(
            Page { limit: page_limit(q.limit), offset: 0 },
        )),
{
}

/// With a cursor, a query is refused exactly when the cursor is no numeral that
/// fits a `usize`; otherwise it gets the offset the cursor writes.
pub proof fn law_offset_from_cursor(q: PairsQuery)
    ensures
        q.cursor matches Some(c) ==> (requested_page(q) is None <==> parse_unsigned(
            c@,
            usize::MAX as nat,
        ) is None),
        q.cursor matches Some(c) ==> (parse_unsigned(c@, usize::MAX as nat) matches Some(o)
            ==> requested_page(q) == Some(Page { limit: page_limit(q.limit), offset: o as usize })),
        forall|c: Seq<char>| cursor_offset(c) == parse_unsigned(c, usize::MAX as nat),
{
}

/// A page has a next cursor exactly when items remain after it, whatever its
/// offset; that cursor reads back as the offset right after the page.
pub proof fn law_next_cursor(offset: usize, page_size: usize, total: usize)
    requires
        offset + page_size <= usize::MAX,
    ensures
        cursor_text(next_page_offset(offset as nat, page_size as nat, total as nat)) is Some
            <==> offset + page_size < total,
        cursor_text(next_page_offset(offset as nat, page_size as nat, total as nat)) matches Some(c)
            ==> cursor_offset(c) == Some((offset + page_size) as nat),
{
    if offset + page_size < total {
        lemma_cursor_reads_back((offset + page_size) as nat);
    }
}

/// A page has a previous cursor exactly when it does not start at 0, whatever its
/// offset; that cursor reads back as one `limit` earlier, or 0.
pub proof fn law_prev_cursor(offset: usize, limit: usize)
    ensures
        cursor_text(prev_page_offset(offset as nat, limit as nat)) is Some <==> offset > 0,
        cursor_text(prev_page_offset(offset as nat, limit as nat)) matches Some(c) ==> cursor_offset(c)
            == Some(
            if offset >= limit {
                (offset - limit) as nat
            } else {
                0
            },
        ),
{
    if offset > 0 {
        let back: nat = if offset >= limit {
            (offset - limit) as nat
        } else {
            0
        };
        lemma_cursor_reads_back(back);
    }
}

/// The text of a cursor is the decimal numeral of its offset, for every offset.
pub proof fn law_cursor_text_is_numeral(o: nat)
    ensures
        cursor_text(Some(o)) == Some(decimal_digits(o)),
        cursor_text(None) is None,
{
}

/// The total of a listing is the count of its first row where that count fits a
/// `usize`, and 0 where the listing has no row.
pub proof fn law_listed_total(first_row_count: Option<i64>)
    ensures
        first_row_count is None ==> listed_total(first_row_count) == 0,
        first_row_count matches Some(c) ==> (0 <= c <= usize::MAX ==> listed_total(first_row_count)
            == c),
{
}

} // verus!
