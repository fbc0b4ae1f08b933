//! Classification of inbound text frames into event categories.
//!
//! A payload is classified by substring containment tests against a fixed
//! set of marker tokens, evaluated in a fixed priority order. The order is
//! a correctness requirement: a payload may contain several markers at
//! once, and the first marker in the priority order decides the category.

use vstd::prelude::*;

verus! {

/// The closed set of event categories the core recognizes and routes.
///
/// Classification is total: every payload maps to exactly one category,
/// possibly `Unknown`.
#[derive(Clone, Copy, Debug, PartialEq, Eq, Structural)]
pub enum EventCategory {
    AccountUpdate,
    OrderTrade,
    AggregatedTrade,
    Trade,
    Kline,
    PartialOrderBook,
    DepthDiff,
    Unknown,
}

/// `needle` occurs in `hay` starting at character position `i`.
pub open spec fn has_substring_at(hay: Seq<char>, needle: Seq<char>, i: int) -> bool {
    &&& 0 <= i
    &&& i + needle.len() <= hay.len()
    &&& hay.subrange(i, i + needle.len()) == needle
}

/// `needle` occurs somewhere in `hay`.
pub open spec fn has_substring(hay: Seq<char>, needle: Seq<char>) -> bool {
    exists|i: int| has_substring_at(hay, needle, i)
}

/// Marker whose presence (at highest priority) means an account update.
pub open spec fn account_update_marker() -> Seq<char> {
    "outboundAccountInfo"@
}

/// Marker for an order/trade execution report.
pub open spec fn order_trade_marker() -> Seq<char> {
    "executionReport"@
}

/// Marker for an aggregated trade; checked before the plain trade marker.
pub open spec fn agg_trade_marker() -> Seq<char> {
    "aggTrade"@
}

/// Marker for a plain trade; checked after the aggregated-trade marker.
pub open spec fn trade_marker() -> Seq<char> {
    "trade"@
}

/// Marker for a candlestick (kline) event.
pub open spec fn kline_marker() -> Seq<char> {
    "kline"@
}

/// Marker for a partial order-book snapshot.
pub open spec fn partial_book_marker() -> Seq<char> {
    "lastUpdateId"@
}

/// Marker for an order-book depth difference.
pub open spec fn depth_diff_marker() -> Seq<char> {
    "depthUpdate"@
}

/// The category of a payload: the first marker of the priority order that
/// occurs in it decides; a payload with no marker is `Unknown`.
pub open spec fn spec_classify(msg: Seq<char>) -> EventCategory {
    if has_substring(msg, account_update_marker()) {
        EventCategory::AccountUpdate
    } else if has_substring(msg, order_trade_marker()) {
        EventCategory::OrderTrade
    } else if has_substring(msg, agg_trade_marker()) {
        EventCategory::AggregatedTrade
    } else if has_substring(msg, trade_marker()) {
        EventCategory::Trade
    } else if has_substring(msg, kline_marker()) {
        EventCategory::Kline
    } else if has_substring(msg, partial_book_marker()) {
        EventCategory::PartialOrderBook
    } else if has_substring(msg, depth_diff_marker()) {
        EventCategory::DepthDiff
    } else {
        EventCategory::Unknown
    }
}

/// `needle` occurs in `hay` at character position `i` (executable check).
fn matches_at(hay: &str, needle: &str, i: usize) -> (r: bool)
    requires
        hay@.len() <= usize::MAX,
        i + needle@.len() <= hay@.len(),
    ensures
        r == has_substring_at(hay@, needle@, i as int),
{
    let m: usize = needle.unicode_len();
    let mut j: usize = 0;
    while j < m
        invariant
            m == needle@.len(),
            hay@.len() <= usize::MAX,
            i + m <= hay@.len(),
            0 <= j <= m,
            forall|k: int| 0 <= k < j ==> hay@[i + k] == needle@[k],
        decreases m - j,
    {
        let hc = hay.get_char(i + j);
        let nc = needle.get_char(j);
        if hc != nc {
            proof {
                assert(!has_substring_at(hay@, needle@, i as int)) by {
                    if has_substring_at(hay@, needle@, i as int) {
                        assert(hay@.subrange(i as int, i + needle@.len())[j as int]
                            == hay@[i + j]);
                    }
                }
            }
            return false;
        }
        j = j + 1;
    }
    proof {
        assert(hay@.subrange(i as int, i + needle@.len()) =~= needle@);
    }
    true
}

/// Whether `needle` occurs anywhere in `hay`, by character positions.
pub fn str_contains(hay: &str, needle: &str) -> (r: bool)
    ensures
        r == has_substring(hay@, needle@),
{
    let n: usize = hay.unicode_len();
    let m: usize = needle.unicode_len();
    if m == 0 {
        proof {
            assert(hay@.subrange(0, 0) =~= needle@);
            assert(has_substring_at(hay@, needle@, 0));
        }
        return true;
    }
    if m > n {
        proof {
            assert forall|i: int| !has_substring_at(hay@, needle@, i) by {}
        }
        return false;
    }
    let bound: usize = n - m;
    let mut i: usize = 0;
    while i <= bound
        invariant
            n == hay@.len(),
            m == needle@.len(),
            0 < m <= n <= usize::MAX,
            bound == n - m,
            0 <= i <= bound + 1,
            forall|k: int| 0 <= k < i ==> !has_substring_at(hay@, needle@, k),
        decreases bound + 1 - i,
    {
        if matches_at(hay, needle, i) {
            return true;
        }
        i = i + 1;
    }
    proof {
        assert forall|k: int| !has_substring_at(hay@, needle@, k) by {
            if k > bound as int {
                assert(k + needle@.len() > hay@.len());
            }
        }
    }
    false
}

/// Classify a payload into its event category.
///
/// Pure and total: never fails, and every payload maps to exactly one
/// category. The markers are tested in priority order, so a payload that
/// contains several markers gets the category of the first one.
pub fn classify(msg: &str) -> (c: EventCategory)
    ensures
        c == spec_classify(msg@),
{
    if str_contains(msg, "outboundAccountInfo") {
        EventCategory::AccountUpdate
    } else if str_contains(msg, "executionReport") {
        EventCategory::OrderTrade
    } else if str_contains(msg, "aggTrade") {
        EventCategory::AggregatedTrade
    } else if str_contains(msg, "trade") {
        EventCategory::Trade
    } else if str_contains(msg, "kline") {
        EventCategory::Kline
    } else if str_contains(msg, "lastUpdateId") {
        EventCategory::PartialOrderBook
    } else if str_contains(msg, "depthUpdate") {
        EventCategory::DepthDiff
    } else {
        EventCategory::Unknown
    }
}

/// The account-update marker has the highest priority: any payload that
/// contains it classifies as `AccountUpdate`, whatever other substrings are
/// present.
pub proof fn lemma_account_update_wins(msg: Seq<char>)
    requires
        has_substring(msg, account_update_marker()),
    ensures
        spec_classify(msg) == EventCategory::AccountUpdate,
{
}

/// A payload that contains the aggregated-trade marker never classifies as
/// a plain trade: the aggregated-trade rule is tested first.
pub proof fn lemma_agg_trade_never_trade(msg: Seq<char>)
    requires
        has_substring(msg, agg_trade_marker()),
    ensures
        spec_classify(msg) != EventCategory::Trade,
{
}

/// A payload that contains both the aggregated-trade and the plain trade
/// markers classifies as `AggregatedTrade`, provided no higher-priority
/// marker is present as well.
pub proof fn lemma_agg_trade_beats_trade(msg: Seq<char>)
    requires
        has_substring(msg, agg_trade_marker()),
        has_substring(msg, trade_marker()),
        !has_substring(msg, account_update_marker()),
        !has_substring(msg, order_trade_marker()),
    ensures
        spec_classify(msg) == EventCategory::AggregatedTrade,
{
}

/// A payload in which none of the seven markers occurs classifies as
/// `Unknown`.
pub proof fn lemma_no_marker_unknown(msg: Seq<char>)
    requires
        !has_substring(msg, account_update_marker()),
        !has_substring(msg, order_trade_marker()),
        !has_substring(msg, agg_trade_marker()),
        !has_substring(msg, trade_marker()),
        !has_substring(msg, kline_marker()),
        !has_substring(msg, partial_book_marker()),
        !has_substring(msg, depth_diff_marker()),
    ensures
        spec_classify(msg) == EventCategory::Unknown,
{
}

} // verus!
