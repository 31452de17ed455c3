//! Deep links: capture from the process arguments, the dedup key, and the
//! single-slot record that suppresses a repeated link.

use vstd::prelude::*;
use crate::clock::{elapsed, elapsed_since, Millis};
use crate::link::{
    first_query_value, first_value, parse_url, percent_decode, percent_decoded, url_parts, LinkParts,
    ParsedLink,
};
use crate::text::{has_prefix, same_text, text_of};

verus! {

/// How long a link keeps an equal one out, in milliseconds.
pub const DEDUP_WINDOW_MS: u64 = 5000;

/// Whether `text` begins with one of the recognized schemes followed by
/// `://`.
pub open spec fn looks_like_deep_link(text: Seq<char>) -> bool {
    "clash://"@.is_prefix_of(text) || "koala-clash://"@.is_prefix_of(text) || "outclash://"@.is_prefix_of(
        text,
    )
}

/// Computes `looks_like_deep_link`.
pub fn is_deep_link_argument(text: &str) -> (found: bool)
    ensures
        found == looks_like_deep_link(text@),
{
    has_prefix(text, "clash://") || has_prefix(text, "koala-clash://") || has_prefix(text, "outclash://")
}

/// The first of `args` that looks like a deep link.
pub open spec fn first_deep_link(args: Seq<String>) -> Option<Seq<char>>
    decreases args.len(),
{
    if args.len() == 0 {
        None
    } else if looks_like_deep_link(args[0]@) {
        Some(args[0]@)
    } else {
        first_deep_link(args.drop_first())
    }
}

/// A link seen in the process arguments before the orchestrator was ready,
/// kept for replay.
#[derive(Debug, Clone, PartialEq, Eq)]
pub struct EarlyDeepLink {
    pub pending: Option<String>,
}

impl View for EarlyDeepLink {
    type V = Option<Seq<char>>;

    open spec fn view(&self) -> Option<Seq<char>> {
        text_of(self.pending)
    }
}

impl EarlyDeepLink {
    pub fn new() -> (slot: EarlyDeepLink)
        ensures
            slot@ is None,
    {
        EarlyDeepLink { pending: None }
    }
}

/// Scans the process arguments for the first one that begins with a
/// recognized scheme and stashes it. Where none does, the slot keeps what it
/// held. Returns whether a link was found.
pub fn capture_early_deep_link_from_args(slot: &mut EarlyDeepLink, args: &Vec<String>) -> (found: bool)
    ensures
        found == first_deep_link(args@).is_some(),
        final(slot)@ == (if found {
            first_deep_link(args@)
        } else {
            old(slot)@
        }),
{
    let n = args.len();
    let mut i: usize = 0;
    assert(args@.skip(0) =~= args@);
    while i < n
        invariant
            i <= n,
            n == args.len(),
            first_deep_link(args@) == first_deep_link(args@.skip(i as int)),
            *slot == *old(slot),
        decreases n - i,
    {
        assert(args@.skip(i as int).drop_first() =~= args@.skip(i + 1));
        if is_deep_link_argument(args[i].as_str()) {
            slot.pending = Some(args[i].clone());
            return true;
        }
        i += 1;
    }
    false
}

/// Takes the stashed link, if any, out of the slot. A second call finds the
/// slot empty.
pub fn take_early_deep_link(slot: &mut EarlyDeepLink) -> (url: Option<String>)
    ensures
        final(slot)@ is None,
        text_of(url) == old(slot)@,
{
    slot.pending.take()
}

/// The key under which `raw` is deduplicated, given what the URL parser made
/// of it: the percent-decoded value of the first `url` parameter where the
/// link parses and has one, else the raw text.
pub open spec fn dedup_key_from(raw: Seq<char>, parts: Option<LinkParts>) -> Seq<char> {
    match parts {
        Some(link) => match first_value(link.query, "url"@) {
            Some(value) => percent_decoded(value),
            None => raw,
        },
        None => raw,
    }
}

/// The key under which the activation string `raw` is deduplicated.
pub open spec fn dedup_key_of(raw: Seq<char>) -> Seq<char> {
    dedup_key_from(raw, url_parts(raw))
}

/// The `url` parameter that names the subscription in a parsed link: the
/// value of the first pair whose key is `url`, not yet percent-decoded.
pub fn subscription_parameter(link: &ParsedLink) -> (value: Option<String>)
    ensures
        text_of(value) == first_value(link@.query, "url"@),
{
    first_query_value(link, "url")
}

/// Computes the dedup key of `raw`.
pub fn dedup_key(raw: &str) -> (key: String)
    ensures
        key@ == dedup_key_of(raw@),
{
    match parse_url(raw) {
        Ok(link) => match subscription_parameter(&link) {
            Some(value) => percent_decode(value.as_str()),
            None => raw.to_owned(),
        },
        Err(_) => raw.to_owned(),
    }
}

/// An activation event: the raw string and the key that decides whether two
/// events are the same.
#[derive(Debug, Clone, PartialEq, Eq)]
pub struct DeepLinkEvent {
    pub raw_url: String,
    pub dedup_key: String,
}

impl DeepLinkEvent {
    /// The event for the activation string `raw_url`.
    pub fn new(raw_url: String) -> (event: DeepLinkEvent)
        ensures
            event.raw_url@ == raw_url@,
            event.dedup_key@ == dedup_key_of(raw_url@),
    {
        let dedup_key = dedup_key(raw_url.as_str());
        DeepLinkEvent { raw_url, dedup_key }
    }
}

/// The key and the time of the event that was let through last.
#[derive(Debug, Clone, PartialEq, Eq)]
pub struct DedupEntry {
    pub key: String,
    pub seen_at: Millis,
}

/// The single-slot dedup record.
#[derive(Debug, Clone, PartialEq, Eq)]
pub struct DeepLinkDedupRecord {
    pub last: Option<DedupEntry>,
}

/// The slot of the dedup record as text: the key and the time of the event
/// that was let through last, if any.
pub type SlotText = Option<(Seq<char>, Millis)>;

impl View for DeepLinkDedupRecord {
    type V = SlotText;

    open spec fn view(&self) -> SlotText {
        match self.last {
            Some(entry) => Some((entry.key@, entry.seen_at)),
            None => None,
        }
    }
}

/// Whether an event with `key` at `now` repeats the recorded one: the keys
/// are equal and less than `DEDUP_WINDOW_MS` have passed.
pub open spec fn is_duplicate(record: SlotText, key: Seq<char>, now: Millis) -> bool {
    match record {
        Some((last_key, seen_at)) => last_key == key && elapsed(now, seen_at) < DEDUP_WINDOW_MS,
        None => false,
    }
}

/// The record after an event with `key` arrived at `now`: untouched by a
/// duplicate, overwritten by anything else.
pub open spec fn record_after(record: SlotText, key: Seq<char>, now: Millis) -> SlotText {
    if is_duplicate(record, key, now) {
        record
    } else {
        Some((key, now))
    }
}

impl DeepLinkDedupRecord {
    pub fn new() -> (record: DeepLinkDedupRecord)
        ensures
            record@ is None,
    {
        DeepLinkDedupRecord { last: None }
    }

    /// The dedup check for an event with `key` at `now`. Returns whether the
    /// event goes on to delivery; a duplicate changes nothing, any other
    /// event overwrites the slot.
    pub fn check_in(&mut self, key: &str, now: Millis) -> (deliver: bool)
        ensures
            deliver == !is_duplicate(old(self)@, key@, now),
            final(self)@ == record_after(old(self)@, key@, now),
    {
        let duplicate = match &self.last {
            Some(entry) => same_text(entry.key.as_str(), key) && elapsed_since(now, entry.seen_at)
                < DEDUP_WINDOW_MS,
            None => false,
        };
        if duplicate {
            false
        } else {
            self.last = Some(DedupEntry { key: key.to_owned(), seen_at: now });
            true
        }
    }
}

/// Of two events with the same key and nothing between them, where the first
/// is delivered: the second is dropped if it comes less than five seconds
/// after the first, and delivered if it comes five seconds later or more.
pub proof fn repeated_link_is_dropped_within_window(
    record: SlotText,
    key: Seq<char>,
    first: Millis,
    second: Millis,
)
    requires
        !is_duplicate(record, key, first),
    ensures
        is_duplicate(record_after(record, key, first), key, second) <==> elapsed(second, first)
            < DEDUP_WINDOW_MS,
        is_duplicate(record_after(record, key, first), key, second) ==> record_after(
            record_after(record, key, first),
            key,
            second,
        ) == record_after(record, key, first),
{
}

/// On a clock that does not run backwards, an event that comes five seconds
/// or more after an equal one is delivered, whether or not the first was.
pub proof fn repeated_link_is_delivered_after_window(
    record: SlotText,
    key: Seq<char>,
    first: Millis,
    second: Millis,
)
    requires
        record matches Some((_, seen_at)) ==> seen_at <= first,
        first + DEDUP_WINDOW_MS <= second,
    ensures
        !is_duplicate(record_after(record, key, first), key, second),
{
}

/// The slot holds one key: an event with another key between two equal ones
/// overwrites it, and the later of the two is delivered however soon it
/// comes.
pub proof fn other_key_resets_the_slot(
    record: SlotText,
    key: Seq<char>,
    other: Seq<char>,
    first: Millis,
    between: Millis,
    second: Millis,
)
    requires
        key != other,
    ensures
        !is_duplicate(record_after(record_after(record, key, first), other, between), key, second),
{
}

/// The record after events with one key `key` arrived at the times of
/// `times`, in order.
pub open spec fn record_after_all(record: SlotText, key: Seq<char>, times: Seq<Millis>) -> SlotText
    decreases times.len(),
{
    if times.len() == 0 {
        record
    } else {
        record_after(record_after_all(record, key, times.drop_last()), key, times.last())
    }
}

/// Whether, of events with one key `key` arriving at the times of `times`,
/// the one at position `i` is delivered.
pub open spec fn delivered_at(record: SlotText, key: Seq<char>, times: Seq<Millis>, i: int) -> bool {
    !is_duplicate(record_after_all(record, key, times.take(i)), key, times[i])
}

/// Whether the times of `times` never go backwards.
pub open spec fn nondecreasing(times: Seq<Millis>) -> bool {
    forall|i: int, j: int| 0 <= i <= j < times.len() ==> times[i] <= times[j]
}

proof fn slot_holds_a_later_delivery(
    record: SlotText,
    key: Seq<char>,
    times: Seq<Millis>,
    i: int,
    k: int,
)
    requires
        nondecreasing(times),
        0 <= i < k <= times.len(),
        delivered_at(record, key, times, i),
    ensures
        record_after_all(record, key, times.take(k)) matches Some((held, seen_at)) && held == key
            && times[i] <= seen_at <= times[k - 1],
    decreases k,
{
    assert(times.take(k).drop_last() =~= times.take(k - 1));
    assert(times.take(k).last() == times[k - 1]);
    if k > i + 1 {
        slot_holds_a_later_delivery(record, key, times, i, k - 1);
    }
}

/// Of events with one key, on a clock that does not run backwards, any two
/// that are delivered lie at least five seconds apart: no window of five
/// seconds sees the same link delivered twice.
pub proof fn same_key_deliveries_are_a_window_apart(
    record: SlotText,
    key: Seq<char>,
    times: Seq<Millis>,
    i: int,
    j: int,
)
    requires
        nondecreasing(times),
        0 <= i < j < times.len(),
        delivered_at(record, key, times, i),
        delivered_at(record, key, times, j),
    ensures
        times[j] - times[i] >= DEDUP_WINDOW_MS,
{
    slot_holds_a_later_delivery(record, key, times, i, j);
}

} // verus!
