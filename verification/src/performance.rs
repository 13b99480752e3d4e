//! Counters of how long event filtering takes and how often cached renderings are reused.
use vstd::prelude::*;

use crate::entry::EventEntry;
use crate::json::{compact, compact_text, json_view};
use crate::text::{byte_len, decimal, digit_char, push_str, to_string, u64_to_string, utf8_len};

verus! {

/// The longest duration there is (`Duration::MAX`), in nanoseconds.
pub const MAX_DURATION_NANOS: u128 = 18446744073709551615999999999u128;

/// Sum of durations, in nanoseconds.
pub open spec fn total_nanos(s: Seq<u128>) -> nat
    decreases s.len(),
{
    if s.len() == 0 {
        0
    } else {
        total_nanos(s.drop_last()) + s.last() as nat
    }
}

/// A prefix never sums to more than the whole.
pub proof fn lemma_total_prefix(s: Seq<u128>, i: int)
    requires
        0 <= i <= s.len(),
    ensures
        total_nanos(s.take(i)) <= total_nanos(s),
    decreases s.len() - i,
{
    if i < s.len() {
        lemma_total_prefix(s, i + 1);
        assert(s.take(i + 1).drop_last() =~= s.take(i));
    } else {
        assert(s.take(i) =~= s);
    }
}

/// The mean of recorded durations: their sum divided by their count (taken as a `u32`, as
/// the count is converted before dividing), rounded down to the nanosecond.
pub open spec fn mean_nanos(s: Seq<u128>) -> Option<nat> {
    if s.len() == 0 {
        None
    } else {
        Some(total_nanos(s) / ((s.len() as u32) as nat))
    }
}

/// Sums of durations that all lie in `[lo, hi]` lie between `n * lo` and `n * hi`.
proof fn lemma_total_bounds(s: Seq<u128>, lo: nat, hi: nat)
    requires
        forall|i: int| 0 <= i < s.len() ==> lo <= #[trigger] s[i] <= hi,
    ensures
        s.len() * lo <= total_nanos(s) <= s.len() * hi,
    decreases s.len(),
{
    if s.len() > 0 {
        let rest = s.drop_last();
        assert forall|i: int| 0 <= i < rest.len() implies lo <= #[trigger] rest[i] <= hi by {
            assert(rest[i] == s[i]);
        }
        lemma_total_bounds(rest, lo, hi);
        assert(lo <= s.last() <= hi);
        assert(s.len() * lo == rest.len() * lo + lo) by (nonlinear_arith)
            requires
                s.len() == rest.len() + 1,
        ;
        assert(s.len() * hi == rest.len() * hi + hi) by (nonlinear_arith)
            requires
                s.len() == rest.len() + 1,
        ;
    }
}

/// The mean filtering time lies between the shortest and the longest recorded time (for
/// fewer than 2^32 recordings, whose count the division takes as it is).
pub proof fn law_mean_within_recorded(s: Seq<u128>, lo: u128, hi: u128)
    requires
        0 < s.len() < 0x1_0000_0000,
        forall|i: int| 0 <= i < s.len() ==> lo <= #[trigger] s[i] <= hi,
    ensures
        mean_nanos(s) matches Some(m) && lo <= m <= hi,
{
    lemma_total_bounds(s, lo as nat, hi as nat);
    let n = s.len();
    assert((n as u32) as nat == n);
    let t = total_nanos(s);
    assert(lo <= t / n <= hi) by (nonlinear_arith)
        requires
            n > 0,
            n * lo <= t <= n * hi,
    {
        vstd::arithmetic::div_mod::lemma_div_is_ordered((n * lo) as int, t as int, n as int);
        vstd::arithmetic::div_mod::lemma_div_is_ordered(t as int, (n * hi) as int, n as int);
        vstd::arithmetic::div_mod::lemma_div_multiples_vanish(lo as int, n as int);
        vstd::arithmetic::div_mod::lemma_div_multiples_vanish(hi as int, n as int);
    }
}

/// Timing and cache statistics. Durations are kept in nanoseconds.
pub struct PerformanceTracker {
    pub filter_times: Vec<u128>,
    pub render_times: Vec<u128>,
    pub cache_hits: u32,
    pub cache_misses: u32,
}

impl PerformanceTracker {
    /// A tracker with nothing recorded.
    pub fn new() -> (t: PerformanceTracker)
        ensures
            t.filter_times@ == Seq::<u128>::empty(),
            t.render_times@ == Seq::<u128>::empty(),
            t.cache_hits == 0,
            t.cache_misses == 0,
    {
        PerformanceTracker {
            filter_times: Vec::new(),
            render_times: Vec::new(),
            cache_hits: 0,
            cache_misses: 0,
        }
    }

    /// Records how long one filtering took.
    pub fn record_filter_time(&mut self, nanos: u128)
        requires
            nanos <= MAX_DURATION_NANOS,
        ensures
            final(self).filter_times@ == old(self).filter_times@.push(nanos),
            final(self).render_times@ == old(self).render_times@,
            final(self).cache_hits == old(self).cache_hits,
            final(self).cache_misses == old(self).cache_misses,
    {
        self.filter_times.push(nanos);
    }

    /// Counts a reuse of a cached rendering.
    pub fn record_cache_hit(&mut self)
        requires
            old(self).cache_hits < u32::MAX,
        ensures
            final(self).cache_hits == old(self).cache_hits + 1,
            final(self).cache_misses == old(self).cache_misses,
            final(self).filter_times@ == old(self).filter_times@,
            final(self).render_times@ == old(self).render_times@,
    {
        self.cache_hits += 1;
    }

    /// Counts a rendering that had to be made afresh.
    pub fn record_cache_miss(&mut self)
        requires
            old(self).cache_misses < u32::MAX,
        ensures
            final(self).cache_misses == old(self).cache_misses + 1,
            final(self).cache_hits == old(self).cache_hits,
            final(self).filter_times@ == old(self).filter_times@,
            final(self).render_times@ == old(self).render_times@,
    {
        self.cache_misses += 1;
    }

    /// The mean filtering time, `None` when none was recorded. The sum must stay a valid
    /// duration and the count must not be a nonzero multiple of 2^32 (the division would be
    /// by zero).
    pub fn average_filter_time(&self) -> (r: Option<u128>)
        requires
            total_nanos(self.filter_times@) <= MAX_DURATION_NANOS,
            self.filter_times@.len() > 0 ==> (self.filter_times@.len() as u32) != 0,
        ensures
            match r {
                Some(m) => mean_nanos(self.filter_times@) == Some(m as nat),
                None => mean_nanos(self.filter_times@) is None,
            },
    {
        let n = self.filter_times.len();
        if n == 0 {
            return None;
        }
        let mut total: u128 = 0;
        let mut i: usize = 0;
        while i < n
            invariant
                n == self.filter_times@.len(),
                i <= n,
                total == total_nanos(self.filter_times@.take(i as int)),
                total_nanos(self.filter_times@) <= MAX_DURATION_NANOS,
            decreases n - i,
        {
            proof {
                lemma_total_prefix(self.filter_times@, i + 1);
                assert(self.filter_times@.take(i + 1).drop_last() =~= self.filter_times@.take(
                    i as int,
                ));
            }
            total = total + self.filter_times[i];
            i += 1;
        }
        proof {
            assert(self.filter_times@.take(n as int) =~= self.filter_times@);
        }
        let count = n as u32;
        Some(total / (count as u128))
    }
}

/// The decimal digits of the fraction `frac / (10 * divisor)`, written digit by digit until
/// nothing of it remains.
pub open spec fn fraction_digits(frac: nat, divisor: nat) -> Seq<char>
    decreases divisor,
{
    if frac == 0 || divisor == 0 {
        Seq::empty()
    } else {
        seq![digit_char((frac / divisor) as int)] + fraction_digits(frac % divisor, divisor / 10)
    }
}

/// `.` and the digits of a fraction, or nothing for a whole number.
pub open spec fn point_digits(frac: nat, divisor: nat) -> Seq<char> {
    if frac == 0 {
        Seq::empty()
    } else {
        "."@ + fraction_digits(frac, divisor)
    }
}

/// How `{:?}` prints a duration of `total` nanoseconds: in seconds when a second or more,
/// else in milliseconds, microseconds or nanoseconds, with no trailing zeros.
pub open spec fn duration_debug(total: nat) -> Seq<char> {
    let secs = total / 1_000_000_000;
    let nanos = total % 1_000_000_000;
    if secs > 0 {
        decimal(secs) + point_digits(nanos, 100_000_000) + "s"@
    } else if nanos >= 1_000_000 {
        decimal(nanos / 1_000_000) + point_digits(nanos % 1_000_000, 100_000) + "ms"@
    } else if nanos >= 1_000 {
        decimal(nanos / 1_000) + point_digits(nanos % 1_000, 100) + "µs"@
    } else {
        decimal(nanos) + "ns"@
    }
}

/// Whether `d` is a power of ten.
pub open spec fn is_pow10(d: nat) -> bool
    decreases d,
{
    if d == 1 {
        true
    } else if d >= 10 && d % 10 == 0 {
        is_pow10(d / 10)
    } else {
        false
    }
}

/// Appends the digits of a fraction.
fn push_fraction_digits(s: &mut String, frac: u64, divisor: u64)
    requires
        frac == 0 || (is_pow10(divisor as nat) && frac < divisor * 10),
    ensures
        final(s)@ == old(s)@ + fraction_digits(frac as nat, divisor as nat),
    decreases divisor,
{
    if frac == 0 || divisor == 0 {
        proof {
            assert(old(s)@ + Seq::<char>::empty() =~= old(s)@);
        }
        return;
    }
    let ghost start = s@;
    let d = frac / divisor;
    assert(d < 10) by (nonlinear_arith)
        requires
            d == frac / divisor,
            frac < divisor * 10,
            divisor > 0,
    ;
    let digit = u64_to_string(d);
    assert(digit@ == seq![digit_char(d as int)]);
    push_str(s, digit.as_str());
    let rest = frac % divisor;
    proof {
        if rest != 0 {
            assert(divisor != 1);
            assert(divisor >= 10 && divisor % 10 == 0);
            assert((divisor / 10) * 10 == divisor);
        }
    }
    push_fraction_digits(s, rest, divisor / 10);
    proof {
        assert(s@ =~= start + fraction_digits(frac as nat, divisor as nat));
    }
}

/// A duration of `nanos` nanoseconds as `{:?}` prints it.
pub fn duration_text(nanos: u128) -> (s: String)
    requires
        nanos <= MAX_DURATION_NANOS,
    ensures
        s@ == duration_debug(nanos as nat),
{
    let secs = nanos / 1_000_000_000;
    let sub = nanos % 1_000_000_000;
    let (whole, frac, divisor, unit): (u128, u128, u128, &str) = if secs > 0 {
        (secs, sub, 100_000_000, "s")
    } else if sub >= 1_000_000 {
        (sub / 1_000_000, sub % 1_000_000, 100_000, "ms")
    } else if sub >= 1_000 {
        (sub / 1_000, sub % 1_000, 100, "µs")
    } else {
        (sub, 0, 1, "ns")
    };
    proof {
        reveal_with_fuel(is_pow10, 10);
        assert(is_pow10(100_000_000));
        assert(is_pow10(100_000));
        assert(is_pow10(100));
        assert(whole <= u64::MAX);
    }
    let mut s = u64_to_string(whole as u64);
    if frac > 0 {
        push_str(&mut s, ".");
        push_fraction_digits(&mut s, frac as u64, divisor as u64);
    }
    push_str(&mut s, unit);
    proof {
        reveal_strlit(".");
        assert(s@ =~= duration_debug(nanos as nat));
    }
    s
}

/// The performance report, with the cache hit rate `hit_rate` (a percentage with two
/// decimals) as given.
pub open spec fn report_text(t: PerformanceTracker, hit_rate: Seq<char>) -> Seq<char> {
    let mean = match mean_nanos(t.filter_times@) {
        Some(m) => m,
        None => 0,
    };
    "Performance Report:\n- Filter operations: "@ + decimal(t.filter_times@.len())
        + "\n- Average filter time: "@ + duration_debug(mean) + "\n- Cache hit rate: "@
        + hit_rate + "%\n- Cache hits: "@ + decimal(t.cache_hits as nat) + "\n- Cache misses: "@
        + decimal(t.cache_misses as nat)
}

impl PerformanceTracker {
    /// A summary of the statistics: number of filterings, mean filtering time, cache hit
    /// rate (given as text, a percentage with two decimals) and the cache counters.
    pub fn performance_report(&self, hit_rate: &str) -> (s: String)
        requires
            total_nanos(self.filter_times@) <= MAX_DURATION_NANOS,
            self.filter_times@.len() > 0 ==> (self.filter_times@.len() as u32) != 0,
        ensures
            s@ == report_text(*self, hit_rate@),
    {
        let mean: u128 = match self.average_filter_time() {
            Some(m) => m,
            None => 0,
        };
        proof {
            if self.filter_times@.len() > 0 {
                let n = (self.filter_times@.len() as u32) as nat;
                let total = total_nanos(self.filter_times@);
                assert(total / n <= total) by (nonlinear_arith)
                    requires
                        n > 0,
                ;
            }
        }
        let mut s = to_string("Performance Report:\n- Filter operations: ");
        let count = u64_to_string(self.filter_times.len() as u64);
        push_str(&mut s, count.as_str());
        push_str(&mut s, "\n- Average filter time: ");
        let d = duration_text(mean);
        push_str(&mut s, d.as_str());
        push_str(&mut s, "\n- Cache hit rate: ");
        push_str(&mut s, hit_rate);
        push_str(&mut s, "%\n- Cache hits: ");
        let hits = u64_to_string(self.cache_hits as u64);
        push_str(&mut s, hits.as_str());
        push_str(&mut s, "\n- Cache misses: ");
        let misses = u64_to_string(self.cache_misses as u64);
        push_str(&mut s, misses.as_str());
        proof {
            assert(s@ =~= report_text(*self, hit_rate@));
        }
        s
    }
}

/// The estimated memory of one entry: the entry itself, its texts and its payload as
/// compact JSON, in bytes (the detail body is not counted).
pub open spec fn entry_memory(e: EventEntry) -> nat {
    vstd::layout::size_of::<EventEntry>() + utf8_len(e.label@) + utf8_len(e.description@)
        + utf8_len(e.content_type@) + utf8_len(e.event_type@) + utf8_len(e.timestamp@) + utf8_len(
        compact_text(json_view(e.raw_payload)),
    )
}

/// The estimated memory of the first `n` entries.
pub open spec fn entries_memory(events: Seq<EventEntry>, n: nat) -> nat
    decreases n,
{
    if n == 0 || n > events.len() {
        0
    } else {
        entries_memory(events, (n - 1) as nat) + entry_memory(events[n - 1])
    }
}

/// A prefix of the entries never needs more than all of them.
proof fn lemma_entries_memory_prefix(events: Seq<EventEntry>, i: nat, n: nat)
    requires
        i <= n <= events.len(),
    ensures
        entries_memory(events, i) <= entries_memory(events, n),
    decreases n - i,
{
    if i < n {
        lemma_entries_memory_prefix(events, i, (n - 1) as nat);
    }
}

/// Estimated memory held by `events`, in bytes. The total must fit in a `usize`.
pub fn estimate_memory_usage(events: &[EventEntry]) -> (total: usize)
    requires
        entries_memory(events@, events@.len()) <= usize::MAX,
    ensures
        total == entries_memory(events@, events@.len()),
{
    let n = events.len();
    let mut total: usize = 0;
    let mut i: usize = 0;
    while i < n
        invariant
            n == events@.len(),
            i <= n,
            total == entries_memory(events@, i as nat),
            entries_memory(events@, n as nat) <= usize::MAX,
        decreases n - i,
    {
        let e = &events[i];
        proof {
            lemma_entries_memory_prefix(events@, (i + 1) as nat, n as nat);
        }
        let payload_text = compact(&e.raw_payload);
        let size = core::mem::size_of::<EventEntry>() + byte_len(e.label.as_str()) + byte_len(
            e.description.as_str(),
        ) + byte_len(e.content_type.as_str()) + byte_len(e.event_type.as_str()) + byte_len(
            e.timestamp.as_str(),
        ) + byte_len(payload_text.as_str());
        total = total + size;
        i += 1;
    }
    total
}

} // verus!
