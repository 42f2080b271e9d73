use vstd::prelude::*;

verus! {

/// Number of consecutive equal samples a level must hold before it is
/// accepted as settled (10 samples at the 1 ms sampling interval, i.e. 10 ms
/// of electrical quiet).
pub const STABILITY_THRESHOLD: u8 = 10;

/// A debounced logical transition of the button line.
#[derive(Clone, Copy, PartialEq, Eq, Structural, Debug)]
pub enum Event {
    Pushed,
    Released,
}

/// Wiring convention: active-low button behind a pull-up, so a low line means
/// the button is held down.
pub open spec fn event_for_level(is_high: bool) -> Event {
    if is_high {
        Event::Released
    } else {
        Event::Pushed
    }
}

/// The level a sample trace settles on, if any: feeding the samples one by
/// one to a debouncer that starts with `candidate` confirmed `count` times, a
/// level is reported as soon as it has been confirmed by
/// `STABILITY_THRESHOLD` consecutive samples; a differing sample becomes the
/// new candidate with its count reset to zero.
pub open spec fn debounce_spec(candidate: bool, count: nat, samples: Seq<bool>) -> Option<bool>
    decreases samples.len(),
{
    if count >= STABILITY_THRESHOLD as nat {
        Some(candidate)
    } else if samples.len() == 0 {
        None
    } else if samples[0] == candidate {
        debounce_spec(candidate, count + 1, samples.skip(1))
    } else {
        debounce_spec(samples[0], 0, samples.skip(1))
    }
}

/// Debouncing state: the candidate level last sampled and how many
/// consecutive samples have confirmed it.
#[derive(Clone, Copy)]
pub struct Debouncer {
    pub candidate_level: bool,
    pub stable_count: u8,
}

impl Debouncer {
    /// The counter never runs past the threshold.
    pub open spec fn wf(&self) -> bool {
        self.stable_count <= STABILITY_THRESHOLD
    }

    /// The candidate level has survived the whole stability window.
    pub open spec fn is_stable_spec(&self) -> bool {
        self.stable_count >= STABILITY_THRESHOLD
    }

    /// A fresh debouncer that takes `initial_level` as its first candidate,
    /// not yet confirmed by any sample.
    pub fn new(initial_level: bool) -> (d: Debouncer)
        ensures
            d.candidate_level == initial_level,
            d.stable_count == 0,
            d.wf(),
    {
        Debouncer { candidate_level: initial_level, stable_count: 0 }
    }

    /// Feed one sample: a sample equal to the candidate confirms it once
    /// more, a differing one becomes the new candidate with the confirmation
    /// count reset to zero.
    pub fn sample(&mut self, level: bool)
        requires
            old(self).wf(),
            !old(self).is_stable_spec(),
        ensures
            final(self).wf(),
            final(self).candidate_level == level,
            final(self).stable_count == if level == old(self).candidate_level {
                old(self).stable_count + 1
            } else {
                0
            },
    {
        if level == self.candidate_level {
            self.stable_count = self.stable_count + 1;
        } else {
            self.candidate_level = level;
            self.stable_count = 0;
        }
    }

    /// Whether the candidate level has been electrically quiet for the whole
    /// stability window.
    pub fn is_stable(&self) -> (r: bool)
        ensures
            r == self.is_stable_spec(),
    {
        self.stable_count >= STABILITY_THRESHOLD
    }

    /// The event the settled level maps to.
    pub fn settled_event(&self) -> (e: Event)
        ensures
            e == event_for_level(self.candidate_level),
    {
        if self.candidate_level {
            Event::Released
        } else {
            Event::Pushed
        }
    }
}

/// Run the debouncing loop over a recorded trace of line samples, starting
/// from `initial_level`. Returns the level the line settled on, or `None` if
/// the trace ends while the line is still bouncing.
pub fn debounce_samples(initial_level: bool, samples: &Vec<bool>) -> (r: Option<bool>)
    ensures
        r == debounce_spec(initial_level, 0, samples@),
{
    let mut d = Debouncer::new(initial_level);
    let mut i: usize = 0;
    proof {
        assert(samples@.skip(0) =~= samples@);
    }
    while i < samples.len() && d.stable_count < STABILITY_THRESHOLD
        invariant
            i <= samples.len(),
            d.wf(),
            debounce_spec(initial_level, 0, samples@) == debounce_spec(
                d.candidate_level,
                d.stable_count as nat,
                samples@.skip(i as int),
            ),
        decreases samples.len() - i,
    {
        let level = samples[i];
        proof {
            assert(samples@.skip(i as int)[0] == samples@[i as int]);
            assert(samples@.skip(i as int).skip(1) =~= samples@.skip(i as int + 1));
        }
        d.sample(level);
        i = i + 1;
    }
    if d.is_stable() {
        Some(d.candidate_level)
    } else {
        proof {
            assert(samples@.skip(i as int) =~= Seq::<bool>::empty());
        }
        None
    }
}

/// The debouncer's state (candidate level and confirmation count) after
/// consuming a trace, stopping early if the trace settles.
pub open spec fn debounce_state_after(candidate: bool, count: nat, samples: Seq<bool>) -> (
    bool,
    nat,
)
    decreases samples.len(),
{
    if count >= STABILITY_THRESHOLD as nat || samples.len() == 0 {
        (candidate, count)
    } else if samples[0] == candidate {
        debounce_state_after(candidate, count + 1, samples.skip(1))
    } else {
        debounce_state_after(samples[0], 0, samples.skip(1))
    }
}

/// While a prefix has not settled, debouncing the whole trace factors through
/// the state the prefix leaves behind, and that state's count is still short
/// of the window.
proof fn lemma_debounce_split(candidate: bool, count: nat, prefix: Seq<bool>, rest: Seq<bool>)
    requires
        debounce_spec(candidate, count, prefix) is None,
    ensures
        debounce_spec(candidate, count, prefix + rest) == debounce_spec(
            debounce_state_after(candidate, count, prefix).0,
            debounce_state_after(candidate, count, prefix).1,
            rest,
        ),
        debounce_state_after(candidate, count, prefix).1 < STABILITY_THRESHOLD as nat,
    decreases prefix.len(),
{
    if count >= STABILITY_THRESHOLD as nat {
        assert(false);
    } else if prefix.len() == 0 {
        assert(prefix + rest =~= rest);
    } else {
        assert((prefix + rest)[0] == prefix[0]);
        assert((prefix + rest).skip(1) =~= prefix.skip(1) + rest);
        if prefix[0] == candidate {
            lemma_debounce_split(candidate, count + 1, prefix.skip(1), rest);
        } else {
            lemma_debounce_split(prefix[0], 0, prefix.skip(1), rest);
        }
    }
}

/// Once a trace has settled, whatever follows it cannot change the reported
/// level.
proof fn lemma_debounce_settled_prefix(
    candidate: bool,
    count: nat,
    prefix: Seq<bool>,
    rest: Seq<bool>,
)
    requires
        debounce_spec(candidate, count, prefix) is Some,
    ensures
        debounce_spec(candidate, count, prefix + rest) == debounce_spec(candidate, count, prefix),
    decreases prefix.len(),
{
    if count >= STABILITY_THRESHOLD as nat {
    } else if prefix.len() == 0 {
        assert(false);
    } else {
        assert((prefix + rest)[0] == prefix[0]);
        assert((prefix + rest).skip(1) =~= prefix.skip(1) + rest);
        if prefix[0] == candidate {
            lemma_debounce_settled_prefix(candidate, count + 1, prefix.skip(1), rest);
        } else {
            lemma_debounce_settled_prefix(prefix[0], 0, prefix.skip(1), rest);
        }
    }
}

/// A run of equal samples long enough to fill the stability window settles on
/// that level.
proof fn lemma_uniform_run_settles(candidate: bool, count: nat, samples: Seq<bool>, level: bool)
    requires
        forall|j: int| 0 <= j < samples.len() ==> samples[j] == level,
        candidate == level ==> count + samples.len() >= STABILITY_THRESHOLD as nat,
        candidate != level ==> count < STABILITY_THRESHOLD as nat && samples.len()
            > STABILITY_THRESHOLD as nat,
    ensures
        debounce_spec(candidate, count, samples) == Some(level),
    decreases samples.len(),
{
    if count >= STABILITY_THRESHOLD as nat {
        assert(candidate == level);
    } else {
        assert(samples.len() > 0);
        assert(samples[0] == level);
        assert forall|j: int| 0 <= j < samples.skip(1).len() implies samples.skip(1)[j]
            == level by {
            assert(samples.skip(1)[j] == samples[j + 1]);
        }
        if candidate == level {
            lemma_uniform_run_settles(candidate, count + 1, samples.skip(1), level);
        } else {
            lemma_uniform_run_settles(level, 0, samples.skip(1), level);
        }
    }
}

/// Law: a trace shorter than what is left of the stability window never
/// settles, so no event is emitted for it.
pub proof fn lemma_short_trace_no_event(candidate: bool, count: nat, samples: Seq<bool>)
    requires
        count + samples.len() < STABILITY_THRESHOLD as nat,
    ensures
        debounce_spec(candidate, count, samples) is None,
    decreases samples.len(),
{
    if samples.len() == 0 {
    } else if samples[0] == candidate {
        lemma_short_trace_no_event(candidate, count + 1, samples.skip(1));
    } else {
        lemma_short_trace_no_event(samples[0], 0, samples.skip(1));
    }
}

/// Law: however the line bounces, a trace shorter than the stability window
/// makes the poll emit nothing.
pub proof fn lemma_bounce_too_short_no_event(
    edge_pending: bool,
    initial_level: bool,
    samples: Seq<bool>,
)
    requires
        samples.len() < STABILITY_THRESHOLD as nat,
    ensures
        debounced_event_spec(edge_pending, initial_level, samples) is None,
{
    lemma_short_trace_no_event(initial_level, 0, samples);
}

/// Law: a trace that is still bouncing at some point `k` and from there holds
/// one level for a full stability window (the sample that sets the candidate
/// plus `STABILITY_THRESHOLD` confirmations) settles on that level, and the
/// poll maps it to exactly one event: `Pushed` for a low line, `Released` for
/// a high one.
pub proof fn lemma_settled_trace_one_event(
    initial_level: bool,
    samples: Seq<bool>,
    k: int,
    level: bool,
)
    requires
        0 <= k,
        k + STABILITY_THRESHOLD as int + 1 <= samples.len(),
        debounce_spec(initial_level, 0, samples.take(k)) is None,
        forall|j: int| k <= j < k + STABILITY_THRESHOLD as int + 1 ==> samples[j] == level,
    ensures
        debounce_spec(initial_level, 0, samples) == Some(level),
        debounced_event_spec(true, initial_level, samples) == Some(event_for_level(level)),
{
    let prefix = samples.take(k);
    let rest = samples.skip(k);
    assert(prefix + rest =~= samples);
    lemma_debounce_split(initial_level, 0, prefix, rest);
    let c = debounce_state_after(initial_level, 0, prefix).0;
    let n = debounce_state_after(initial_level, 0, prefix).1;
    let window = rest.take(STABILITY_THRESHOLD as int + 1);
    let tail = rest.skip(STABILITY_THRESHOLD as int + 1);
    assert(window + tail =~= rest);
    assert forall|j: int| 0 <= j < window.len() implies window[j] == level by {
        assert(window[j] == rest[j]);
        assert(rest[j] == samples[k + j]);
    }
    assert(window.len() == STABILITY_THRESHOLD as int + 1);
    lemma_uniform_run_settles(c, n, window, level);
    lemma_debounce_settled_prefix(c, n, window, tail);
}

/// Law: with no pending hardware edge the poll reports nothing, whatever
/// samples a trace would have offered — no sampling and no delay is needed.
pub proof fn lemma_poll_without_edge_is_none(initial_level: bool, samples: Seq<bool>)
    ensures
        debounced_event_spec(false, initial_level, samples) is None,
{
}

/// What one poll of the monitor reports: nothing unless a hardware edge is
/// pending, and otherwise the event the settled level maps to, once the trace
/// settles at all.
pub open spec fn debounced_event_spec(
    edge_pending: bool,
    initial_level: bool,
    samples: Seq<bool>,
) -> Option<Event> {
    if edge_pending {
        match debounce_spec(initial_level, 0, samples) {
            Some(level) => Some(event_for_level(level)),
            None => None,
        }
    } else {
        None
    }
}

/// The button monitor. It owns the edge-latch state: one sticky flag per edge
/// direction, raised by the pin hardware and cleared only on demand, both
/// directions together. The flags are monotonic between clears — recording an
/// edge never unsets the other flag.
pub struct Button {
    pushed: bool,
    released: bool,
}

impl Button {
    /// The push-edge flag (high-to-low transition seen since the last clear).
    pub closed spec fn pushed_latched(&self) -> bool {
        self.pushed
    }

    /// The release-edge flag (low-to-high transition seen since the last
    /// clear).
    pub closed spec fn released_latched(&self) -> bool {
        self.released
    }

    /// Whether any edge at all is pending (the toggle channel's view).
    pub open spec fn edge_pending(&self) -> bool {
        self.pushed_latched() || self.released_latched()
    }

    /// A fresh monitor with no edge pending.
    pub fn new() -> (b: Button)
        ensures
            !b.pushed_latched(),
            !b.released_latched(),
    {
        Button { pushed: false, released: false }
    }

    /// The hardware saw a high-to-low edge: latch it. The other flag is left
    /// as it was.
    pub fn record_push_edge(&mut self)
        ensures
            final(self).pushed_latched(),
            final(self).released_latched() == old(self).released_latched(),
    {
        self.pushed = true;
    }

    /// The hardware saw a low-to-high edge: latch it. The other flag is left
    /// as it was.
    pub fn record_release_edge(&mut self)
        ensures
            final(self).released_latched(),
            final(self).pushed_latched() == old(self).pushed_latched(),
    {
        self.released = true;
    }

    /// Latch-variant query: has a push edge been seen since the last clear?
    pub fn has_been_pushed(&self) -> (r: bool)
        ensures
            r == self.pushed_latched(),
    {
        self.pushed
    }

    /// Latch-variant query: has a release edge been seen since the last
    /// clear?
    pub fn has_been_released(&self) -> (r: bool)
        ensures
            r == self.released_latched(),
    {
        self.released
    }

    /// Clear both latched directions together (all-or-nothing).
    pub fn clear_events(&mut self)
        ensures
            !final(self).pushed_latched(),
            !final(self).released_latched(),
    {
        self.pushed = false;
        self.released = false;
    }

    /// Whether any edge is pending, as the polling loop sees it.
    pub fn is_event_triggered(&self) -> (r: bool)
        ensures
            r == self.edge_pending(),
    {
        self.pushed || self.released
    }

    /// Debounce-variant poll over a recorded trace of line samples. With no
    /// edge pending it reports nothing at once, touching neither the latch
    /// nor the trace. With an edge pending it debounces the trace; if the
    /// line settles, every edge that bounced in during the window is
    /// discarded (the latch is cleared) and the settled level is mapped to
    /// its event. A trace that ends while still bouncing reports nothing and
    /// leaves the edge pending.
    pub fn debounced_event(&mut self, initial_level: bool, samples: &Vec<bool>) -> (r: Option<
        Event,
    >)
        ensures
            r == debounced_event_spec(old(self).edge_pending(), initial_level, samples@),
            !old(self).edge_pending() ==> *final(self) == *old(self),
            old(self).edge_pending() && r is Some ==> !final(self).pushed_latched()
                && !final(self).released_latched(),
            old(self).edge_pending() && r is None ==> *final(self) == *old(self),
    {
        if self.is_event_triggered() {
            match debounce_samples(initial_level, samples) {
                Some(level) => {
                    self.clear_events();
                    Some(if level {
                        Event::Released
                    } else {
                        Event::Pushed
                    })
                },
                None => None,
            }
        } else {
            None
        }
    }
}

} // verus!
