use vstd::prelude::*;

verus! {

/// The largest duration that can be represented, in nanoseconds
/// (`u64::MAX` seconds and 999_999_999 nanoseconds).
pub const MAX_DURATION: u128 = 18_446_744_073_709_551_615_999_999_999;

/// The minimum resolution of the timers that the probe timeout feeds, in
/// nanoseconds (one millisecond).
pub const TIMER_GRANULARITY: u128 = 1_000_000;

/// The mathematical state of an [`RttEstimator`], in nanoseconds.
pub struct RttModel {
    pub latest: nat,
    pub smoothed: Option<nat>,
    pub var: nat,
    pub min: nat,
}

/// The model of an estimator that has seen no sample.
pub open spec fn initial_model() -> RttModel {
    RttModel { latest: 0, smoothed: None, var: 0, min: MAX_DURATION as nat }
}

/// Every duration of the model fits in a `Duration`.
pub open spec fn model_wf(m: RttModel) -> bool {
    &&& m.latest <= MAX_DURATION
    &&& m.var <= MAX_DURATION
    &&& m.min <= MAX_DURATION
    &&& (m.smoothed matches Some(s) ==> s <= MAX_DURATION)
}

/// `|a - b|` on naturals.
pub open spec fn abs_diff(a: nat, b: nat) -> nat {
    if a > b { (a - b) as nat } else { (b - a) as nat }
}

/// The RFC 6298 blend of a new sample into a smoothed value and a variance:
/// `var' = (3 var + |smoothed - sample|) / 4`, `smoothed' = (7 smoothed + sample) / 8`.
pub open spec fn blend(smoothed: nat, var: nat, sample: nat) -> (nat, nat) {
    ((7 * smoothed + sample) / 8, (3 * var + abs_diff(smoothed, sample)) / 4)
}

/// The state after one sample: `rtt` measured, `ack_delay` reported by the peer.
pub open spec fn update_model(m: RttModel, ack_delay: nat, rtt: nat) -> RttModel {
    let min = if rtt < m.min { rtt } else { m.min };
    let latest = if rtt - min > ack_delay { (rtt - ack_delay) as nat } else { rtt };
    match m.smoothed {
        None => RttModel { latest, smoothed: Some(latest), var: latest / 2, min },
        Some(s) => RttModel {
            latest,
            smoothed: Some(blend(s, m.var, latest).0),
            var: blend(s, m.var, latest).1,
            min,
        },
    }
}

/// The conservative current round-trip time: the larger of the smoothed and
/// the latest value, or the latest alone before any sample.
pub open spec fn rtt_of(m: RttModel) -> nat {
    match m.smoothed {
        None => m.latest,
        Some(s) => if s > m.latest { s } else { m.latest },
    }
}

/// The probe timeout base: `smoothed + max(4 var, granularity)`, once a sample exists.
pub open spec fn pto_of(m: RttModel) -> Option<nat> {
    match m.smoothed {
        None => None,
        Some(s) => Some(
            s + if 4 * m.var > TIMER_GRANULARITY { 4 * m.var } else { TIMER_GRANULARITY as nat },
        ),
    }
}

/// The state after the samples `(ack_delay, rtt)` of `samples`, in order.
pub open spec fn update_all(m: RttModel, samples: Seq<(nat, nat)>) -> RttModel
    decreases samples.len(),
{
    if samples.len() == 0 {
        m
    } else {
        let (ack_delay, rtt) = samples.last();
        update_model(update_all(m, samples.drop_last()), ack_delay, rtt)
    }
}

/// Along any sequence of samples the minimum never increases: after the
/// first `j` samples it is at most what it was after the first `i <= j`.
/// (It is a natural number, so it is never negative.)
pub proof fn lemma_min_non_increasing(m: RttModel, samples: Seq<(nat, nat)>, i: int, j: int)
    requires
        0 <= i <= j <= samples.len(),
    ensures
        update_all(m, samples.take(j)).min <= update_all(m, samples.take(i)).min,
    decreases j - i,
{
    if i < j {
        lemma_min_non_increasing(m, samples, i, j - 1);
        assert(samples.take(j).drop_last() == samples.take(j - 1));
    }
}

/// From a fresh estimator, the probe timeout base is `None` exactly until
/// the first sample, and is at least `TIMER_GRANULARITY` from then on.
pub proof fn lemma_pto_after_samples(samples: Seq<(nat, nat)>)
    ensures
        pto_of(update_all(initial_model(), samples)) is None <==> samples.len() == 0,
        pto_of(update_all(initial_model(), samples)) matches Some(p) ==> p >= TIMER_GRANULARITY,
{
}

/// Round-trip-time estimator after RFC 6298.
#[derive(Clone, Copy, Debug)]
pub struct RttEstimator {
    /// The most recent measurement, taken on an ack for a previously unacked packet.
    latest: u128,
    /// The smoothed round-trip time; `None` until the first sample.
    smoothed: Option<u128>,
    /// The round-trip-time variance.
    var: u128,
    /// The minimum round-trip time seen, ignoring ack delay.
    min: u128,
}

impl View for RttEstimator {
    type V = RttModel;

    closed spec fn view(&self) -> RttModel {
        RttModel {
            latest: self.latest as nat,
            smoothed: match self.smoothed {
                None => None,
                Some(s) => Some(s as nat),
            },
            var: self.var as nat,
            min: self.min as nat,
        }
    }
}

impl RttEstimator {
    /// The estimator holds only durations that fit in a `Duration`.
    pub open spec fn wf(&self) -> bool {
        model_wf(self@)
    }

    /// An estimator that has seen no sample: the minimum starts at the
    /// largest duration, so that the first sample lowers it.
    pub fn new() -> (r: Self)
        ensures
            r@ == initial_model(),
            r.wf(),
    {
        RttEstimator { latest: 0, smoothed: None, var: 0, min: MAX_DURATION }
    }

    /// Records a sample: `rtt` is the measured round trip of an ack for a
    /// previously unacked packet, `ack_delay` the delay that the peer reports
    /// holding that ack. The ack delay is taken off only where the sample
    /// exceeds the minimum by more than it.
    pub fn update(&mut self, ack_delay: u128, rtt: u128)
        requires
            old(self).wf(),
            ack_delay <= MAX_DURATION,
            rtt <= MAX_DURATION,
        ensures
            final(self).wf(),
            final(self)@ == update_model(old(self)@, ack_delay as nat, rtt as nat),
            final(self)@.min <= old(self)@.min,
            old(self)@.smoothed is None ==> final(self)@.smoothed == Some(final(self)@.latest)
                && final(self)@.var == final(self)@.latest / 2,
    {
        self.latest = rtt;
        // The minimum ignores ack delay.
        if self.latest < self.min {
            self.min = self.latest;
        }
        // Take the ack delay off only where it is plausible.
        if self.latest - self.min > ack_delay {
            self.latest = self.latest - ack_delay;
        }
        match self.smoothed {
            Some(smoothed) => {
                let (new_smoothed, new_var) = smooth(smoothed, self.var, self.latest);
                self.var = new_var;
                self.smoothed = Some(new_smoothed);
            },
            None => {
                self.smoothed = Some(self.latest);
                self.var = self.latest / 2;
            },
        }
    }

    /// The conservative current estimate: the larger of the smoothed and the
    /// latest round-trip time, or the latest alone before any sample.
    pub fn get(&self) -> (r: u128)
        requires
            self.wf(),
        ensures
            r as nat == rtt_of(self@),
    {
        match self.smoothed {
            None => self.latest,
            Some(s) => if s > self.latest { s } else { self.latest },
        }
    }

    /// The probe timeout base, `smoothed + max(4 var, TIMER_GRANULARITY)`, or
    /// `None` before the first sample.
    pub fn pto_base(&self) -> (r: Option<u128>)
        requires
            self.wf(),
        ensures
            r is None <==> self@.smoothed is None,
            r matches Some(p) ==> pto_of(self@) == Some(p as nat) && p >= TIMER_GRANULARITY,
    {
        match self.smoothed {
            None => None,
            Some(srtt) => {
                let four_var: u128 = 4 * self.var;
                let floor: u128 = if four_var > TIMER_GRANULARITY { four_var } else { TIMER_GRANULARITY };
                Some(srtt + floor)
            },
        }
    }

    /// The most recent sample, after any ack delay was taken off.
    pub fn latest(&self) -> (r: u128)
        ensures
            r as nat == self@.latest,
    {
        self.latest
    }

    /// The smoothed round-trip time, if a sample was recorded.
    pub fn smoothed(&self) -> (r: Option<u128>)
        ensures
            r is None <==> self@.smoothed is None,
            r matches Some(s) ==> self@.smoothed == Some(s as nat),
    {
        self.smoothed
    }

    /// The round-trip-time variance.
    pub fn var(&self) -> (r: u128)
        ensures
            r as nat == self@.var,
    {
        self.var
    }

    /// The minimum round-trip time seen.
    pub fn min(&self) -> (r: u128)
        ensures
            r as nat == self@.min,
    {
        self.min
    }
}

/// One RFC 6298 step on nanosecond counts: returns the new smoothed value
/// and the new variance after blending in `sample`.
pub fn smooth(smoothed: u128, var: u128, sample: u128) -> (r: (u128, u128))
    requires
        smoothed <= MAX_DURATION,
        var <= MAX_DURATION,
        sample <= MAX_DURATION,
    ensures
        r.0 as nat == blend(smoothed as nat, var as nat, sample as nat).0,
        r.1 as nat == blend(smoothed as nat, var as nat, sample as nat).1,
        r.0 <= MAX_DURATION,
        r.1 <= MAX_DURATION,
{
    let var_sample: u128 = if smoothed > sample {
        smoothed - sample
    } else {
        sample - smoothed
    };
    let new_var: u128 = (3 * var + var_sample) / 4;
    let new_smoothed: u128 = (7 * smoothed + sample) / 8;
    (new_smoothed, new_var)
}

} // verus!
