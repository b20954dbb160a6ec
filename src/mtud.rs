use vstd::prelude::*;

use crate::addr::{header_size, header_size_of, RemoteAddr};

verus! {

/// The MTU that a path is assumed to carry before any probe succeeded.
pub const BASE_PLPMTU: u16 = 1280;

/// The largest MTU there is; once confirmed, nothing larger is probed.
pub const MAX_PLPMTU: u16 = 65535;

/// Consecutive losses at one probe size after which the search ends.
pub const MAX_PROBES: usize = 3;

/// The phase of the search; `Complete` is terminal.
#[derive(Clone, Copy, Debug, PartialEq, Eq, Structural)]
pub enum Phase {
    Searching,
    Complete,
}

/// The datagram sizes that are probed, in ascending order.
pub open spec fn probe_levels() -> Seq<u16> {
    seq![1350u16, 1400u16, 1450u16, 1500u16]
}

/// The first entry of `probe_levels()`, from index `i` on, that is strictly
/// greater than `bound`.
pub open spec fn level_above_from(i: int, bound: int) -> Option<u16>
    decreases probe_levels().len() - i,
{
    if i < 0 || i >= probe_levels().len() {
        None
    } else if probe_levels()[i] > bound {
        Some(probe_levels()[i])
    } else {
        level_above_from(i + 1, bound)
    }
}

/// The first probe size strictly greater than `bound`, if any.
pub open spec fn level_above(bound: int) -> Option<u16> {
    level_above_from(0, bound)
}

/// The state of a [`MtuDiscovery`].
pub struct MtuModel {
    pub header_size: u16,
    pub current: u16,
    pub probe_number: Option<u64>,
    pub probe_size: Option<u16>,
    pub probe_count: usize,
    pub phase: Phase,
}

/// The state in which discovery starts on a path to `remote`.
pub open spec fn fresh_model(remote: RemoteAddr) -> MtuModel {
    MtuModel {
        header_size: header_size_of(remote),
        current: BASE_PLPMTU,
        probe_number: None,
        probe_size: None,
        probe_count: 0,
        phase: Phase::Searching,
    }
}

/// The states that discovery can reach: a probe in flight has a size and is
/// sent while searching, below the loss limit; a selected size lies above
/// the current MTU plus the header.
pub open spec fn mtu_wf(m: MtuModel) -> bool {
    &&& m.header_size == 20 || m.header_size == 48
    &&& m.current >= BASE_PLPMTU
    &&& m.current + m.header_size <= 1500
    &&& m.probe_count <= MAX_PROBES
    &&& (m.phase == Phase::Searching ==> m.probe_count < MAX_PROBES)
    &&& (m.probe_size matches Some(p) ==> m.current + m.header_size < p <= 1500)
    &&& (m.probe_number is Some ==> m.probe_size is Some && m.phase == Phase::Searching)
}

/// What `poll_transmit(n)` does: the new state and the size to probe, if any.
pub open spec fn poll_model(m: MtuModel, n: u64) -> (MtuModel, Option<u16>) {
    if m.probe_number is Some || m.phase == Phase::Complete {
        (m, None)
    } else {
        match m.probe_size {
            Some(p) => (MtuModel { probe_number: Some(n), ..m }, Some(p)),
            None => match level_above(m.current + m.header_size) {
                None => (MtuModel { phase: Phase::Complete, ..m }, None),
                Some(p) => (MtuModel { probe_number: Some(n), probe_size: Some(p), ..m }, Some(p)),
            },
        }
    }
}

/// What `acked(n)` does: on the outstanding probe, the probed size less the
/// header becomes the current MTU and the next size starts afresh.
pub open spec fn acked_model(m: MtuModel, n: u64) -> MtuModel {
    if m.probe_number == Some(n) && m.probe_size is Some {
        let current = (m.probe_size.unwrap() - m.header_size) as u16;
        MtuModel {
            current,
            probe_number: None,
            probe_size: None,
            probe_count: 0,
            phase: if current == MAX_PLPMTU { Phase::Complete } else { m.phase },
            ..m
        }
    } else {
        m
    }
}

/// What `lost(n)` does: on the outstanding probe, one more loss is counted;
/// at `MAX_PROBES` the size is dropped and the search ends.
pub open spec fn lost_model(m: MtuModel, n: u64) -> MtuModel {
    if m.probe_number == Some(n) {
        let count = (m.probe_count + 1) as usize;
        if count == MAX_PROBES {
            MtuModel { probe_number: None, probe_count: count, probe_size: None, phase: Phase::Complete, ..m }
        } else {
            MtuModel { probe_number: None, probe_count: count, ..m }
        }
    } else {
        m
    }
}

/// The state and the answers after `poll_transmit` is called with each
/// packet number of `numbers`, in order, with no ack or loss between.
pub open spec fn poll_all(m: MtuModel, numbers: Seq<u64>) -> (MtuModel, Seq<Option<u16>>)
    decreases numbers.len(),
{
    if numbers.len() == 0 {
        (m, Seq::empty())
    } else {
        let (before, answers) = poll_all(m, numbers.drop_last());
        let (after, r) = poll_model(before, numbers.last());
        (after, answers.push(r))
    }
}

/// No size is returned while a probe is in flight, and whatever the first
/// call returned, a second call with no ack or loss between returns `None`.
pub proof fn lemma_poll_twice(m: MtuModel, n1: u64, n2: u64)
    requires
        mtu_wf(m),
    ensures
        m.probe_number is Some ==> poll_model(m, n1) == (m, None::<u16>),
        poll_model(poll_model(m, n1).0, n2).1 is None,
{
    lemma_level_above_from(0, m.current + m.header_size);
}

/// Where every level lies at or below `current + header_size`, the next poll
/// with no size selected completes the search and returns `None`.
pub proof fn lemma_levels_exhausted(m: MtuModel, n: u64)
    requires
        mtu_wf(m),
        m.phase == Phase::Searching,
        m.probe_number is None,
        m.probe_size is None,
        m.current + m.header_size >= 1500,
    ensures
        poll_model(m, n) == (MtuModel { phase: Phase::Complete, ..m }, None::<u16>),
{
    reveal_with_fuel(level_above_from, 5);
}

/// A completed search stays as it is: every later poll returns `None` and
/// changes nothing, and every ack or loss changes nothing.
pub proof fn lemma_complete_is_final(m: MtuModel, numbers: Seq<u64>, n: u64)
    requires
        mtu_wf(m),
        m.phase == Phase::Complete,
    ensures
        poll_all(m, numbers) == (m, Seq::new(numbers.len(), |i: int| None::<u16>)),
        acked_model(m, n) == m,
        lost_model(m, n) == m,
    decreases numbers.len(),
{
    if numbers.len() > 0 {
        lemma_complete_is_final(m, numbers.drop_last(), n);
        assert(Seq::new((numbers.len() - 1) as nat, |i: int| None::<u16>).push(None::<u16>)
            =~= Seq::new(numbers.len(), |i: int| None::<u16>));
    }
}

/// Three probes at one size, each lost with no ack between, starting where
/// no loss was yet counted, complete the search and leave the current MTU
/// as it was.
pub proof fn lemma_three_losses(m: MtuModel, n1: u64, n2: u64, n3: u64)
    requires
        mtu_wf(m),
        m.probe_number is None,
        m.probe_count == 0,
    ensures
        ({
            let m1 = lost_model(poll_model(m, n1).0, n1);
            let m2 = lost_model(poll_model(m1, n2).0, n2);
            let m3 = lost_model(poll_model(m2, n3).0, n3);
            m3.phase == Phase::Complete && m3.current == m.current
        }),
{
}

/// Datagram packetization layer path MTU discovery, search phase.
#[derive(Debug)]
pub struct MtuDiscovery {
    header_size: u16,
    /// The largest MTU confirmed on the path.
    pub current: u16,
    /// The packet number of the probe in flight.
    probe_number: Option<u64>,
    /// The size being probed.
    probe_size: Option<u16>,
    /// Consecutive losses at the size being probed.
    probe_count: usize,
    phase: Phase,
}

impl View for MtuDiscovery {
    type V = MtuModel;

    closed spec fn view(&self) -> MtuModel {
        MtuModel {
            header_size: self.header_size,
            current: self.current,
            probe_number: self.probe_number,
            probe_size: self.probe_size,
            probe_count: self.probe_count,
            phase: self.phase,
        }
    }
}

impl MtuDiscovery {
    /// The states that discovery can reach (see [`mtu_wf`]).
    pub open spec fn wf(&self) -> bool {
        mtu_wf(self@)
    }

    /// Discovery at its start on a path to `remote`: searching from
    /// `BASE_PLPMTU`, with the header size of the address family.
    pub fn new(remote: &RemoteAddr) -> (r: Self)
        ensures
            r@ == fresh_model(*remote),
            r.wf(),
    {
        MtuDiscovery {
            header_size: header_size(remote),
            current: BASE_PLPMTU,
            probe_number: None,
            probe_size: None,
            probe_count: 0,
            phase: Phase::Searching,
        }
    }

    /// Asks whether the packet numbered `next_packet_number` should be a
    /// probe, and of which size. At most one probe is in flight; none is
    /// sent once the search is complete. With no size selected, the first
    /// level above `current + header_size` is selected; where there is none,
    /// the search completes.
    pub fn poll_transmit(&mut self, next_packet_number: u64) -> (r: Option<u16>)
        requires
            old(self).wf(),
        ensures
            final(self).wf(),
            (final(self)@, r) == poll_model(old(self)@, next_packet_number),
            old(self)@.probe_number is Some ==> r is None && final(self)@ == old(self)@,
            r is Some ==> final(self)@.probe_number == Some(next_packet_number),
            final(self)@.current == old(self)@.current,
    {
        if self.probe_number.is_some() {
            return None;
        } else if let Phase::Complete = self.phase {
            return None;
        }
        if self.probe_size.is_none() {
            match first_level_above(self.current + self.header_size) {
                Some(v) => {
                    self.probe_size = Some(v);
                },
                None => {
                    self.phase = Phase::Complete;
                    return None;
                },
            }
        }
        self.probe_number = Some(next_packet_number);
        self.probe_size
    }

    /// Handles the acknowledgment of packet `number`. Only the probe in
    /// flight counts: its size less the header becomes the current MTU.
    pub fn acked(&mut self, number: u64)
        requires
            old(self).wf(),
        ensures
            final(self).wf(),
            final(self)@ == acked_model(old(self)@, number),
            old(self)@.probe_number != Some(number) ==> final(self)@ == old(self)@,
            final(self)@.current >= old(self)@.current,
    {
        match self.probe_number {
            Some(probed) => if probed != number {
                return;
            },
            None => return,
        }
        self.probe_number = None;
        let new = self.probe_size.unwrap();
        self.probe_size = None;
        self.probe_count = 0;
        self.current = new - self.header_size;
        if self.current == MAX_PLPMTU {
            self.phase = Phase::Complete;
        }
    }

    /// Handles the loss of packet `number`. Only the probe in flight counts:
    /// after `MAX_PROBES` consecutive losses at one size, the search ends at
    /// the current MTU.
    pub fn lost(&mut self, number: u64)
        requires
            old(self).wf(),
        ensures
            final(self).wf(),
            final(self)@ == lost_model(old(self)@, number),
            old(self)@.probe_number != Some(number) ==> final(self)@ == old(self)@,
            final(self)@.current == old(self)@.current,
    {
        match self.probe_number {
            Some(probed) => if probed != number {
                return;
            },
            None => return,
        }
        self.probe_number = None;
        self.probe_count += 1;
        if self.probe_count == MAX_PROBES {
            self.probe_size = None;
            self.phase = Phase::Complete;
        }
    }

    /// The per-datagram overhead assumed on this path.
    pub fn header_size(&self) -> (r: u16)
        ensures
            r == self@.header_size,
    {
        self.header_size
    }

    /// The packet number of the probe in flight, if any.
    pub fn probe_number(&self) -> (r: Option<u64>)
        ensures
            r == self@.probe_number,
    {
        self.probe_number
    }

    /// The size selected for probing, if any.
    pub fn probe_size(&self) -> (r: Option<u16>)
        ensures
            r == self@.probe_size,
    {
        self.probe_size
    }

    /// Consecutive losses at the size selected for probing.
    pub fn probe_count(&self) -> (r: usize)
        ensures
            r == self@.probe_count,
    {
        self.probe_count
    }

    /// The phase of the search.
    pub fn phase(&self) -> (r: Phase)
        ensures
            r == self@.phase,
    {
        self.phase
    }
}

proof fn lemma_level_above_from(i: int, bound: int)
    requires
        0 <= i,
    ensures
        level_above_from(i, bound) matches Some(p) ==> bound < p <= 1500 && 1350 <= p,
        level_above_from(i, bound) is None && i < probe_levels().len() ==> bound >= 1500,
    decreases probe_levels().len() - i,
{
    if i < probe_levels().len() && probe_levels()[i] <= bound {
        lemma_level_above_from(i + 1, bound);
    }
}

/// The first probe size strictly greater than `bound`.
fn first_level_above(bound: u16) -> (r: Option<u16>)
    ensures
        r == level_above(bound as int),
        r matches Some(p) ==> bound < p <= 1500,
        r is None ==> bound >= 1500,
{
    proof {
        lemma_level_above_from(0, bound as int);
    }
    let levels: [u16; 4] = [1350, 1400, 1450, 1500];
    assert(levels@ == probe_levels());
    let mut i: usize = 0;
    while i < 4
        invariant
            0 <= i <= 4,
            levels@ == probe_levels(),
            level_above_from(0, bound as int) == level_above_from(i as int, bound as int),
        decreases 4 - i,
    {
        if levels[i] > bound {
            return Some(levels[i]);
        }
        i += 1;
    }
    None
}

} // verus!
