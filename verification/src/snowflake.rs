//! The id generator: a pair (last timestamp, sequence) that every pass reads
//! and replaces as one.
//!
//! The generator is a plain value and its passes take `&mut self`: exclusive
//! access is what publishes the pair atomically, and Rust's borrow rules
//! give it. Callers that share one generator between threads put it behind
//! a lock; that serialises them, where a compare-and-swap on the pair would
//! let them race and retry, and it keeps every pass a function of the state
//! and the clock alone.
//!
//! A call for an id may have to wait for the clock. Sleeping is the caller's
//! business: a pass never blocks. It issues an id or answers `Step::Wait`,
//! and it keeps the call's `Phase`, so that the caller has nothing to decide:
//! it sleeps after `Step::Wait` and makes the next pass.

use crate::clock::current_timestamp;
use crate::layout::compose;
use crate::layout::compose_spec;
use crate::layout::lemma_compose_order;
use crate::layout::lemma_parse_of_compose;
use crate::layout::parse;
use crate::layout::parse_spec;
use crate::layout::precedes;
use crate::layout::MAX_MACHINE_ID;
use crate::layout::MAX_SEQUENCE;
use crate::layout::TIMESTAMP_LIMIT;
use vstd::prelude::*;
use vstd::string::StringExecFns;

verus! {

/// Where a call for an id stands. A call begins in `Phase::Fresh`; its
/// passes keep the phase from there.
#[derive(Clone, Copy, Debug, PartialEq, Eq, Structural)]
pub enum Phase {
    /// The call makes its first pass, or the first pass for its next id.
    Fresh,
    /// An earlier pass of this call answered `Step::Wait`: the call issues
    /// nothing until the clock has passed the last timestamp.
    Waiting,
}

/// What one pass tells its caller.
#[derive(Debug, PartialEq, Eq)]
pub enum Step<T> {
    /// The pass issued this.
    Issued(T),
    /// The clock is behind the last timestamp, or the millisecond is used
    /// up: sleep briefly and make another pass.
    Wait,
    /// The clock stands before the Unix epoch. There is no other clock.
    ClockFailed,
}

/// The machine id does not fit its field.
#[derive(Clone, Copy, Debug, PartialEq, Eq, Structural)]
pub struct InvalidWorkerId {
    /// The id that was refused.
    pub worker_id: u64,
}

/// The message of `InvalidWorkerId`.
pub open spec fn invalid_worker_id_spec() -> Seq<char> {
    "Machine ID 超出范围 (0-1023)"@
}

impl InvalidWorkerId {
    /// The error in words.
    pub fn message(&self) -> (text: String)
        ensures
            text@ == invalid_worker_id_spec(),
    {
        String::from_str("Machine ID 超出范围 (0-1023)")
    }
}

/// A generator's state as a mathematical value.
pub struct State {
    /// The machine id that every id carries.
    pub machine_id: u64,
    /// The millisecond of the id issued last; 0 before the first.
    pub last_timestamp: u64,
    /// The sequence number of the id issued last; 0 before the first.
    pub sequence: u64,
}

impl State {
    /// The state of a generator that has issued nothing.
    pub open spec fn fresh(machine_id: u64) -> State {
        State { machine_id, last_timestamp: 0, sequence: 0 }
    }

    /// Both small fields fit.
    pub open spec fn wf(self) -> bool {
        self.machine_id <= MAX_MACHINE_ID && self.sequence <= MAX_SEQUENCE
    }

    /// The id made of the state's own fields: the id issued last, once one
    /// has been issued.
    pub open spec fn high_water(self) -> u64 {
        compose_spec(self.last_timestamp, self.machine_id, self.sequence)
    }

    /// The pair (timestamp, sequence) that a pass publishes when the clock
    /// reads `now`, or `None` where the call has to wait.
    ///
    /// A later millisecond starts at sequence 0. The same millisecond takes
    /// the next sequence number while there is one, on a first pass only: a
    /// call that waits, waits until the clock has passed the last timestamp.
    pub open spec fn plan(self, phase: Phase, now: u64) -> Option<(u64, u64)> {
        if now > self.last_timestamp {
            Some((now, 0u64))
        } else if now == self.last_timestamp && phase == Phase::Fresh && self.sequence
            < MAX_SEQUENCE {
            Some((now, (self.sequence + 1) as u64))
        } else {
            None
        }
    }

    /// The state that a pass leaves.
    pub open spec fn after(self, phase: Phase, now: u64) -> State {
        match self.plan(phase, now) {
            Some((timestamp, sequence)) => State {
                machine_id: self.machine_id,
                last_timestamp: timestamp,
                sequence,
            },
            None => self,
        }
    }

    /// The phase that a pass leaves the call in: waiting where it issued
    /// nothing, ready for the next id where it issued one.
    pub open spec fn phase_after(self, phase: Phase, now: u64) -> Phase {
        match self.plan(phase, now) {
            Some(_) => Phase::Fresh,
            None => Phase::Waiting,
        }
    }

    /// The id that a pass issues, if it issues one.
    pub open spec fn issued(self, phase: Phase, now: u64) -> Option<u64> {
        match self.plan(phase, now) {
            Some((timestamp, sequence)) => Some(compose_spec(timestamp, self.machine_id, sequence)),
            None => None,
        }
    }
}

/// What a single pass does to a well-formed state.
///
/// The state stays well formed, keeps its machine id, and its last
/// timestamp never decreases. A pass that issues nothing changes nothing. A
/// pass that finds the clock beyond the last timestamp issues an id and
/// starts the sequence again at 0. A pass that issues an id moves the pair
/// (last timestamp, sequence) forward, to the clock reading; the id holds
/// the machine id and the new sequence number; and where the reading fits
/// the timestamp field, the id holds the reading and is greater than the id
/// of the state before.
pub proof fn lemma_pass(s: State, phase: Phase, now: u64)
    requires
        s.wf(),
    ensures
        s.after(phase, now).wf(),
        s.after(phase, now).machine_id == s.machine_id,
        s.after(phase, now).last_timestamp >= s.last_timestamp,
        s.issued(phase, now) is None ==> s.after(phase, now) == s,
        now > s.last_timestamp ==> s.issued(phase, now) is Some && s.after(phase, now).sequence
            == 0,
        s.issued(phase, now) matches Some(id) ==> ({
            &&& s.after(phase, now).high_water() == id
            &&& s.after(phase, now).last_timestamp == now
            &&& precedes(
                s.last_timestamp,
                s.sequence,
                s.after(phase, now).last_timestamp,
                s.after(phase, now).sequence,
            )
            &&& parse_spec(id).1 == s.machine_id
            &&& parse_spec(id).2 == s.after(phase, now).sequence
            &&& now < TIMESTAMP_LIMIT ==> parse_spec(id).0 == now && id > s.high_water()
        }),
{
    let t = s.after(phase, now);
    if s.issued(phase, now) is Some {
        lemma_parse_of_compose(t.last_timestamp, t.machine_id, t.sequence);
        if now < TIMESTAMP_LIMIT {
            lemma_compose_order(
                s.last_timestamp,
                s.sequence,
                t.last_timestamp,
                t.sequence,
                s.machine_id,
            );
        }
    }
}

/// A millisecond holds 4096 ids and no more: once sequence number 4095 is
/// out, no pass issues anything while the clock stays on that millisecond,
/// and the first pass that finds the clock beyond it issues that later
/// millisecond's id number 0.
pub proof fn lemma_rollover(s: State, phase: Phase, now: u64)
    requires
        s.wf(),
        s.sequence == MAX_SEQUENCE,
    ensures
        now <= s.last_timestamp ==> s.issued(phase, now) is None && s.after(phase, now) == s,
        now > s.last_timestamp ==> s.issued(phase, now) == Some(
            compose_spec(now, s.machine_id, 0),
        ) && s.after(phase, now).sequence == 0 && s.after(phase, now).last_timestamp == now,
{
}

/// A clock that has fallen behind the last timestamp stops the generator:
/// no pass issues anything until the clock has caught up, and a call that
/// has begun to wait issues nothing until the clock has passed the last
/// timestamp.
pub proof fn lemma_clock_regression(s: State, phase: Phase, now: u64)
    ensures
        now < s.last_timestamp ==> s.issued(phase, now) is None,
        phase == Phase::Waiting ==> (s.issued(phase, now) is Some <==> now > s.last_timestamp),
{
}

/// One pass as a value: the phase of the call that makes it, and what the
/// clock read.
pub struct Pass {
    /// Where the call stood.
    pub phase: Phase,
    /// The clock reading.
    pub now: u64,
}

impl State {
    /// The state after a series of passes, made one after the other.
    pub open spec fn run(self, passes: Seq<Pass>) -> State
        decreases passes.len(),
    {
        if passes.len() == 0 {
            self
        } else {
            self.run(passes.drop_last()).after(passes.last().phase, passes.last().now)
        }
    }

    /// The ids that a series of passes issues, in the order of issue.
    pub open spec fn ids(self, passes: Seq<Pass>) -> Seq<u64>
        decreases passes.len(),
    {
        if passes.len() == 0 {
            Seq::empty()
        } else {
            let before = self.ids(passes.drop_last());
            match self.run(passes.drop_last()).issued(passes.last().phase, passes.last().now) {
                Some(id) => before.push(id),
                None => before,
            }
        }
    }
}

/// Every clock reading of the series fits the timestamp field.
pub open spec fn readings_fit(passes: Seq<Pass>) -> bool {
    forall|i: int| 0 <= i < passes.len() ==> (#[trigger] passes[i]).now < TIMESTAMP_LIMIT
}

/// What a series of passes does to a well-formed state.
///
/// The state stays well formed and keeps its machine id; its last timestamp
/// never decreases and is no less than any of the clock readings; a series
/// that issues nothing changes nothing. A generator whose last timestamp
/// fits the timestamp field keeps it so while the clock readings fit.
pub proof fn lemma_run(s: State, passes: Seq<Pass>)
    requires
        s.wf(),
    ensures
        s.run(passes).wf(),
        s.run(passes).machine_id == s.machine_id,
        s.run(passes).last_timestamp >= s.last_timestamp,
        forall|i: int|
            0 <= i < passes.len() ==> (#[trigger] passes[i]).now <= s.run(passes).last_timestamp,
        s.ids(passes).len() <= passes.len(),
        s.ids(passes).len() == 0 ==> s.run(passes) == s,
        s.ids(passes).len() > 0 ==> s.run(passes).high_water() == s.ids(passes).last(),
        forall|i: int|
            0 <= i < s.ids(passes).len() ==> parse_spec(#[trigger] s.ids(passes)[i]).1
                == s.machine_id,
        readings_fit(passes) && s.last_timestamp < TIMESTAMP_LIMIT ==> s.run(
            passes,
        ).last_timestamp < TIMESTAMP_LIMIT,
    decreases passes.len(),
{
    if passes.len() > 0 {
        let earlier = passes.drop_last();
        lemma_run(s, earlier);
        lemma_pass(s.run(earlier), passes.last().phase, passes.last().now);
        assert forall|i: int| 0 <= i < passes.len() implies (#[trigger] passes[i]).now <= s.run(
            passes,
        ).last_timestamp by {
            if i < earlier.len() {
                assert(earlier[i] == passes[i]);
            }
        }
        let all = s.ids(passes);
        let before = s.ids(earlier);
        assert forall|i: int| 0 <= i < all.len() implies parse_spec(#[trigger] all[i]).1
            == s.machine_id by {
            if i < before.len() {
                assert(all[i] == before[i]);
            }
        }
        if readings_fit(passes) {
            assert forall|i: int| 0 <= i < earlier.len() implies (#[trigger] earlier[i]).now
                < TIMESTAMP_LIMIT by {
                assert(earlier[i] == passes[i]);
            }
        }
    }
}

/// The ids of one generator increase strictly in the order of issue,
/// whatever the clock does between the passes (stand still, jump ahead or
/// fall back) and whichever calls the passes belong to, one caller's or
/// those of many callers taking turns, as long as the generator's last
/// timestamp fits the timestamp field. So no two of them are equal, and all
/// of them are greater than the id of the state that the series began in.
pub proof fn lemma_ids_increase(s: State, passes: Seq<Pass>)
    requires
        s.wf(),
        s.run(passes).last_timestamp < TIMESTAMP_LIMIT,
    ensures
        forall|i: int| 0 <= i < s.ids(passes).len() ==> #[trigger] s.ids(passes)[i] > s.high_water(),
        forall|i: int, j: int|
            0 <= i < j < s.ids(passes).len() ==> #[trigger] s.ids(passes)[i] < #[trigger] s.ids(
                passes,
            )[j],
        forall|i: int, j: int|
            0 <= i < s.ids(passes).len() && 0 <= j < s.ids(passes).len() && i != j
                ==> #[trigger] s.ids(passes)[i] != #[trigger] s.ids(passes)[j],
    decreases passes.len(),
{
    if passes.len() > 0 {
        let earlier = passes.drop_last();
        let middle = s.run(earlier);
        let before = s.ids(earlier);
        lemma_run(s, earlier);
        lemma_pass(middle, passes.last().phase, passes.last().now);
        lemma_ids_increase(s, earlier);
        let all = s.ids(passes);
        assert forall|i: int, j: int| 0 <= i < j < all.len() implies #[trigger] all[i]
            < #[trigger] all[j] by {
            if j < before.len() {
                assert(all[i] == before[i] && all[j] == before[j]);
            } else {
                assert(all[i] == before[i]);
                assert(before[i] <= before.last());
            }
        }
    }
}

/// A Snowflake id generator: 1 reserved bit, 41 bits of timestamp, 10 bits
/// of machine id, 12 bits of sequence.
pub struct Snowflake {
    machine_id: u64,
    sequence: u64,
    last_timestamp: u64,
}

impl View for Snowflake {
    type V = State;

    closed spec fn view(&self) -> State {
        State {
            machine_id: self.machine_id,
            last_timestamp: self.last_timestamp,
            sequence: self.sequence,
        }
    }
}

impl Snowflake {
    #[verifier::type_invariant]
    spec fn inv(self) -> bool {
        self.machine_id <= MAX_MACHINE_ID && self.sequence <= MAX_SEQUENCE
    }

    /// A generator for the machine `machine_id`, which must be at most 1023.
    pub fn new(machine_id: u64) -> (made: Result<Self, InvalidWorkerId>)
        ensures
            match made {
                Ok(generator) => machine_id <= MAX_MACHINE_ID && generator@ == State::fresh(
                    machine_id,
                ),
                Err(error) => machine_id > MAX_MACHINE_ID && error.worker_id == machine_id,
            },
    {
        if machine_id > MAX_MACHINE_ID {
            return Err(InvalidWorkerId { worker_id: machine_id });
        }
        Ok(Snowflake { machine_id, sequence: 0, last_timestamp: 0 })
    }

    /// One pass with the clock reading `now`.
    ///
    /// Issues the id that `State::plan` calls for and publishes its pair, or
    /// issues nothing and leaves the generator as it was. The call is left
    /// waiting where nothing was issued, and fresh where an id was.
    ///
    /// An id that is issued is the generator's new high-water mark, and
    /// greater than the old one as long as the clock reading fits the
    /// timestamp field.
    pub fn advance(&mut self, phase: &mut Phase, now: u64) -> (id: Option<u64>)
        ensures
            id == old(self)@.issued(*old(phase), now),
            final(self)@ == old(self)@.after(*old(phase), now),
            *final(phase) == old(self)@.phase_after(*old(phase), now),
            old(self)@.wf(),
            final(self)@.wf(),
            id matches Some(value) ==> final(self)@.high_water() == value && (now
                < TIMESTAMP_LIMIT ==> value > old(self)@.high_water()),
    {
        proof {
            use_type_invariant(&*self);
            lemma_pass(self@, *phase, now);
        }
        if now > self.last_timestamp {
            self.last_timestamp = now;
            self.sequence = 0;
            *phase = Phase::Fresh;
            Some(compose(now, self.machine_id, 0))
        } else if now == self.last_timestamp && *phase == Phase::Fresh && self.sequence
            < MAX_SEQUENCE {
            self.sequence = self.sequence + 1;
            Some(compose(now, self.machine_id, self.sequence))
        } else {
            *phase = Phase::Waiting;
            None
        }
    }

    /// One pass with the clock read here: `advance` at whatever the clock
    /// says. `Step::ClockFailed`, and nothing changed, where it cannot be
    /// read.
    ///
    /// The id issued is greater than every id that this generator issued
    /// before, as long as the clock reading fits the timestamp field, and it
    /// carries the generator's machine id.
    pub fn next_id(&mut self, phase: &mut Phase) -> (step: Step<u64>)
        ensures
            match step {
                Step::Issued(id) => *final(phase) == Phase::Fresh && exists|now: u64|
                    #[trigger] old(self)@.issued(*old(phase), now) == Some(id) && final(self)@
                        == old(self)@.after(*old(phase), now),
                Step::Wait => *final(phase) == Phase::Waiting && final(self)@ == old(self)@
                    && exists|now: u64| #[trigger] old(self)@.issued(*old(phase), now) is None,
                Step::ClockFailed => *final(phase) == *old(phase) && final(self)@ == old(self)@,
            },
            old(self)@.wf(),
            final(self)@.wf(),
            step matches Step::Issued(id) ==> ({
                &&& final(self)@.high_water() == id
                &&& parse_spec(id).1 == final(self)@.machine_id
                &&& parse_spec(id).2 == final(self)@.sequence
                &&& final(self)@.last_timestamp < TIMESTAMP_LIMIT ==> id > old(self)@.high_water()
                    && parse_spec(id).0 == final(self)@.last_timestamp
            }),
    {
        proof {
            use_type_invariant(&*self);
        }
        match self.current_timestamp() {
            None => Step::ClockFailed,
            Some(now) => {
                proof {
                    lemma_pass(self@, *phase, now);
                }
                match self.advance(phase, now) {
                    Some(id) => Step::Issued(id),
                    None => Step::Wait,
                }
            },
        }
    }

    /// The clock in milliseconds since the Unix epoch, or `None` where it
    /// cannot be read.
    pub fn current_timestamp(&self) -> (now: Option<u64>) {
        current_timestamp()
    }

    /// The machine id that every id of this generator carries.
    pub fn machine_id(&self) -> (machine_id: u64)
        ensures
            machine_id == self@.machine_id,
            machine_id <= MAX_MACHINE_ID,
    {
        proof {
            use_type_invariant(self);
        }
        self.machine_id
    }

    /// The millisecond of the id issued last; 0 before the first.
    pub fn last_timestamp(&self) -> (last_timestamp: u64)
        ensures
            last_timestamp == self@.last_timestamp,
    {
        self.last_timestamp
    }

    /// The sequence number of the id issued last; 0 before the first.
    pub fn sequence(&self) -> (sequence: u64)
        ensures
            sequence == self@.sequence,
            sequence <= MAX_SEQUENCE,
    {
        proof {
            use_type_invariant(self);
        }
        self.sequence
    }

    /// Takes an id apart: timestamp, machine id, sequence number. Total:
    /// a value that no generator issued has three fields too.
    pub fn parse_id(&self, id: u64) -> (parts: (u64, u64, u64))
        ensures
            parts == parse_spec(id),
    {
        parse(id)
    }
}

} // verus!
