//! The id service: one generator, and its ids as decimal text.

use crate::decimal::decimal_spec;
use crate::decimal::digits;
use crate::decimal::lemma_decimal_of_digits;
use crate::decimal::parse_decimal;
use crate::decimal::to_decimal;
use crate::layout::parse_spec;
use crate::layout::MAX_MACHINE_ID;
use crate::layout::TIMESTAMP_LIMIT;
use crate::snowflake::lemma_ids_increase;
use crate::snowflake::lemma_run;
use crate::snowflake::Pass;
use crate::snowflake::Phase;
use crate::snowflake::Snowflake;
use crate::snowflake::State;
use crate::snowflake::Step;
use vstd::prelude::*;

verus! {

/// The decimal texts of a series of ids.
pub open spec fn rendered(ids: Seq<u64>) -> Seq<Seq<char>> {
    Seq::new(ids.len(), |i: int| digits(ids[i] as nat))
}

/// The texts that a batch holds.
pub open spec fn texts(batch: Seq<String>) -> Seq<Seq<char>> {
    Seq::new(batch.len(), |i: int| batch[i]@)
}

/// The passes of one call: the first in the phase that the call is in, the
/// rest, each after an id, in `Phase::Fresh`.
pub open spec fn passes_of_call(phase: Phase, passes: Seq<Pass>) -> bool {
    forall|i: int|
        0 <= i < passes.len() ==> (#[trigger] passes[i]).phase == if i == 0 {
            phase
        } else {
            Phase::Fresh
        }
}

/// Hands out the ids of one generator as decimal strings, and takes such
/// strings apart.
pub struct IdService {
    worker: Snowflake,
}

impl View for IdService {
    type V = State;

    closed spec fn view(&self) -> State {
        self.worker@
    }
}

impl IdService {
    /// A service for the machine `worker_id`, which must be at most 1023.
    pub fn new(worker_id: u64) -> (service: Self)
        requires
            worker_id <= MAX_MACHINE_ID,
        ensures
            service@ == State::fresh(worker_id),
    {
        IdService { worker: Snowflake::new(worker_id).unwrap() }
    }

    /// The generator, to look at.
    pub fn worker(&self) -> (worker: &Snowflake)
        ensures
            worker@ == self@,
    {
        &self.worker
    }

    /// One pass for one id: the generator's `next_id`, the id written in
    /// decimal.
    pub fn id(&mut self, phase: &mut Phase) -> (step: Step<String>)
        ensures
            match step {
                Step::Issued(text) => *final(phase) == Phase::Fresh && exists|now: u64, id: u64|
                    #![trigger old(self)@.issued(*old(phase), now), digits(id as nat)]
                    old(self)@.issued(*old(phase), now) == Some(id) && text@ == digits(id as nat)
                        && final(self)@ == old(self)@.after(*old(phase), now),
                Step::Wait => *final(phase) == Phase::Waiting && final(self)@ == old(self)@
                    && exists|now: u64| #[trigger] old(self)@.issued(*old(phase), now) is None,
                Step::ClockFailed => *final(phase) == *old(phase) && final(self)@ == old(self)@,
            },
            step matches Step::Issued(text) ==> ({
                &&& decimal_spec(text@) == Some(final(self)@.high_water())
                &&& parse_spec(final(self)@.high_water()).1 == final(self)@.machine_id
                &&& final(self)@.last_timestamp < TIMESTAMP_LIMIT ==> final(self)@.high_water()
                    > old(self)@.high_water()
            }),
    {
        match self.worker.next_id(phase) {
            Step::Issued(id) => {
                let text = to_decimal(id);
                proof {
                    let now = choose|now: u64|
                        #[trigger] old(self)@.issued(*old(phase), now) == Some(id) && self@
                            == old(self)@.after(*old(phase), now);
                    assert(old(self)@.issued(*old(phase), now) == Some(id) && text@ == digits(
                        id as nat,
                    ));
                }
                Step::Issued(text)
            },
            Step::Wait => Step::Wait,
            Step::ClockFailed => Step::ClockFailed,
        }
    }

    /// One pass for a batch of `numbers` ids, collected in `batch`.
    ///
    /// Issues ids one after the other and appends each, written in decimal,
    /// until the batch holds `numbers` of them (`Step::Issued`) or the
    /// generator cannot issue the next one yet. The caller then sleeps and
    /// calls again with the same batch and phase. A batch that is full
    /// already stays as it is.
    ///
    /// The ids appended are those of a series of passes of the generator,
    /// each of which issued one; as long as the generator's last timestamp
    /// fits the timestamp field they increase strictly, beginning above the
    /// generator's id before the call.
    pub fn ids(
        &mut self,
        numbers: u32,
        phase: &mut Phase,
        batch: &mut Vec<String>,
    ) -> (step: Step<()>)
        ensures
            (exists|passes: Seq<Pass>|
                {
                    &&& passes_of_call(*old(phase), passes)
                    &&& final(self)@ == #[trigger] old(self)@.run(passes)
                    &&& old(self)@.ids(passes).len() == passes.len()
                    &&& texts(final(batch)@) == texts(old(batch)@) + rendered(
                        old(self)@.ids(passes),
                    )
                }),
            step is Issued <==> final(batch)@.len() >= numbers,
            old(batch)@.len() <= numbers ==> final(batch)@.len() <= numbers,
            *final(phase) == match step {
                Step::Issued(_) => Phase::Fresh,
                Step::Wait => Phase::Waiting,
                Step::ClockFailed => if final(batch)@.len() == old(batch)@.len() {
                    *old(phase)
                } else {
                    Phase::Fresh
                },
            },
            final(self)@.last_timestamp < TIMESTAMP_LIMIT ==> ({
                &&& forall|i: int|
                    old(batch)@.len() <= i < final(batch)@.len() ==> ((#[trigger] decimal_spec(
                        final(batch)@[i]@,
                    )) matches Some(id) && id > old(self)@.high_water() && parse_spec(id).1 == old(
                        self,
                    )@.machine_id)
                &&& forall|i: int, j: int|
                    old(batch)@.len() <= i < j < final(batch)@.len() ==> (#[trigger] decimal_spec(
                        final(batch)@[i]@,
                    )).unwrap() < (#[trigger] decimal_spec(final(batch)@[j]@)).unwrap()
            }),
    {
        let ghost begin = self@;
        let ghost kept = batch@;
        let ghost first = *phase;
        let ghost mut passes: Seq<Pass> = Seq::empty();
        let wanted = numbers as usize;
        let mut step: Step<()> = Step::Issued(());
        let mut going = true;
        assert(texts(batch@) =~= texts(kept) + rendered(begin.ids(passes)));
        while going && batch.len() < wanted
            invariant
                wanted == numbers,
                passes_of_call(first, passes),
                going || step is ClockFailed ==> *phase == if passes.len() == 0 {
                    first
                } else {
                    Phase::Fresh
                },
                step is Wait ==> *phase == Phase::Waiting,
                passes.len() > 0 ==> begin.wf(),
                self@ == begin.run(passes),
                begin.ids(passes).len() == passes.len(),
                texts(batch@) == texts(kept) + rendered(begin.ids(passes)),
                batch@.len() == kept.len() + passes.len(),
                kept.len() <= numbers ==> batch@.len() <= numbers,
                going ==> step is Issued,
                !going ==> step !is Issued && batch@.len() < wanted,
            decreases
                    wanted - batch.len() + if going {
                        1int
                    } else {
                        0int
                    },
        {
            let ghost before = self@;
            let ghost entered = *phase;
            match self.worker.next_id(phase) {
                Step::Issued(id) => {
                    let text = to_decimal(id);
                    proof {
                        let now = choose|now: u64|
                            #[trigger] before.issued(entered, now) == Some(id) && self@
                                == before.after(entered, now);
                        let pass = Pass { phase: entered, now };
                        let longer = passes.push(pass);
                        assert(longer.drop_last() =~= passes);
                        assert(begin.run(longer) == self@);
                        assert(begin.ids(longer) == begin.ids(passes).push(id));
                        assert(texts(batch@.push(text)) =~= texts(batch@).push(text@));
                        assert(rendered(begin.ids(longer)) =~= rendered(begin.ids(passes)).push(
                            text@,
                        ));
                        assert(texts(batch@.push(text)) =~= texts(kept) + rendered(
                            begin.ids(longer),
                        ));
                        passes = longer;
                    }
                    batch.push(text);
                },
                Step::Wait => {
                    step = Step::Wait;
                    going = false;
                },
                Step::ClockFailed => {
                    step = Step::ClockFailed;
                    going = false;
                },
            }
        }
        if going {
            *phase = Phase::Fresh;
        }
        proof {
            let ids = begin.ids(passes);
            if passes.len() > 0 {
                lemma_run(begin, passes);
                assert forall|i: int| kept.len() <= i < batch@.len() implies rendered(ids)[i
                    - kept.len()] == #[trigger] batch@[i]@ && decimal_spec(batch@[i]@) == Some(
                    ids[i - kept.len()],
                ) by {
                    assert(texts(batch@)[i] == batch@[i]@);
                    lemma_decimal_of_digits(ids[i - kept.len()]);
                }
                if self@.last_timestamp < TIMESTAMP_LIMIT {
                    lemma_ids_increase(begin, passes);
                }
            }
        }
        step
    }

    /// Takes apart an id written in decimal: timestamp, machine id, sequence
    /// number.
    pub fn parse(&self, id: &String) -> (parts: (u64, u64, u64))
        requires
            decimal_spec(id@) is Some,
        ensures
            decimal_spec(id@) matches Some(value) && parts == parse_spec(value),
    {
        let value = parse_decimal(id.as_str()).unwrap();
        self.worker.parse_id(value)
    }
}

} // verus!
