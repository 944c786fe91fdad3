//! The batching dispatcher.
//!
//! A single dispatcher drains the ingest queue, accumulates envelopes into a
//! batch, and flushes when the batch reaches [`crate::BATCH_THRESHOLD`]
//! envelopes (size-triggered) or when the periodic timer elapses with at
//! least one envelope pending (time-triggered). The batch is cleared by
//! every flush, whatever the transport's outcome.
//!
//! The dispatcher is a state machine over the inputs it can observe; the
//! surrounding task feeds it one [`DispatchInput`] at a time and performs a
//! transport attempt whenever [`Dispatcher::on_input`] hands a batch back.
//! The two triggers are independent: a size-triggered flush does not reset
//! the timer, so a timer tick shortly after one may flush a near-empty
//! batch. This is deliberate and observable behaviour.

use vstd::prelude::*;

use crate::events::EnrichedEvent;
use crate::BATCH_THRESHOLD;

verus! {

/// One thing the dispatcher can observe: an envelope arriving on the ingest
/// queue, or the periodic flush timer elapsing.
pub enum DispatchInput {
    Arrival(EnrichedEvent),
    TimerTick,
}

/// Whether a step taken on `pending` envelopes upon `input` flushes: an
/// arrival completes a batch of exactly the threshold size, or the timer
/// elapses while at least one envelope is pending.
pub open spec fn flush_due(pending: Seq<EnrichedEvent>, input: DispatchInput) -> bool {
    match input {
        DispatchInput::Arrival(_) => pending.len() + 1 == BATCH_THRESHOLD as int,
        DispatchInput::TimerTick => pending.len() > 0,
    }
}

/// The batch a flushing step hands to the transport.
pub open spec fn flushed_by(pending: Seq<EnrichedEvent>, input: DispatchInput) -> Seq<EnrichedEvent> {
    match input {
        DispatchInput::Arrival(e) => pending.push(e),
        DispatchInput::TimerTick => pending,
    }
}

/// The pending envelopes after one step: empty after a flush, otherwise
/// grown by the arrival (a tick on an empty batch changes nothing).
pub open spec fn pending_after(pending: Seq<EnrichedEvent>, input: DispatchInput) -> Seq<EnrichedEvent> {
    if flush_due(pending, input) {
        Seq::empty()
    } else {
        match input {
            DispatchInput::Arrival(e) => pending.push(e),
            DispatchInput::TimerTick => pending,
        }
    }
}

/// The envelopes pending after a run over a whole input sequence, starting
/// from an empty batch.
pub open spec fn run_pending(inputs: Seq<DispatchInput>) -> Seq<EnrichedEvent>
    decreases inputs.len(),
{
    if inputs.len() == 0 {
        Seq::empty()
    } else {
        pending_after(run_pending(inputs.drop_last()), inputs.last())
    }
}

/// The batches flushed over a whole run, in flush order.
pub open spec fn run_flushes(inputs: Seq<DispatchInput>) -> Seq<Seq<EnrichedEvent>>
    decreases inputs.len(),
{
    if inputs.len() == 0 {
        Seq::empty()
    } else {
        let earlier = run_flushes(inputs.drop_last());
        let pending = run_pending(inputs.drop_last());
        if flush_due(pending, inputs.last()) {
            earlier.push(flushed_by(pending, inputs.last()))
        } else {
            earlier
        }
    }
}

/// The envelopes of an input sequence, in arrival order.
pub open spec fn arrivals(inputs: Seq<DispatchInput>) -> Seq<EnrichedEvent>
    decreases inputs.len(),
{
    if inputs.len() == 0 {
        Seq::empty()
    } else {
        arrivals(inputs.drop_last()) + match inputs.last() {
            DispatchInput::Arrival(e) => seq![e],
            DispatchInput::TimerTick => Seq::empty(),
        }
    }
}

/// All flushed batches, concatenated in flush order.
pub open spec fn concat_batches(batches: Seq<Seq<EnrichedEvent>>) -> Seq<EnrichedEvent>
    decreases batches.len(),
{
    if batches.len() == 0 {
        Seq::empty()
    } else {
        concat_batches(batches.drop_last()) + batches.last()
    }
}

/// Law: between steps the pending batch is always strictly below the flush
/// threshold, so a size-triggered flush happens at exactly the threshold.
pub proof fn lemma_pending_bounded(inputs: Seq<DispatchInput>)
    ensures
        run_pending(inputs).len() < BATCH_THRESHOLD as int,
    decreases inputs.len(),
{
    if inputs.len() > 0 {
        lemma_pending_bounded(inputs.drop_last());
    }
}

/// Law: over any run, every envelope handed to the dispatcher lies either in
/// exactly one flushed batch or in the pending batch, in arrival order —
/// nothing is lost, nothing is duplicated, nothing is reordered.
pub proof fn lemma_conservation(inputs: Seq<DispatchInput>)
    ensures
        concat_batches(run_flushes(inputs)) + run_pending(inputs) == arrivals(inputs),
    decreases inputs.len(),
{
    if inputs.len() == 0 {
        assert(concat_batches(run_flushes(inputs)) + run_pending(inputs) =~= arrivals(inputs));
    } else {
        let h = inputs.drop_last();
        let last = inputs.last();
        lemma_conservation(h);
        let p = run_pending(h);
        let rf = run_flushes(h);
        if flush_due(p, last) {
            let flushed = flushed_by(p, last);
            assert(rf.push(flushed).drop_last() =~= rf);
            assert(concat_batches(rf.push(flushed)) == concat_batches(rf) + flushed);
            assert(concat_batches(run_flushes(inputs)) + run_pending(inputs)
                =~= arrivals(inputs));
        } else {
            assert(concat_batches(run_flushes(inputs)) + run_pending(inputs)
                =~= arrivals(inputs));
        }
    }
}

/// Law: every flushed batch is non-empty and holds at most the threshold
/// number of envelopes.
pub proof fn lemma_flush_sizes(inputs: Seq<DispatchInput>)
    ensures
        forall|i: int| 0 <= i < run_flushes(inputs).len()
            ==> 1 <= (#[trigger] run_flushes(inputs)[i]).len() <= BATCH_THRESHOLD as int,
    decreases inputs.len(),
{
    if inputs.len() > 0 {
        let h = inputs.drop_last();
        lemma_flush_sizes(h);
        lemma_pending_bounded(h);
        let p = run_pending(h);
        let rf = run_flushes(h);
        if flush_due(p, inputs.last()) {
            let flushed = flushed_by(p, inputs.last());
            assert(1 <= flushed.len() <= BATCH_THRESHOLD as int);
            assert forall|i: int| 0 <= i < run_flushes(inputs).len()
                implies 1 <= (#[trigger] run_flushes(inputs)[i]).len() <= BATCH_THRESHOLD as int by {
                if i < rf.len() {
                    assert(run_flushes(inputs)[i] == rf[i]);
                } else {
                    assert(run_flushes(inputs)[i] == flushed);
                }
            }
        }
    }
}

proof fn lemma_concat_batches_contains(batches: Seq<Seq<EnrichedEvent>>, i: int, e: EnrichedEvent)
    requires
        0 <= i < batches.len(),
        batches[i].contains(e),
    ensures
        concat_batches(batches).contains(e),
    decreases batches.len(),
{
    let earlier = concat_batches(batches.drop_last());
    if i == batches.len() - 1 {
        let j = choose|j: int| 0 <= j < batches[i].len() && batches[i][j] == e;
        assert(concat_batches(batches)[earlier.len() + j] == e);
    } else {
        lemma_concat_batches_contains(batches.drop_last(), i, e);
        let j = choose|j: int| 0 <= j < earlier.len() && earlier[j] == e;
        assert(concat_batches(batches)[j] == e);
    }
}

/// Law: an envelope never handed to the dispatcher appears in no flushed
/// batch — in particular, an event a producer withheld never reaches the
/// transport.
pub proof fn lemma_no_spurious_delivery(inputs: Seq<DispatchInput>, e: EnrichedEvent)
    requires
        !arrivals(inputs).contains(e),
    ensures
        forall|i: int| 0 <= i < run_flushes(inputs).len()
            ==> !(#[trigger] run_flushes(inputs)[i]).contains(e),
{
    lemma_conservation(inputs);
    let flushes = run_flushes(inputs);
    let all = concat_batches(flushes);
    assert forall|i: int| 0 <= i < flushes.len()
        implies !(#[trigger] flushes[i]).contains(e) by {
        if flushes[i].contains(e) {
            lemma_concat_batches_contains(flushes, i, e);
            let j = choose|j: int| 0 <= j < all.len() && all[j] == e;
            assert(arrivals(inputs)[j] == e);
            assert(arrivals(inputs).contains(e));
        }
    }
}

/// Law: while only arrivals come in (the timer never fires), every flush is
/// size-triggered and holds exactly the threshold, and the arrivals are
/// accounted for exactly by the flushed batches plus the pending batch.
pub proof fn lemma_size_triggered_accounting(inputs: Seq<DispatchInput>)
    requires
        forall|j: int| 0 <= j < inputs.len() ==> (#[trigger] inputs[j]) is Arrival,
    ensures
        forall|i: int| 0 <= i < run_flushes(inputs).len()
            ==> (#[trigger] run_flushes(inputs)[i]).len() == BATCH_THRESHOLD as int,
        arrivals(inputs).len()
            == run_flushes(inputs).len() * (BATCH_THRESHOLD as int) + run_pending(inputs).len(),
    decreases inputs.len(),
{
    if inputs.len() > 0 {
        let h = inputs.drop_last();
        assert(forall|j: int| 0 <= j < h.len() ==> (#[trigger] h[j]) is Arrival);
        lemma_size_triggered_accounting(h);
        lemma_pending_bounded(h);
        assert(inputs[inputs.len() - 1] is Arrival);
        let p = run_pending(h);
        let rf = run_flushes(h);
        if flush_due(p, inputs.last()) {
            assert(run_flushes(inputs).len() == rf.len() + 1);
            assert((rf.len() + 1) * (BATCH_THRESHOLD as int)
                == rf.len() * (BATCH_THRESHOLD as int) + BATCH_THRESHOLD as int)
                by (nonlinear_arith);
        }
    }
}

/// The dispatcher's state between steps: the batch accumulated since the
/// last flush, and (for specification only) the inputs seen so far.
pub struct Dispatcher {
    batch: Vec<EnrichedEvent>,
    inputs: Ghost<Seq<DispatchInput>>,
}

impl Dispatcher {
    /// The inputs this dispatcher has observed, oldest first.
    pub closed spec fn history(&self) -> Seq<DispatchInput> {
        self.inputs@
    }

    /// The envelopes accumulated since the last flush.
    pub closed spec fn pending(&self) -> Seq<EnrichedEvent> {
        self.batch@
    }

    /// The batch always tracks the run model on the observed inputs, and
    /// stays strictly below the flush threshold between steps.
    pub open spec fn wf(&self) -> bool {
        &&& self.pending() == run_pending(self.history())
        &&& self.pending().len() < BATCH_THRESHOLD as int
    }

    /// A dispatcher that has seen nothing and holds nothing.
    pub fn new() -> (r: Self)
        ensures
            r.wf(),
            r.history() == Seq::<DispatchInput>::empty(),
            r.pending() == Seq::<EnrichedEvent>::empty(),
    {
        Dispatcher { batch: Vec::new(), inputs: Ghost(Seq::empty()) }
    }

    /// How many envelopes are pending, accumulated since the last flush.
    pub fn pending_len(&self) -> (n: usize)
        ensures
            n as int == self.pending().len(),
    {
        self.batch.len()
    }

    /// One step of the dispatcher. Returns the batch to hand to the
    /// transport when and only when this input makes a flush due: the
    /// arrival that completes a batch of exactly the threshold size, or a
    /// timer tick with at least one envelope pending. After a flushing step
    /// the pending batch is empty.
    pub fn on_input(&mut self, input: DispatchInput) -> (flush: Option<Vec<EnrichedEvent>>)
        requires
            old(self).wf(),
        ensures
            final(self).wf(),
            final(self).history() == old(self).history().push(input),
            (flush is Some) == flush_due(old(self).pending(), input),
            (match flush {
                Some(batch) => {
                    &&& batch@ == flushed_by(old(self).pending(), input)
                    &&& final(self).pending() == Seq::<EnrichedEvent>::empty()
                },
                None => final(self).pending() == pending_after(old(self).pending(), input),
            }),
            run_flushes(final(self).history()) == (match flush {
                Some(batch) => run_flushes(old(self).history()).push(batch@),
                None => run_flushes(old(self).history()),
            }),
    {
        proof {
            let h = self.inputs@;
            assert(h.push(input).drop_last() =~= h);
        }
        self.inputs = Ghost(self.inputs@.push(input));
        match input {
            DispatchInput::Arrival(e) => {
                self.batch.push(e);
                if self.batch.len() >= BATCH_THRESHOLD {
                    let mut out: Vec<EnrichedEvent> = Vec::new();
                    core::mem::swap(&mut out, &mut self.batch);
                    Some(out)
                } else {
                    None
                }
            },
            DispatchInput::TimerTick => {
                if self.batch.len() > 0 {
                    let mut out: Vec<EnrichedEvent> = Vec::new();
                    core::mem::swap(&mut out, &mut self.batch);
                    Some(out)
                } else {
                    None
                }
            },
        }
    }
}

} // verus!
