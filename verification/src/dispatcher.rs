//! The queue between the producers of file events and the one worker that
//! executes them, and what the worker does at each wake-up.
//!
//! The queue holds envelopes of any type: the caller puts an event and the
//! channel for its answer into one. Events are executed in the order in
//! which they were enqueued, one at a time. Once the worker has left, the
//! queue takes nothing more: whoever comes then is told that the worker is
//! gone, instead of waiting for an answer that nobody will give.

use crate::failure::{IoFailure, IoFailureKind, IoFailureView};
use std::collections::VecDeque;
use vstd::prelude::*;
use vstd::string::*;

verus! {

/// The queue and its two flags, as a view.
pub struct QueueModel<T> {
    /// The envelopes that wait, the oldest first.
    pub queue: Seq<T>,
    /// Whether the worker was told to stop once the queue is empty.
    pub shutdown: bool,
    /// Whether the worker has left its loop, for whatever reason.
    pub worker_left: bool,
}

/// What the worker does next, as a view.
pub enum WorkerStepView<T> {
    /// Sleep until woken.
    Wait,
    /// Execute this envelope.
    Run(T),
    /// Leave the loop.
    Exit,
}

impl<T> QueueModel<T> {
    /// An empty queue that is not shut down, with its worker at work.
    pub open spec fn empty() -> QueueModel<T> {
        QueueModel { queue: Seq::empty(), shutdown: false, worker_left: false }
    }

    /// Nothing waits for a worker that has left.
    pub open spec fn well_formed(self) -> bool {
        self.worker_left ==> self.queue.len() == 0
    }

    /// Whether an envelope is taken: as long as the worker has not left.
    pub open spec fn accepts(self) -> bool {
        !self.worker_left
    }

    /// After `envelope` was offered: it waits behind all others, unless the
    /// worker has left; then it is refused and nothing changes.
    pub open spec fn enqueued(self, envelope: T) -> QueueModel<T> {
        if self.accepts() {
            QueueModel { queue: self.queue.push(envelope), ..self }
        } else {
            self
        }
    }

    /// After all of `envelopes` were enqueued, in their order.
    pub open spec fn enqueued_all(self, envelopes: Seq<T>) -> QueueModel<T>
        decreases envelopes.len(),
    {
        if envelopes.len() == 0 {
            self
        } else {
            self.enqueued_all(envelopes.drop_last()).enqueued(envelopes.last())
        }
    }

    /// After the worker was told to stop.
    pub open spec fn shut_down(self) -> QueueModel<T> {
        QueueModel { shutdown: true, ..self }
    }

    /// What the worker does next: the oldest envelope if there is one; with
    /// an empty queue it leaves if it was told to stop, and else waits. A
    /// worker that has left does nothing but leave.
    pub open spec fn step(self) -> WorkerStepView<T> {
        if self.worker_left {
            WorkerStepView::Exit
        } else if self.queue.len() > 0 {
            WorkerStepView::Run(self.queue[0])
        } else if self.shutdown {
            WorkerStepView::Exit
        } else {
            WorkerStepView::Wait
        }
    }

    /// After the worker took its next step: the envelope it runs has left
    /// the queue, and a worker that leaves is marked as having left.
    pub open spec fn stepped(self) -> QueueModel<T> {
        if self.worker_left {
            self
        } else if self.queue.len() > 0 {
            QueueModel { queue: self.queue.drop_first(), ..self }
        } else if self.shutdown {
            QueueModel { worker_left: true, ..self }
        } else {
            self
        }
    }

    /// After the worker was found gone, whatever made it go: it is marked
    /// as having left, and what still waited is taken out of the queue, to
    /// be told that the worker is gone.
    pub open spec fn abandoned(self) -> QueueModel<T> {
        QueueModel { queue: Seq::empty(), worker_left: true, ..self }
    }

    /// After the worker took `steps` steps.
    pub open spec fn stepped_times(self, steps: nat) -> QueueModel<T>
        decreases steps,
    {
        if steps == 0 {
            self
        } else {
            self.stepped_times((steps - 1) as nat).stepped()
        }
    }
}

/// What the worker does next.
#[derive(Debug)]
pub enum WorkerStep<T> {
    /// Sleep until woken.
    Wait,
    /// Execute this envelope.
    Run(T),
    /// Leave the loop.
    Exit,
}

impl<T> View for WorkerStep<T> {
    type V = WorkerStepView<T>;

    open spec fn view(&self) -> WorkerStepView<T> {
        match self {
            WorkerStep::Wait => WorkerStepView::Wait,
            WorkerStep::Run(envelope) => WorkerStepView::Run(*envelope),
            WorkerStep::Exit => WorkerStepView::Exit,
        }
    }
}

/// The envelopes that wait for the worker, the shutdown flag, and whether
/// the worker has left.
#[derive(Debug)]
pub struct QueueState<T> {
    queue: VecDeque<T>,
    shutdown: bool,
    worker_left: bool,
}

impl<T> View for QueueState<T> {
    type V = QueueModel<T>;

    closed spec fn view(&self) -> QueueModel<T> {
        QueueModel {
            queue: self.queue@,
            shutdown: self.shutdown,
            worker_left: self.worker_left,
        }
    }
}

impl<T> QueueState<T> {
    /// An empty queue that is not shut down, with its worker at work.
    pub fn new() -> (state: QueueState<T>)
        ensures
            state@ == QueueModel::<T>::empty(),
    {
        QueueState { queue: VecDeque::new(), shutdown: false, worker_left: false }
    }

    /// Puts `envelope` at the end of the queue; the caller then wakes the
    /// worker. Once the worker has left, the envelope is refused with the
    /// failure that says so, and nothing changes.
    pub fn enqueue(&mut self, envelope: T) -> (taken: Result<(), IoFailure>)
        ensures
            final(self)@ == old(self)@.enqueued(envelope),
            taken is Ok <==> old(self)@.accepts(),
            taken matches Err(failure) ==> failure@ == worker_terminated_failure(),
    {
        if self.worker_left {
            return Err(worker_terminated());
        }
        self.queue.push_back(envelope);
        Ok(())
    }

    /// Records that the worker is gone, whatever made it go, and hands out
    /// the envelopes that still waited, the oldest first, so that each can
    /// be answered with the failure that says so. From now on nothing is
    /// enqueued.
    pub fn abandon(&mut self) -> (waiting: VecDeque<T>)
        ensures
            final(self)@ == old(self)@.abandoned(),
            waiting@ == old(self)@.queue,
    {
        let mut waiting: VecDeque<T> = VecDeque::new();
        core::mem::swap(&mut self.queue, &mut waiting);
        self.worker_left = true;
        waiting
    }

    /// Whether the worker has left.
    pub fn has_worker_left(&self) -> (left: bool)
        ensures
            left == self@.worker_left,
    {
        self.worker_left
    }

    /// Tells the worker to stop once the queue is empty. The caller then
    /// wakes all waiters.
    pub fn shutdown(&mut self)
        ensures
            final(self)@ == old(self)@.shut_down(),
    {
        self.shutdown = true;
    }

    /// The number of envelopes that wait.
    pub fn len(&self) -> (len: usize)
        ensures
            len == self@.queue.len(),
    {
        self.queue.len()
    }

    /// Whether the worker was told to stop.
    pub fn is_shutdown(&self) -> (flag: bool)
        ensures
            flag == self@.shutdown,
    {
        self.shutdown
    }

    /// The worker's next step: see [`QueueModel::step`]. An envelope that
    /// is returned has left the queue, and a worker that is told to leave
    /// is marked as having left: see [`QueueModel::stepped`].
    pub fn worker_step(&mut self) -> (step: WorkerStep<T>)
        ensures
            step@ == old(self)@.step(),
            final(self)@ == old(self)@.stepped(),
    {
        if self.worker_left {
            return WorkerStep::Exit;
        }
        match self.queue.pop_front() {
            Some(envelope) => WorkerStep::Run(envelope),
            None => {
                if self.shutdown {
                    self.worker_left = true;
                    WorkerStep::Exit
                } else {
                    WorkerStep::Wait
                }
            },
        }
    }
}

/// The message for a caller whose answer never came.
pub open spec fn worker_terminated_message() -> Seq<char> {
    "file_update_handler worker terminated before sending response"@
}

/// The message for a caller that found the queue's lock poisoned.
pub open spec fn queue_poisoned_message() -> Seq<char> {
    "file_update_handler event queue lock poisoned on enqueue"@
}

/// The failure that says that the worker is gone.
pub open spec fn worker_terminated_failure() -> IoFailureView {
    IoFailureView { kind: IoFailureKind::BrokenPipe, message: worker_terminated_message() }
}

/// The failure for a caller whose answer never came, or will never come:
/// the worker is gone.
pub fn worker_terminated() -> (failure: IoFailure)
    ensures
        failure@ == worker_terminated_failure(),
{
    IoFailure::new(
        IoFailureKind::BrokenPipe,
        "file_update_handler worker terminated before sending response",
    )
}

/// The failure for a caller that found the queue's lock poisoned.
pub fn queue_lock_poisoned() -> (failure: IoFailure)
    ensures
        failure@ == (IoFailureView {
            kind: IoFailureKind::Other,
            message: queue_poisoned_message(),
        }),
{
    IoFailure::new(
        IoFailureKind::Other,
        "file_update_handler event queue lock poisoned on enqueue",
    )
}

/// Enqueuing several envelopes puts them behind what waited, in their
/// order, as long as the worker is at work.
pub proof fn lemma_enqueued_all_appends<T>(model: QueueModel<T>, envelopes: Seq<T>)
    requires
        model.accepts(),
    ensures
        model.enqueued_all(envelopes).queue == model.queue + envelopes,
        model.enqueued_all(envelopes).shutdown == model.shutdown,
        model.enqueued_all(envelopes).accepts(),
    decreases envelopes.len(),
{
    if envelopes.len() > 0 {
        lemma_enqueued_all_appends(model, envelopes.drop_last());
        assert(model.queue + envelopes =~= (model.queue + envelopes.drop_last()).push(
            envelopes.last(),
        ));
    } else {
        assert(model.queue + envelopes =~= model.queue);
    }
}

/// The worker executes in the order of enqueuing, and loses and repeats
/// nothing: with `count` envelopes waiting, its step number `index`
/// (from 0, below `count`) runs the envelope at place `index`, and after
/// `count` steps the queue is empty. It does not leave on the way.
pub proof fn lemma_worker_runs_in_enqueue_order<T>(model: QueueModel<T>, index: nat)
    requires
        model.accepts(),
        index <= model.queue.len(),
    ensures
        model.stepped_times(index).queue == model.queue.skip(index as int),
        model.stepped_times(index).shutdown == model.shutdown,
        model.stepped_times(index).accepts(),
        index < model.queue.len() ==> model.stepped_times(index).step() == WorkerStepView::Run(
            model.queue[index as int],
        ),
        index == model.queue.len() ==> model.stepped_times(index).queue.len() == 0,
    decreases index,
{
    if index > 0 {
        lemma_worker_runs_in_enqueue_order(model, (index - 1) as nat);
        assert(model.queue.skip(index - 1).drop_first() =~= model.queue.skip(index as int));
    } else {
        assert(model.queue.skip(0) =~= model.queue);
    }
}

/// Every producer's envelope is executed once: after `envelopes` were put
/// into an empty queue, the worker's first steps run exactly them, each
/// one once and in order, and then the queue is empty.
pub proof fn lemma_every_envelope_runs_once<T>(envelopes: Seq<T>, index: nat)
    requires
        index < envelopes.len(),
    ensures
        QueueModel::<T>::empty().enqueued_all(envelopes).stepped_times(index).step()
            == WorkerStepView::Run(envelopes[index as int]),
        QueueModel::<T>::empty().enqueued_all(envelopes).stepped_times(
            envelopes.len(),
        ).queue.len() == 0,
{
    let filled = QueueModel::<T>::empty().enqueued_all(envelopes);
    lemma_enqueued_all_appends(QueueModel::<T>::empty(), envelopes);
    assert(filled.queue =~= envelopes);
    lemma_worker_runs_in_enqueue_order(filled, index);
    lemma_worker_runs_in_enqueue_order(filled, envelopes.len());
}

/// A worker that was told to stop first executes what still waits: while
/// at work it leaves only with an empty queue and the order to stop, and
/// it waits only with an empty queue and no such order. Telling it to stop
/// takes nothing out of the queue.
pub proof fn lemma_shutdown_drains_first<T>(model: QueueModel<T>)
    requires
        model.accepts(),
    ensures
        model.step() is Exit <==> model.shutdown && model.queue.len() == 0,
        model.step() is Wait <==> !model.shutdown && model.queue.len() == 0,
        model.step() is Exit ==> !model.stepped().accepts(),
        !(model.step() is Exit) ==> model.stepped().accepts(),
        model.shut_down().queue == model.queue,
        model.shut_down().accepts(),
{
}

/// Nobody waits for a worker that is gone: once the worker has left, by the
/// order to stop or because it was found gone, every envelope that is
/// offered is refused and the queue stays empty, whatever is tried; and
/// what waited when the worker was found gone is handed out, to be
/// answered with the failure.
pub proof fn lemma_left_worker_takes_nothing<T>(model: QueueModel<T>, envelope: T)
    requires
        model.well_formed(),
    ensures
        model.worker_left ==> {
            &&& !model.accepts()
            &&& model.enqueued(envelope) == model
            &&& model.step() is Exit
            &&& model.stepped() == model
            &&& model.shut_down().queue.len() == 0
        },
        !model.abandoned().accepts(),
        model.abandoned().queue.len() == 0,
        model.abandoned().enqueued(envelope) == model.abandoned(),
        model.accepts() && model.step() is Exit ==> model.stepped().enqueued(envelope)
            == model.stepped() && model.stepped().queue.len() == 0,
{
}

/// Every step keeps the queue of a worker that has left empty.
pub proof fn lemma_steps_keep_well_formed<T>(model: QueueModel<T>, envelope: T)
    requires
        model.well_formed(),
    ensures
        QueueModel::<T>::empty().well_formed(),
        model.enqueued(envelope).well_formed(),
        model.shut_down().well_formed(),
        model.stepped().well_formed(),
        model.abandoned().well_formed(),
{
}

} // verus!
