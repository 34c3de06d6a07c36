//! Decisions of the blocking worker loop.
//!
//! The thread that owns the activated device runs the loop: it asks the
//! [`Worker`] what to do next, does it (poll the cancellation signal, read
//! the device, send a batch to the sink, deactivate the device) and reports
//! what happened. The worker keeps, in ghost state, the batches it handed
//! out and those the sink accepted, so that order and error precedence are
//! stated over whole runs.

use vstd::prelude::*;
use crate::lifecycle::WorkerOutcome;

verus! {

/// Error of a cancellation-signal poll: the sender is gone.
///
/// Relies on tokio's `watch::Receiver::has_changed`, whose error means that
/// the sending half was dropped; nothing is read out of it.
#[verifier::external_type_specification]
#[verifier::external_body]
pub struct ExRecvError(tokio::sync::watch::error::RecvError);

/// Receiving half of a cancellation signal, carried through opaque.
///
/// Relies on tokio's `watch::Receiver`.
#[verifier::external_type_specification]
#[verifier::external_body]
#[verifier::reject_recursive_types(T)]
pub struct ExReceiver<T>(tokio::sync::watch::Receiver<T>);

/// Relies on tokio's `watch::Receiver::has_changed`: whether a value was
/// sent since the last one seen, or an error once every sender is gone. It
/// reads the channel's current state, so nothing is promised of the result;
/// it does not panic.
pub assume_specification<T>[ tokio::sync::watch::Receiver::<T>::has_changed ](
    r: &tokio::sync::watch::Receiver<T>,
) -> Result<bool, tokio::sync::watch::error::RecvError>;

/// Bound on one blocking read, in microseconds: a pending cancellation is
/// seen within this interval.
pub const READ_TIMEOUT_US: i64 = 1000000;

#[derive(PartialEq, Eq, Structural, Clone, Copy, Debug)]
pub enum Phase {
    /// Next: check the cancellation signal.
    Polling,
    /// A read has been requested.
    Reading,
    /// A batch has been handed out to be sent.
    Sending,
    /// The device's deactivation has been requested; the loop is over.
    Stopping,
}

/// What the loop does next.
pub enum Action<T> {
    /// Check the cancellation signal.
    Poll,
    /// Read into a buffer of `len` samples, waiting at most `timeout_us`.
    Read { len: usize, timeout_us: i64 },
    /// Send this batch to the sink.
    Send(Vec<T>),
    /// Deactivate the device, then call [`Worker::finish`].
    Deactivate,
}

/// Abstract state of a [`Worker`].
pub struct WorkerView<T, E> {
    pub mtu: nat,
    pub phase: Phase,
    /// The first device error seen, if any.
    pub result: Result<(), E>,
    /// The sink refused a batch.
    pub sink_closed: bool,
    /// Batches handed out to be sent, in order.
    pub produced: Seq<Seq<T>>,
    /// Batches the sink accepted, in order.
    pub delivered: Seq<Seq<T>>,
    /// Reads requested.
    pub reads: nat,
    /// Deactivations requested.
    pub deactivations: nat,
}

/// A poll result asks the loop to stop unless it says "not changed": a
/// raised signal and a dropped sender both stop it.
pub open spec fn stop_requested(signal: Result<bool, tokio::sync::watch::error::RecvError>) -> bool {
    signal != Ok::<bool, tokio::sync::watch::error::RecvError>(false)
}

/// The batch that a read of `count` samples leaves in `buffer`.
pub open spec fn read_batch<T>(buffer: Seq<T>, count: nat) -> Seq<T> {
    if count <= buffer.len() {
        buffer.take(count as int)
    } else {
        buffer
    }
}

/// What a read hands on: the batch it filled, or its error.
pub open spec fn read_outcome<T, E>(buffer: Seq<T>, read: Result<usize, E>) -> Result<Seq<T>, E> {
    match read {
        Ok(count) => Ok(read_batch(buffer, count as nat)),
        Err(e) => Err(e),
    }
}

/// The earlier error wins over a later one.
pub open spec fn first_error<E>(earlier: Result<(), E>, later: Result<(), E>) -> Result<(), E> {
    if earlier is Err {
        earlier
    } else {
        later
    }
}

impl<T, E> WorkerView<T, E> {
    pub open spec fn wf(self) -> bool {
        &&& self.phase is Polling || self.phase is Reading ==> {
            &&& self.delivered == self.produced
            &&& self.result is Ok
            &&& !self.sink_closed
            &&& self.deactivations == 0
        }
        &&& self.phase is Sending ==> {
            &&& self.produced.len() == self.delivered.len() + 1
            &&& self.delivered == self.produced.drop_last()
            &&& self.result is Ok
            &&& !self.sink_closed
            &&& self.deactivations == 0
        }
        &&& self.phase is Stopping ==> {
            &&& self.deactivations == 1
            &&& if self.sink_closed {
                &&& self.produced.len() == self.delivered.len() + 1
                &&& self.delivered == self.produced.drop_last()
                &&& self.result is Ok
            } else {
                self.delivered == self.produced
            }
        }
        &&& self.reads == self.produced.len() + (if self.phase is Reading { 1nat } else { 0nat })
            + (if self.result is Err { 1nat } else { 0nat })
    }

    /// After a poll: stop, or request a read.
    pub open spec fn after_poll(self, stop: bool) -> Self {
        if stop {
            WorkerView { phase: Phase::Stopping, deactivations: self.deactivations + 1, ..self }
        } else {
            WorkerView { phase: Phase::Reading, reads: self.reads + 1, ..self }
        }
    }

    /// After a read: hand out the batch, or keep the error and stop.
    pub open spec fn after_read(self, read: Result<Seq<T>, E>) -> Self {
        match read {
            Ok(batch) => WorkerView { phase: Phase::Sending, produced: self.produced.push(batch), ..self },
            Err(e) => WorkerView {
                phase: Phase::Stopping,
                result: Err(e),
                deactivations: self.deactivations + 1,
                ..self
            },
        }
    }

    /// After a send: poll again, or stop if the sink is closed.
    pub open spec fn after_send(self, accepted: bool) -> Self {
        if accepted {
            WorkerView {
                phase: Phase::Polling,
                delivered: self.delivered.push(self.produced.last()),
                ..self
            }
        } else {
            WorkerView {
                phase: Phase::Stopping,
                sink_closed: true,
                deactivations: self.deactivations + 1,
                ..self
            }
        }
    }
}

/// The state machine of one worker run.
pub struct Worker<T, E> {
    mtu: usize,
    phase: Phase,
    result: Result<(), E>,
    sink_closed: bool,
    produced: Ghost<Seq<Seq<T>>>,
    delivered: Ghost<Seq<Seq<T>>>,
    reads: Ghost<nat>,
    deactivations: Ghost<nat>,
}

impl<T, E> View for Worker<T, E> {
    type V = WorkerView<T, E>;

    closed spec fn view(&self) -> WorkerView<T, E> {
        WorkerView {
            mtu: self.mtu as nat,
            phase: self.phase,
            result: self.result,
            sink_closed: self.sink_closed,
            produced: self.produced@,
            delivered: self.delivered@,
            reads: self.reads@,
            deactivations: self.deactivations@,
        }
    }
}

impl<T, E> Worker<T, E> {
    /// A worker for a device whose transfer unit is `mtu` samples; its
    /// first action is [`Action::Poll`].
    pub fn new(mtu: usize) -> (r: Self)
        ensures
            r@.wf(),
            r@ == (WorkerView::<T, E> {
                mtu: mtu as nat,
                phase: Phase::Polling,
                result: Ok(()),
                sink_closed: false,
                produced: Seq::empty(),
                delivered: Seq::empty(),
                reads: 0,
                deactivations: 0,
            }),
    {
        Worker {
            mtu,
            phase: Phase::Polling,
            result: Ok(()),
            sink_closed: false,
            produced: Ghost(Seq::empty()),
            delivered: Ghost(Seq::empty()),
            reads: Ghost(0),
            deactivations: Ghost(0),
        }
    }

    pub fn phase(&self) -> (r: Phase)
        ensures
            r == self@.phase,
    {
        self.phase
    }

    pub fn mtu(&self) -> (r: usize)
        ensures
            r == self@.mtu,
    {
        self.mtu
    }

    /// Takes the result of polling the cancellation signal. Unless it says
    /// "not changed", the loop ends: the device is to be deactivated and no
    /// further read is requested. Otherwise a read of one transfer unit,
    /// bounded by [`READ_TIMEOUT_US`], is requested.
    pub fn on_poll(&mut self, signal: Result<bool, tokio::sync::watch::error::RecvError>) -> (r: Action<T>)
        requires
            old(self)@.wf(),
            old(self)@.phase is Polling,
        ensures
            final(self)@ == old(self)@.after_poll(stop_requested(signal)),
            final(self)@.wf(),
            stop_requested(signal) ==> r is Deactivate,
            !stop_requested(signal) ==> (r matches Action::Read { len, timeout_us } && len == old(self)@.mtu
                && timeout_us == READ_TIMEOUT_US),
    {
        let stop = match signal {
            Ok(changed) => changed,
            Err(_) => true,
        };
        if stop {
            self.phase = Phase::Stopping;
            self.deactivations = Ghost(self.deactivations@ + 1);
            Action::Deactivate
        } else {
            self.phase = Phase::Reading;
            self.reads = Ghost(self.reads@ + 1);
            Action::Read { len: self.mtu, timeout_us: READ_TIMEOUT_US }
        }
    }

    /// Polls the cancellation signal `abort` and acts on what it says, as
    /// [`Worker::on_poll`] does: either the loop ends, to deactivate the
    /// device, or a read of one transfer unit is requested.
    pub fn poll(&mut self, abort: &tokio::sync::watch::Receiver<()>) -> (r: Action<T>)
        requires
            old(self)@.wf(),
            old(self)@.phase is Polling,
        ensures
            final(self)@.wf(),
            final(self)@ == old(self)@.after_poll(true) || final(self)@ == old(self)@.after_poll(false),
            final(self)@.phase is Stopping ==> r is Deactivate,
            final(self)@.phase is Reading ==> (r matches Action::Read { len, timeout_us } && len
                == old(self)@.mtu && timeout_us == READ_TIMEOUT_US),
    {
        let signal = abort.has_changed();
        self.on_poll(signal)
    }

    /// Takes the buffer that was read into and the read's result. A
    /// successful read of `count` samples hands out the buffer cut to those
    /// samples, to be sent; a failed one records the error and ends the loop:
    /// there is no retry.
    pub fn on_read(&mut self, buffer: Vec<T>, read: Result<usize, E>) -> (r: Action<T>)
        requires
            old(self)@.wf(),
            old(self)@.phase is Reading,
        ensures
            final(self)@ == old(self)@.after_read(read_outcome(buffer@, read)),
            final(self)@.wf(),
            read is Ok ==> (r matches Action::Send(batch) && batch@ == read_batch(buffer@, read->Ok_0 as nat)),
            read is Err ==> r is Deactivate,
    {
        match read {
            Ok(count) => {
                let mut batch = buffer;
                batch.truncate(count);
                self.phase = Phase::Sending;
                self.produced = Ghost(self.produced@.push(batch@));
                proof {
                    assert(self.produced@.drop_last() =~= self.delivered@);
                }
                Action::Send(batch)
            },
            Err(e) => {
                self.result = Err(e);
                self.phase = Phase::Stopping;
                self.deactivations = Ghost(self.deactivations@ + 1);
                Action::Deactivate
            },
        }
    }

    /// Takes whether the sink accepted the batch. A closed sink ends the loop
    /// without an error: the consumers are gone, the device is not at fault.
    pub fn on_send(&mut self, accepted: bool) -> (r: Action<T>)
        requires
            old(self)@.wf(),
            old(self)@.phase is Sending,
        ensures
            final(self)@ == old(self)@.after_send(accepted),
            final(self)@.wf(),
            accepted ==> r is Poll,
            !accepted ==> r is Deactivate,
    {
        if accepted {
            self.phase = Phase::Polling;
            self.delivered = Ghost(self.delivered@.push(self.produced@.last()));
            proof {
                assert(self.delivered@ =~= self.produced@);
            }
            Action::Poll
        } else {
            self.phase = Phase::Stopping;
            self.sink_closed = true;
            self.deactivations = Ghost(self.deactivations@ + 1);
            Action::Deactivate
        }
    }

    /// Ends the run once the device has been deactivated: hands back the
    /// device handle with the first error of the run, the read error if
    /// there was one, else that of the deactivation.
    pub fn finish<H>(self, handle: H, deactivated: Result<(), E>) -> (r: WorkerOutcome<H, E>)
        requires
            self@.wf(),
            self@.phase is Stopping,
        ensures
            r.handle == handle,
            r.result == first_error(self@.result, deactivated),
    {
        let result = match self.result {
            Err(e) => Err(e),
            Ok(()) => deactivated,
        };
        WorkerOutcome { handle, result }
    }
}

/// The state after a stretch of the loop in which every poll finds no
/// cancellation, the reads return `chunks` one by one, and the sink accepts
/// every batch.
pub open spec fn deliver_all<T, E>(v: WorkerView<T, E>, chunks: Seq<Seq<T>>) -> WorkerView<T, E>
    decreases chunks.len(),
{
    if chunks.len() == 0 {
        v
    } else {
        deliver_all(v, chunks.drop_last()).after_poll(false).after_read(Ok(chunks.last())).after_send(
            true,
        )
    }
}

/// Batches reach the sink exactly as read and in the order read: after the
/// device yields `chunks` one by one, the sink has received exactly those
/// batches, in that order, with one read each and no deactivation yet.
pub proof fn lemma_batches_delivered_in_order<T, E>(v: WorkerView<T, E>, chunks: Seq<Seq<T>>)
    requires
        v.wf(),
        v.phase is Polling,
    ensures
        ({
            let w = deliver_all(v, chunks);
            &&& w.wf()
            &&& w.phase is Polling
            &&& w.delivered == v.delivered + chunks
            &&& w.produced == v.produced + chunks
            &&& w.reads == v.reads + chunks.len()
            &&& w.deactivations == 0
            &&& w.result == v.result
        }),
    decreases chunks.len(),
{
    if chunks.len() > 0 {
        let front = chunks.drop_last();
        lemma_batches_delivered_in_order(v, front);
        assert(v.delivered + chunks =~= (v.delivered + front).push(chunks.last()));
        assert(v.produced + chunks =~= (v.produced + front).push(chunks.last()));
        let w = deliver_all(v, chunks);
        assert(w.produced.drop_last() =~= v.produced + front);
    } else {
        assert(v.delivered + chunks =~= v.delivered);
        assert(v.produced + chunks =~= v.produced);
    }
}

/// A read error ends the run and is what the run reports: when the device
/// yields `chunks` and then fails its next read with `e`, those batches have
/// been delivered, the device is deactivated exactly once, and the run's
/// result is `e` whatever the deactivation returns.
pub proof fn lemma_read_error_surfaces<T, E>(
    v: WorkerView<T, E>,
    chunks: Seq<Seq<T>>,
    e: E,
    deactivated: Result<(), E>,
)
    requires
        v.wf(),
        v.phase is Polling,
    ensures
        ({
            let w = deliver_all(v, chunks).after_poll(false).after_read(Err(e));
            &&& w.wf()
            &&& w.phase is Stopping
            &&& w.delivered == v.delivered + chunks
            &&& w.reads == v.reads + chunks.len() + 1
            &&& w.deactivations == 1
            &&& first_error(w.result, deactivated) == Err::<(), E>(e)
        }),
{
    lemma_batches_delivered_in_order(v, chunks);
}

/// Cancellation is seen at the next poll: a poll that finds the signal
/// raised, or its sender gone, ends the loop with no further read. A read
/// already in flight (bounded by the read timeout) is the last one: after
/// it, and after the send of its batch, the next poll stops the loop.
pub proof fn lemma_cancellation_ends_reads<T, E>(
    v: WorkerView<T, E>,
    read: Result<Seq<T>, E>,
    accepted: bool,
)
    requires
        v.wf(),
        v.phase is Polling || v.phase is Reading,
    ensures
        v.phase is Polling ==> ({
            let w = v.after_poll(true);
            &&& w.wf()
            &&& w.phase is Stopping
            &&& w.reads == v.reads
            &&& w.deactivations == 1
        }),
        v.phase is Reading ==> ({
            let u = v.after_read(read);
            let w = if u.phase is Sending {
                let x = u.after_send(accepted);
                if x.phase is Polling {
                    x.after_poll(true)
                } else {
                    x
                }
            } else {
                u
            };
            &&& w.wf()
            &&& w.phase is Stopping
            &&& w.reads == v.reads
            &&& w.deactivations == 1
        }),
{
    if v.phase is Reading {
        let u = v.after_read(read);
        if u.phase is Sending {
            assert(u.produced.drop_last() =~= u.delivered);
            let x = u.after_send(accepted);
            if accepted {
                assert(x.delivered =~= x.produced);
            }
        }
    }
}

} // verus!
