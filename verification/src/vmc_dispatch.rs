//! Handing received datagrams to the passthrough worker: a bounded queue
//! that drops a datagram, counts it and records a warning when the worker
//! cannot take it.
use vstd::prelude::*;
use std::sync::atomic::AtomicU64;
use std::sync::mpsc::SyncSender;
use std::sync::{Arc, Mutex};

verus! {

#[verifier::external_type_specification]
#[verifier::external_body]
#[verifier::reject_recursive_types(T)]
pub struct ExSyncSender<T>(SyncSender<T>);

#[verifier::external_type_specification]
#[verifier::external_body]
#[verifier::reject_recursive_types(T)]
pub struct ExMutex<T: ?Sized>(Mutex<T>);

/// How handing a datagram to the worker's queue went.
#[derive(Debug, Clone, Copy, PartialEq, Eq, Structural)]
pub enum SendAttempt {
    Queued,
    QueueFull,
    WorkerGone,
}

/// `SyncSender::try_send`: queues the datagram without blocking. Whether
/// it was queued depends on the queue's fill and on the worker being
/// alive at that moment, so nothing is stated of the outcome.
#[verifier::external_body]
fn try_queue(sender: &SyncSender<Vec<u8>>, payload: Vec<u8>) -> (attempt: SendAttempt) {
    match sender.try_send(payload) {
        Ok(()) => SendAttempt::Queued,
        Err(std::sync::mpsc::TrySendError::Full(_)) => SendAttempt::QueueFull,
        Err(std::sync::mpsc::TrySendError::Disconnected(_)) => SendAttempt::WorkerGone,
    }
}

/// `Mutex::lock` and a store of `warning` into the guarded slot; a
/// poisoned lock leaves the slot as it was. The slot is shared with the
/// worker and read elsewhere, so nothing is stated of it.
#[verifier::external_body]
fn store_warning(slot: &Mutex<Option<String>>, warning: String) {
    if let Ok(mut guard) = slot.lock() {
        *guard = Some(warning);
    }
}

/// The text of the warning for a datagram that could not be queued.
pub open spec fn drop_warning_text(attempt: SendAttempt) -> Option<Seq<char>> {
    match attempt {
        SendAttempt::Queued => None,
        SendAttempt::QueueFull => Some("passthrough queue is full; dropping packet"@),
        SendAttempt::WorkerGone => Some("passthrough worker is disconnected; dropping packet"@),
    }
}

/// The warning to report for the outcome of handing over a datagram.
pub fn drop_warning(attempt: SendAttempt) -> (w: Option<String>)
    ensures
        w is Some <==> drop_warning_text(attempt) is Some,
        w matches Some(s) ==> s@ == drop_warning_text(attempt).unwrap(),
{
    match attempt {
        SendAttempt::Queued => None,
        SendAttempt::QueueFull => Some(String::from_str("passthrough queue is full; dropping packet")),
        SendAttempt::WorkerGone => Some(
            String::from_str("passthrough worker is disconnected; dropping packet"),
        ),
    }
}

fn copy_payload(payload: &[u8]) -> (out: Vec<u8>)
    ensures
        out@ == payload@,
{
    let mut out: Vec<u8> = Vec::new();
    let mut i: usize = 0;
    while i < payload.len()
        invariant
            i <= payload@.len(),
            out@ == payload@.take(i as int),
        decreases payload.len() - i,
    {
        out.push(payload[i]);
        i = i + 1;
        assert(out@ =~= payload@.take(i as int));
    }
    assert(payload@.take(payload@.len() as int) =~= payload@);
    out
}

/// The reading thread's handle on the passthrough worker.
pub struct PassthroughDispatch {
    pub sender: SyncSender<Vec<u8>>,
    pub dropped_packets: Arc<AtomicU64>,
    pub last_warning: Arc<Mutex<Option<String>>>,
}

impl PassthroughDispatch {
    /// Hands a copy of `payload` to the worker. When the queue is full or
    /// the worker is gone the datagram is dropped: the drop counter goes
    /// up, the warning is stored for the statistics and returned.
    pub fn forward_payload(&self, payload: &[u8]) -> (r: Option<String>)
        ensures
            exists|attempt: SendAttempt|
                {
                    &&& (r is Some <==> drop_warning_text(attempt) is Some)
                    &&& (r matches Some(s) ==> s@ == drop_warning_text(attempt).unwrap())
                },
    {
        let attempt = try_queue(&self.sender, copy_payload(payload));
        let warning = drop_warning(attempt);
        if let Some(text) = &warning {
            self.dropped_packets.fetch_add(1, std::sync::atomic::Ordering::Relaxed);
            store_warning(&self.last_warning, text.clone());
        }
        warning
    }
}

} // verus!
