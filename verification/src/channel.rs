//! The watch channel: an unbounded, ordered conduit from the platform
//! watcher's callback thread to the consumption loop. The sending end lives
//! inside the watcher's callback; the receiving end is owned by the watcher
//! instance and drained by the consumption loop.

use vstd::prelude::*;

verus! {

/// std's channel sender, kept opaque.
#[verifier::external_type_specification]
#[verifier::external_body]
#[verifier::reject_recursive_types(T)]
pub struct ExSender<T>(std::sync::mpsc::Sender<T>);

/// std's channel receiver, kept opaque.
#[verifier::external_type_specification]
#[verifier::external_body]
#[verifier::reject_recursive_types(T)]
pub struct ExReceiver<T>(std::sync::mpsc::Receiver<T>);

/// The sending end of a watch channel: cloned into the platform watcher's
/// callback, the only producer.
pub struct WatchSender {
    tx: std::sync::mpsc::Sender<notify::Event>,
}

/// The receiving end of a watch channel: owned exclusively by the watcher
/// instance and consumed only by the consumption loop.
pub struct WatchReceiver {
    rx: std::sync::mpsc::Receiver<notify::Event>,
}

/// The outcome of one blocking receive: an event, or the closed signal once
/// every sender is gone and the queue has drained.
pub enum Received {
    Event(notify::Event),
    Closed,
}

/// Relies on std::sync::mpsc::channel: returns a connected sender/receiver
/// pair over an unbounded first-in-first-out queue.
#[verifier::external_body]
fn mpsc_channel() -> (r: (
    std::sync::mpsc::Sender<notify::Event>,
    std::sync::mpsc::Receiver<notify::Event>,
)) {
    std::sync::mpsc::channel()
}

/// Relies on std::sync::mpsc::Sender::send: enqueues the event without
/// blocking; the result is whether a receiver still existed to take it.
#[verifier::external_body]
fn send_raw(tx: &std::sync::mpsc::Sender<notify::Event>, e: notify::Event) -> (r: bool) {
    tx.send(e).is_ok()
}

/// Relies on std::sync::mpsc::Receiver::recv: blocks until an event arrives
/// and hands it out, or reports closure once every sender has been dropped
/// and the queue is drained.
#[verifier::external_body]
fn recv_raw(rx: &std::sync::mpsc::Receiver<notify::Event>) -> (r: Received) {
    match rx.recv() {
        Ok(e) => Received::Event(e),
        Err(_) => Received::Closed,
    }
}

/// A fresh watch channel: the sender for the producer side, the receiver for
/// the consumption loop.
pub fn watch_channel() -> (r: (WatchSender, WatchReceiver)) {
    let (tx, rx) = mpsc_channel();
    (WatchSender { tx }, WatchReceiver { rx })
}

impl WatchSender {
    /// Sends one event toward the consumption loop without blocking. Returns
    /// whether a receiver still existed; an event sent after the receiver is
    /// gone is dropped.
    pub fn send(&self, e: notify::Event) -> (r: bool) {
        send_raw(&self.tx, e)
    }
}

impl WatchReceiver {
    /// Blocks until an event is available or the channel is closed.
    pub fn receive(&self) -> (r: Received) {
        recv_raw(&self.rx)
    }
}

/// Forwards one watcher-callback outcome into the channel: a successful
/// notification is sent on; an errored one is dropped, as is an event that
/// arrives after the receiving end is gone.
pub fn forward_event(tx: &WatchSender, outcome: Result<notify::Event, notify::Error>) {
    match outcome {
        Ok(e) => {
            let _sent = tx.send(e);
        },
        Err(_) => (),
    }
}

} // verus!
