//! The watcher: owns the platform watcher handle and the channel's receiving
//! end, and exposes the start/stop lifecycle. `from_paths` wires the platform
//! watcher to the channel, `start` runs the blocking consumption loop, and
//! `stop` drops the handle so the loop observes closure and exits.

use vstd::prelude::*;

use crate::channel::Received;
use crate::channel::WatchReceiver;
use crate::channel::WatchSender;
use crate::channel::watch_channel;
use crate::event::delivered_model;
use crate::event::event_kind_of;
use crate::event::event_paths_of;
use crate::event::extract_event;
use crate::event::received_models;
use crate::event::serialize_event;
use crate::convert::convert;
use crate::value::DynModel;
use crate::value::DynamicValue;
use crate::value::dyn_models;
use crate::value::lemma_dyn_models;

verus! {

/// The platform watcher handle, kept opaque: while it lives, the watches are
/// registered and its callback produces into the channel.
#[verifier::external_type_specification]
#[verifier::external_body]
pub struct ExWatcher(notify::RecommendedWatcher);

/// The platform watcher's error type, kept opaque.
#[verifier::external_type_specification]
#[verifier::external_body]
pub struct ExNotifyError(notify::Error);

/// Why construction of a watcher failed. Setup failure is fatal: the caller
/// gets it at once and no instance exists.
#[derive(Debug, PartialEq, Eq)]
pub enum WatchError {
    /// The platform watcher could not be constructed.
    Init,
    /// The named path could not be registered for watching.
    Watch(String),
}

/// The paths a platform watcher handle has been asked to watch, in
/// registration order.
pub uninterp spec fn registered(w: notify::RecommendedWatcher) -> Seq<Seq<char>>;

/// The character sequences of a sequence of strings, in order.
pub open spec fn path_views(s: Seq<String>) -> Seq<Seq<char>> {
    Seq::new(s.len(), |i: int| s[i]@)
}

/// Relies on notify::recommended_watcher: builds the platform watcher, with
/// nothing registered yet; its callback hands every outcome to
/// `forward_event` on the given sender, so the callback thread never blocks.
#[verifier::external_body]
fn make_watcher(tx: WatchSender) -> (r: Result<notify::RecommendedWatcher, notify::Error>)
    ensures
        r matches Ok(w) ==> registered(w) == Seq::<Seq<char>>::empty(),
{
    notify::recommended_watcher(
        move |outcome: Result<notify::Event, notify::Error>|
            crate::channel::forward_event(&tx, outcome),
    )
}

/// Relies on notify::Watcher::watch: on success the handle holds one more
/// registration, of this path, watched recursively, so that changes anywhere
/// beneath it are reported.
#[verifier::external_body]
fn watch_recursive(w: &mut notify::RecommendedWatcher, path: &String) -> (r: Result<
    (),
    notify::Error,
>)
    ensures
        r matches Ok(u) ==> registered(*final(w)) == registered(*old(w)).push(path@),
{
    notify::Watcher::watch(
        w,
        std::path::Path::new(path.as_str()),
        notify::RecursiveMode::Recursive,
    )
}

/// The consumer-side delivery hook: receives one converted value per event,
/// synchronously on the consumption thread. `delivered` is the record of the
/// values received so far, in delivery order.
pub trait Subscriber {
    spec fn delivered(&self) -> Seq<DynModel>;

    /// Takes delivery of one value: it is appended to the record.
    fn deliver(&mut self, v: DynamicValue)
        ensures
            final(self).delivered() == old(self).delivered().push(v.model()),
    ;
}

/// A subscriber that keeps every delivered value, in delivery order.
pub struct CollectingSubscriber {
    pub values: Vec<DynamicValue>,
}

impl CollectingSubscriber {
    /// A subscriber that has received nothing yet.
    pub fn new() -> (r: CollectingSubscriber)
        ensures
            r.delivered() == Seq::<DynModel>::empty(),
    {
        CollectingSubscriber { values: Vec::new() }
    }
}

impl Subscriber for CollectingSubscriber {
    open spec fn delivered(&self) -> Seq<DynModel> {
        dyn_models(self.values@)
    }

    fn deliver(&mut self, v: DynamicValue) {
        proof {
            lemma_dyn_models(self.values@);
        }
        self.values.push(v);
        proof {
            lemma_dyn_models(self.values@);
            assert(dyn_models(self.values@) =~= dyn_models(old(self).values@).push(v.model()));
        }
    }
}

/// The consumption loop: blocks on the channel, delivers each event's
/// converted value to the subscriber in arrival order, and returns when the
/// channel closes — once every sender is dropped and the queue has drained.
/// The subscriber's record grows by exactly the delivered values of the
/// events received, one per event, in the order they were received.
#[verifier::loop_isolation(false)]
pub fn run_loop<S: Subscriber>(rx: &WatchReceiver, sub: &mut S)
    ensures
        exists|es: Seq<notify::Event>|
            final(sub).delivered() == old(sub).delivered() + received_models(es),
{
    let ghost mut es: Seq<notify::Event> = Seq::empty();
    // The loop ends when the channel closes; termination checking also wants
    // a measure, so the deliveries are capped at u64::MAX, beyond any queue.
    let mut fuel: u64 = u64::MAX;
    while fuel > 0
        invariant
            sub.delivered() == old(sub).delivered() + received_models(es),
        decreases fuel,
    {
        match rx.receive() {
            Received::Event(e) => {
                let d = extract_event(&e);
                let sv = serialize_event(&d);
                let v = convert(&sv);
                sub.deliver(v);
                fuel = fuel - 1;
                proof {
                    let es0 = es;
                    es = es.push(e);
                    assert(received_models(es) =~= received_models(es0).push(
                        delivered_model((event_kind_of(e), event_paths_of(e))),
                    ));
                }
            },
            Received::Closed => {
                break ;
            },
        }
    }
}

/// Owns the platform watcher handle (absent once stopped) and the channel's
/// receiving end.
pub struct FsWatcher {
    watcher: Option<notify::RecommendedWatcher>,
    rx: WatchReceiver,
}

impl FsWatcher {
    /// Whether the watcher handle has been torn down.
    pub closed spec fn stopped(self) -> bool {
        self.watcher is None
    }

    /// The state this watcher is in once stopped: the handle gone, the
    /// receiving end kept.
    pub closed spec fn after_stop(self) -> FsWatcher {
        FsWatcher { watcher: None, ..self }
    }

    /// The paths the live handle has been asked to watch, in registration
    /// order; none once stopped.
    pub closed spec fn registered_paths(self) -> Seq<Seq<char>> {
        match self.watcher {
            Some(w) => registered(w),
            None => Seq::empty(),
        }
    }

    /// Builds the channel and the platform watcher, wires the watcher's
    /// callback to the sending end, and registers a recursive watch on every
    /// supplied path, in order: on success the handle holds exactly the
    /// supplied paths. An empty path list is legal: the watcher then never
    /// fires. On failure the instance does not exist: either the platform
    /// watcher could not be constructed, or registering one of the supplied
    /// paths failed — that path is named in the error.
    #[verifier::loop_isolation(false)]
    pub fn from_paths(paths: &Vec<String>) -> (r: Result<FsWatcher, WatchError>)
        ensures
            r matches Ok(w) ==> !w.stopped() && w.registered_paths() == path_views(paths@),
            r matches Err(WatchError::Watch(p)) ==> exists|i: int|
                0 <= i < paths@.len() && p@ == #[trigger] paths@[i]@,
    {
        let (tx, rx) = watch_channel();
        let mut w = match make_watcher(tx) {
            Ok(w) => w,
            Err(_) => {
                return Err(WatchError::Init);
            },
        };
        let mut i: usize = 0;
        while i < paths.len()
            invariant
                i <= paths@.len(),
                registered(w) == path_views(paths@).subrange(0, i as int),
            decreases paths@.len() - i,
        {
            match watch_recursive(&mut w, &paths[i]) {
                Ok(()) => {
                    proof {
                        assert(registered(w) =~= path_views(paths@).subrange(0, i + 1 as int));
                    }
                },
                Err(_) => {
                    let p = paths[i].clone();
                    proof {
                        assert(0 <= i < paths@.len() && p@ == paths@[i as int]@);
                    }
                    return Err(WatchError::Watch(p));
                },
            }
            i = i + 1;
        }
        proof {
            assert(registered(w) =~= path_views(paths@));
        }
        Ok(FsWatcher { watcher: Some(w), rx })
    }

    /// A watcher over an already-built receiving end, with no platform handle:
    /// it is already stopped, and `start` merely drains what the senders put
    /// into the channel before closure.
    pub fn from_receiver(rx: WatchReceiver) -> (r: FsWatcher)
        ensures
            r.stopped(),
    {
        FsWatcher { watcher: None, rx }
    }

    /// Whether `stop` has torn the watcher handle down.
    pub fn is_stopped(&self) -> (r: bool)
        ensures
            r == self.stopped(),
    {
        self.watcher.is_none()
    }

    /// Enters the blocking consumption loop: the subscriber's record grows by
    /// exactly the converted values of the events received, one per event, in
    /// arrival order, and the call returns when the channel closes — the sole
    /// graceful termination path. Call `stop` from another thread to end it.
    pub fn start<S: Subscriber>(&self, sub: &mut S)
        ensures
            exists|es: Seq<notify::Event>|
                final(sub).delivered() == old(sub).delivered() + received_models(es),
    {
        run_loop(&self.rx, sub)
    }

    /// Drops the watcher handle, unregistering all watches and the embedded
    /// sender; the consumption loop observes closure once the queue drains.
    /// Idempotent: stopping an already-stopped watcher changes nothing.
    pub fn stop(&mut self)
        ensures
            *final(self) == old(self).after_stop(),
            final(self).stopped(),
            final(self).registered_paths() == Seq::<Seq<char>>::empty(),
    {
        self.watcher = None;
    }

    /// Stopping twice leaves exactly the end state of stopping once.
    pub proof fn lemma_stop_idempotent(self)
        ensures
            self.after_stop().after_stop() == self.after_stop(),
    {
    }
}

} // verus!
