//! The event-loop-synchronous native dialog bridge.
//!
//! One [`EventLoopBridge`] accompanies one dialog request from
//! submission to delivery. Its job is to present one uniform contract
//! — the requester's continuation runs exactly once, on the thread the
//! request was submitted from — no matter whether the native picker is
//! a synchronous modal or an asynchronous callback on an arbitrary OS
//! thread.
//!
//! The bridge is specified as a state machine over [`BridgeModel`]:
//! every executable transition is pinned to the one spec-level [`step`],
//! and the laws of the subsystem are proved over arbitrary event
//! sequences ([`run`]).

use vstd::prelude::*;
use crate::dialog::FileDialogOptions;
use crate::dialog::FileDialogType;
use crate::dispatcher::DeliveryModel;
use crate::dispatcher::Delivery;
use crate::dispatcher::ResultDispatcher;
use crate::dispatcher::abort_step;
use crate::dispatcher::complete_step;
use crate::dispatcher::dispatcher_init;
use crate::driver::DialogResult;
use crate::driver::NativeOutcome;
use crate::driver::OutcomeModel;
use crate::driver::ResultModel;
use crate::driver::normalize_model;
use crate::driver::normalize_outcome;

verus! {

/// A handle naming the application window that owns a request.
///
/// The bridge never owns the window's lifetime: whether the window is
/// still alive is checked by the event loop and handed in at `submit`.
#[derive(Debug, Clone, Copy, PartialEq, Eq, Structural)]
pub struct WindowHandle {
    /// The window's identifier in the shell.
    pub id: u64,
}

/// An immutable description of what to ask the OS for. Created by the
/// caller and consumed exactly once by the platform driver.
#[derive(Debug, Clone)]
pub struct DialogRequest {
    /// Whether to show an open or a save dialog.
    pub kind: FileDialogType,
    /// The dialog's options.
    pub options: FileDialogOptions,
    /// The window the dialog is anchored to.
    pub owner_window: WindowHandle,
}

/// The states a request passes through in the bridge.
#[derive(Debug, Clone, Copy, PartialEq, Eq, Structural)]
pub enum BridgeState {
    /// No request submitted yet.
    Idle,
    /// A request was accepted and waits to be handed to the driver.
    Issued,
    /// The native call is out; its outcome has not arrived.
    AwaitingNative,
    /// The normalized result sits in the owner thread's queue.
    ResultReady,
    /// The continuation ran; terminal.
    Delivered,
    /// The owner window went away before delivery; terminal.
    Aborted,
}

/// The mathematical state of an [`EventLoopBridge`].
pub struct BridgeModel {
    pub state: BridgeState,
    /// The event-loop thread the request was submitted from.
    pub owner_thread: u64,
    /// The kind of the accepted request, once one was accepted.
    pub kind: Option<FileDialogType>,
    /// How many native calls were issued for this request.
    pub native_calls: nat,
    /// The normalized result marshaled onto the owner thread's queue.
    pub pending: Option<ResultModel>,
    /// The state of the request's result dispatcher.
    pub dispatcher: crate::dispatcher::DispatcherModel,
}

/// Everything that can happen to a bridge.
pub enum BridgeEvent {
    /// The caller submits a request; the event loop reports whether
    /// the owner window is still alive.
    Submit { kind: FileDialogType, owner_alive: bool },
    /// The bridge hands the request to the platform driver.
    InvokeDriver,
    /// The native picker reports back, on an arbitrary OS thread.
    NativeReturn { outcome: OutcomeModel, thread: u64 },
    /// The owner thread's event loop pumps one pending delivery.
    Dispatch,
    /// The owner window is destroyed, or the loop shuts down.
    OwnerDestroyed,
}

/// A fresh bridge owned by the event-loop thread `owner_thread`.
pub open spec fn bridge_init(owner_thread: u64) -> BridgeModel {
    BridgeModel {
        state: BridgeState::Idle,
        owner_thread,
        kind: None,
        native_calls: 0,
        pending: None,
        dispatcher: dispatcher_init(),
    }
}

/// The one transition function of the bridge.
///
/// Events that make no sense in the current state leave the bridge
/// unchanged: a late native callback after an abort, and a malformed
/// second callback, are discarded silently; the terminal states absorb
/// everything.
pub open spec fn step(m: BridgeModel, e: BridgeEvent) -> BridgeModel {
    match e {
        BridgeEvent::Submit { kind, owner_alive } => if m.state == BridgeState::Idle {
            if owner_alive {
                BridgeModel { state: BridgeState::Issued, kind: Some(kind), ..m }
            } else {
                // the window is already gone: no native call, the
                // requester is handed `Cancelled` at once
                BridgeModel {
                    state: BridgeState::Aborted,
                    dispatcher: complete_step(m.dispatcher, ResultModel::Cancelled, m.owner_thread),
                    ..m
                }
            }
        } else {
            m
        },
        BridgeEvent::InvokeDriver => if m.state == BridgeState::Issued {
            BridgeModel {
                state: BridgeState::AwaitingNative,
                native_calls: m.native_calls + 1,
                ..m
            }
        } else {
            m
        },
        BridgeEvent::NativeReturn { outcome, thread } => if m.state == BridgeState::AwaitingNative {
            // whatever thread the callback fired on, the result is
            // normalized and marshaled onto the owner thread's queue
            BridgeModel { state: BridgeState::ResultReady, pending: Some(normalize_model(outcome)), ..m }
        } else {
            m
        },
        BridgeEvent::Dispatch => if m.state == BridgeState::ResultReady && m.pending is Some {
            BridgeModel {
                state: BridgeState::Delivered,
                pending: None,
                dispatcher: complete_step(m.dispatcher, m.pending->Some_0, m.owner_thread),
                ..m
            }
        } else {
            m
        },
        BridgeEvent::OwnerDestroyed => if m.state == BridgeState::Delivered || m.state
            == BridgeState::Aborted {
            m
        } else {
            BridgeModel {
                state: BridgeState::Aborted,
                pending: None,
                dispatcher: abort_step(m.dispatcher),
                ..m
            }
        },
    }
}

/// A whole run of the bridge: the state after every event of `es`,
/// oldest first, has been applied.
pub open spec fn run(m: BridgeModel, es: Seq<BridgeEvent>) -> BridgeModel
    decreases es.len(),
{
    if es.len() == 0 {
        m
    } else {
        run(step(m, es[0]), es.drop_first())
    }
}

/// The bridge invariant: at most one native call, at most one
/// delivery, every delivery on the owner thread, and the bookkeeping
/// each state promises.
pub open spec fn inv(m: BridgeModel) -> bool {
    &&& m.native_calls <= 1
    &&& m.dispatcher.slot_armed ==> m.dispatcher.deliveries.len() == 0
    &&& m.dispatcher.deliveries.len() <= 1
    &&& forall|i: int|
        0 <= i < m.dispatcher.deliveries.len() ==> m.dispatcher.deliveries[i].thread
            == m.owner_thread
    &&& m.state == BridgeState::Idle ==> m.native_calls == 0 && m.kind is None && m.pending is None
        && m.dispatcher.slot_armed
    &&& m.state == BridgeState::Issued ==> m.native_calls == 0 && m.kind is Some
        && m.pending is None && m.dispatcher.slot_armed
    &&& m.state == BridgeState::AwaitingNative ==> m.native_calls == 1 && m.kind is Some
        && m.pending is None && m.dispatcher.slot_armed
    &&& m.state == BridgeState::ResultReady ==> m.native_calls == 1 && m.kind is Some
        && m.pending is Some && m.dispatcher.slot_armed
    &&& m.state == BridgeState::Delivered ==> m.pending is None && !m.dispatcher.slot_armed
        && m.dispatcher.deliveries.len() == 1
    &&& m.state == BridgeState::Aborted ==> m.pending is None && !m.dispatcher.slot_armed
}

/// Every step keeps the invariant and the owner thread.
pub proof fn lemma_step_preserves_inv(m: BridgeModel, e: BridgeEvent)
    requires
        inv(m),
    ensures
        inv(step(m, e)),
        step(m, e).owner_thread == m.owner_thread,
{
}

/// Every run keeps the invariant and the owner thread.
pub proof fn lemma_run_preserves_inv(m: BridgeModel, es: Seq<BridgeEvent>)
    requires
        inv(m),
    ensures
        inv(run(m, es)),
        run(m, es).owner_thread == m.owner_thread,
    decreases es.len(),
{
    if es.len() > 0 {
        lemma_step_preserves_inv(m, es[0]);
        lemma_run_preserves_inv(step(m, es[0]), es.drop_first());
    }
}

/// `Delivered` and `Aborted` are terminal: no later event changes the
/// bridge again.
pub proof fn lemma_terminal_absorbs(m: BridgeModel, es: Seq<BridgeEvent>)
    requires
        m.state == BridgeState::Delivered || m.state == BridgeState::Aborted,
    ensures
        run(m, es) == m,
    decreases es.len(),
{
    if es.len() > 0 {
        assert(step(m, es[0]) == m);
        lemma_terminal_absorbs(step(m, es[0]), es.drop_first());
    }
}

/// A request submitted with a live owner window is delivered at most
/// once, whatever happens afterwards — and exactly once if the bridge
/// reaches `Delivered`. The one delivered result is, by its type,
/// either a selection or a cancellation.
pub proof fn lemma_live_request_delivered_exactly_once(
    owner_thread: u64,
    kind: FileDialogType,
    es: Seq<BridgeEvent>,
)
    ensures
        ({
            let m = run(
                step(bridge_init(owner_thread), BridgeEvent::Submit { kind, owner_alive: true }),
                es,
            );
            &&& m.dispatcher.deliveries.len() <= 1
            &&& m.state == BridgeState::Delivered ==> m.dispatcher.deliveries.len() == 1
        }),
{
    let m0 = bridge_init(owner_thread);
    assert(inv(m0));
    lemma_step_preserves_inv(m0, BridgeEvent::Submit { kind, owner_alive: true });
    lemma_run_preserves_inv(step(m0, BridgeEvent::Submit { kind, owner_alive: true }), es);
}

/// A request submitted with an already-destroyed owner window is over
/// at once: the bridge is `Aborted`, the requester was handed exactly
/// one `Cancelled` on the owner thread, and no native call is ever
/// issued, whatever happens afterwards.
pub proof fn lemma_dead_owner_cancelled_without_native_call(
    owner_thread: u64,
    kind: FileDialogType,
    es: Seq<BridgeEvent>,
)
    ensures
        ({
            let m1 = step(
                bridge_init(owner_thread),
                BridgeEvent::Submit { kind, owner_alive: false },
            );
            &&& m1.state == BridgeState::Aborted
            &&& m1.native_calls == 0
            &&& m1.dispatcher.deliveries =~= seq![
                (DeliveryModel { result: ResultModel::Cancelled, thread: owner_thread }),
            ]
            &&& run(m1, es) == m1
        }),
{
    let m1 = step(bridge_init(owner_thread), BridgeEvent::Submit { kind, owner_alive: false });
    lemma_terminal_absorbs(m1, es);
}

/// Whatever threads the native callbacks fire on, every continuation
/// invocation of any run happens on the owner thread.
pub proof fn lemma_delivery_on_owner_thread(owner_thread: u64, es: Seq<BridgeEvent>)
    ensures
        forall|i: int|
            0 <= i < run(bridge_init(owner_thread), es).dispatcher.deliveries.len() ==> run(
                bridge_init(owner_thread),
                es,
            ).dispatcher.deliveries[i].thread == owner_thread,
{
    assert(inv(bridge_init(owner_thread)));
    lemma_run_preserves_inv(bridge_init(owner_thread), es);
}

/// The complete life of one live request: submitted, handed to the
/// driver, reported back by the native picker — on whatever thread —
/// and pumped once by the owner loop. The requester is handed exactly
/// the normalized native outcome, once, on the owner thread, and one
/// native call was issued.
pub proof fn lemma_full_run_delivers_normalized_outcome(
    owner_thread: u64,
    kind: FileDialogType,
    outcome: OutcomeModel,
    thread: u64,
)
    ensures
        ({
            let es = seq![
                BridgeEvent::Submit { kind, owner_alive: true },
                BridgeEvent::InvokeDriver,
                BridgeEvent::NativeReturn { outcome, thread },
                BridgeEvent::Dispatch,
            ];
            let m = run(bridge_init(owner_thread), es);
            &&& m.state == BridgeState::Delivered
            &&& m.native_calls == 1
            &&& m.kind == Some(kind)
            &&& m.dispatcher.deliveries =~= seq![
                (DeliveryModel { result: normalize_model(outcome), thread: owner_thread }),
            ]
        }),
{
    let es = seq![
        BridgeEvent::Submit { kind, owner_alive: true },
        BridgeEvent::InvokeDriver,
        BridgeEvent::NativeReturn { outcome, thread },
        BridgeEvent::Dispatch,
    ];
    let m1 = step(bridge_init(owner_thread), es[0]);
    let m2 = step(m1, es[1]);
    let m3 = step(m2, es[2]);
    let m4 = step(m3, es[3]);
    let t1 = es.drop_first();
    let t2 = t1.drop_first();
    let t3 = t2.drop_first();
    let t4 = t3.drop_first();
    assert(run(bridge_init(owner_thread), es) == run(m1, t1));
    assert(t1[0] == es[1] && t2[0] == es[2] && t3[0] == es[3]);
    assert(run(m1, t1) == run(m2, t2));
    assert(run(m2, t2) == run(m3, t3));
    assert(run(m3, t3) == run(m4, t4));
    assert(t4.len() == 0);
    assert(run(m4, t4) == m4);
}

/// Accompanies one dialog request from submission to delivery,
/// issuing the native call and marshaling its outcome back onto the
/// owner thread.
pub struct EventLoopBridge {
    state: BridgeState,
    owner_thread: u64,
    request: Option<DialogRequest>,
    kind: Option<FileDialogType>,
    native_calls: u64,
    pending: Option<DialogResult>,
    dispatcher: ResultDispatcher,
}

impl View for EventLoopBridge {
    type V = BridgeModel;

    closed spec fn view(&self) -> BridgeModel {
        BridgeModel {
            state: self.state,
            owner_thread: self.owner_thread,
            kind: self.kind,
            native_calls: self.native_calls as nat,
            pending: match self.pending {
                Some(r) => Some(r@),
                None => None,
            },
            dispatcher: self.dispatcher@,
        }
    }
}

impl EventLoopBridge {
    /// The bridge invariant, together with the tie between the stored
    /// request and its modeled kind.
    pub closed spec fn wf(&self) -> bool {
        &&& inv(self@)
        &&& self@.state == BridgeState::Issued ==> self.request is Some
        &&& match self.request {
            Some(r) => self.kind == Some(r.kind),
            None => true,
        }
    }

    /// The request held for the driver, between `submit` and
    /// `take_native_call`.
    pub closed spec fn spec_request(&self) -> Option<DialogRequest> {
        self.request
    }

    /// A fresh bridge for one request, owned by the event-loop thread
    /// `owner_thread`.
    pub fn new(owner_thread: u64) -> (b: EventLoopBridge)
        ensures
            b.wf(),
            b@ == bridge_init(owner_thread),
            b.spec_request() is None,
    {
        EventLoopBridge {
            state: BridgeState::Idle,
            owner_thread,
            request: None,
            kind: None,
            native_calls: 0,
            pending: None,
            dispatcher: ResultDispatcher::new(),
        }
    }

    /// Submit a request. With a live owner window the request is
    /// accepted and held for the driver; with the owner already gone
    /// the request is dropped and the requester is handed `Cancelled`
    /// at once, on the owner thread, with no native call issued.
    pub fn submit(&mut self, request: DialogRequest, owner_alive: bool)
        requires
            old(self).wf(),
            old(self)@.state == BridgeState::Idle,
        ensures
            final(self).wf(),
            final(self)@ == step(
                old(self)@,
                BridgeEvent::Submit { kind: request.kind, owner_alive },
            ),
            owner_alive ==> final(self).spec_request() == Some(request),
            !owner_alive ==> final(self).spec_request() is None,
    {
        if owner_alive {
            self.kind = Some(request.kind);
            self.request = Some(request);
            self.state = BridgeState::Issued;
        } else {
            self.state = BridgeState::Aborted;
            let t = self.owner_thread;
            self.dispatcher.complete(DialogResult::Cancelled, t);
        }
    }

    /// Hand the submitted request out to the platform driver: the
    /// bridge moves to `AwaitingNative` and the one native call of
    /// this request is issued, with exactly the request that was
    /// submitted.
    pub fn take_native_call(&mut self) -> (r: DialogRequest)
        requires
            old(self).wf(),
            old(self)@.state == BridgeState::Issued,
        ensures
            final(self).wf(),
            final(self)@ == step(old(self)@, BridgeEvent::InvokeDriver),
            Some(r) == old(self).spec_request(),
            final(self).spec_request() is None,
    {
        self.state = BridgeState::AwaitingNative;
        self.native_calls = self.native_calls + 1;
        self.request.take().unwrap()
    }

    /// Receive the native picker's report, fired on `thread` — any OS
    /// thread. A first callback while the bridge is waiting
    /// normalizes the outcome and marshals it onto the owner thread's
    /// queue; a late callback after an abort, and a malformed second
    /// callback, are discarded silently.
    pub fn native_callback(&mut self, outcome: NativeOutcome, thread: u64)
        requires
            old(self).wf(),
        ensures
            final(self).wf(),
            final(self)@ == step(
                old(self)@,
                BridgeEvent::NativeReturn { outcome: outcome@, thread },
            ),
    {
        if self.state == BridgeState::AwaitingNative {
            let r = normalize_outcome(outcome);
            self.pending = Some(r);
            self.state = BridgeState::ResultReady;
        }
    }

    /// Pump one delivery on the owner thread: when a marshaled result
    /// is ready, the dispatcher invokes the requester's continuation
    /// with it, there; in any other state this is a no-op. The event
    /// loop runs this only on the owner thread.
    pub fn dispatch(&mut self)
        requires
            old(self).wf(),
        ensures
            final(self).wf(),
            final(self)@ == step(old(self)@, BridgeEvent::Dispatch),
    {
        if self.state == BridgeState::ResultReady {
            match self.pending.take() {
                Some(res) => {
                    let t = self.owner_thread;
                    self.dispatcher.complete(res, t);
                    self.state = BridgeState::Delivered;
                },
                None => {},
            }
        }
    }

    /// The owner window was destroyed, or the loop is shutting down.
    /// A bridge not yet delivered is aborted: a pending result is
    /// discarded, and the continuation is dropped without being
    /// invoked. A finished bridge is left as it is.
    pub fn owner_destroyed(&mut self)
        requires
            old(self).wf(),
        ensures
            final(self).wf(),
            final(self)@ == step(old(self)@, BridgeEvent::OwnerDestroyed),
    {
        if self.state == BridgeState::Delivered || self.state == BridgeState::Aborted {
        } else {
            self.state = BridgeState::Aborted;
            self.pending = None;
            self.request = None;
            self.dispatcher.abort();
        }
    }

    /// The current state.
    pub fn state(&self) -> (s: BridgeState)
        ensures
            s == self@.state,
    {
        self.state
    }

    /// The event-loop thread that owns this request.
    pub fn owner_thread(&self) -> (t: u64)
        ensures
            t == self@.owner_thread,
    {
        self.owner_thread
    }

    /// How many native calls were issued for this request.
    pub fn native_call_count(&self) -> (n: u64)
        ensures
            n as nat == self@.native_calls,
    {
        self.native_calls
    }

    /// The single delivery made to the requester, if any.
    pub fn delivery(&self) -> (r: &Option<Delivery>)
        ensures
            match r {
                Some(d) => self@.dispatcher.deliveries =~= seq![d@],
                None => self@.dispatcher.deliveries.len() == 0,
            },
    {
        self.dispatcher.delivered()
    }

    /// Whether a malformed double delivery was ever attempted on this
    /// request.
    pub fn double_delivery_detected(&self) -> (b: bool)
        ensures
            b == self@.dispatcher.double_delivery,
    {
        self.dispatcher.double_delivery_detected()
    }
}

} // verus!
