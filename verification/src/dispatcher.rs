//! Exactly-once result delivery.
//!
//! The [`ResultDispatcher`] holds the single-use continuation slot of
//! one dialog request. The requester's continuation is modeled by a
//! record: invoking the continuation is recording a [`Delivery`].
//! The first `complete` consumes the slot; a second one — a malformed
//! native backend firing its callback twice — is absorbed, and only
//! noted as a double-delivery fault. An `abort` clears the slot
//! without invoking the continuation at all.

use vstd::prelude::*;
use crate::driver::DialogResult;
use crate::driver::ResultModel;

verus! {

/// One invocation of the requester's continuation.
#[derive(Debug, Clone)]
pub struct Delivery {
    /// The result handed to the requester.
    pub result: DialogResult,
    /// The thread the continuation ran on.
    pub thread: u64,
}

/// The mathematical value of a [`Delivery`].
pub struct DeliveryModel {
    pub result: ResultModel,
    pub thread: u64,
}

impl View for Delivery {
    type V = DeliveryModel;

    open spec fn view(&self) -> DeliveryModel {
        DeliveryModel { result: self.result@, thread: self.thread }
    }
}

/// The mathematical state of a [`ResultDispatcher`]: whether the
/// single-use slot is still armed, every continuation invocation made
/// so far, and whether a double delivery was ever attempted.
pub struct DispatcherModel {
    pub slot_armed: bool,
    pub deliveries: Seq<DeliveryModel>,
    pub double_delivery: bool,
}

/// A fresh dispatcher: slot armed, nothing delivered, no fault seen.
pub open spec fn dispatcher_init() -> DispatcherModel {
    DispatcherModel { slot_armed: true, deliveries: Seq::empty(), double_delivery: false }
}

/// What `complete` does: a delivery is recorded only while the slot
/// is armed; completing a consumed slot changes no delivery and only
/// raises the double-delivery diagnostic.
pub open spec fn complete_step(d: DispatcherModel, r: ResultModel, thread: u64) -> DispatcherModel {
    if d.slot_armed {
        DispatcherModel {
            slot_armed: false,
            deliveries: d.deliveries.push(DeliveryModel { result: r, thread }),
            double_delivery: d.double_delivery,
        }
    } else {
        DispatcherModel { slot_armed: d.slot_armed, deliveries: d.deliveries, double_delivery: true }
    }
}

/// What `abort` does: the slot is cleared without a delivery.
pub open spec fn abort_step(d: DispatcherModel) -> DispatcherModel {
    DispatcherModel { slot_armed: false, deliveries: d.deliveries, double_delivery: d.double_delivery }
}

/// Delivers the outcome of one dialog request to its requester,
/// exactly once.
pub struct ResultDispatcher {
    slot_armed: bool,
    delivered: Option<Delivery>,
    double_delivery: bool,
}

impl View for ResultDispatcher {
    type V = DispatcherModel;

    closed spec fn view(&self) -> DispatcherModel {
        DispatcherModel {
            slot_armed: self.slot_armed,
            deliveries: match self.delivered {
                Some(d) => seq![d@],
                None => Seq::empty(),
            },
            double_delivery: self.double_delivery,
        }
    }
}

impl ResultDispatcher {
    /// While the slot is armed, nothing has been delivered yet.
    pub open spec fn wf(&self) -> bool {
        self@.slot_armed ==> self@.deliveries.len() == 0
    }

    /// A fresh dispatcher holding the single-use continuation slot.
    pub fn new() -> (d: ResultDispatcher)
        ensures
            d@ == dispatcher_init(),
            d.wf(),
    {
        let d = ResultDispatcher { slot_armed: true, delivered: None, double_delivery: false };
        proof {
            assert(d@.deliveries =~= dispatcher_init().deliveries);
        }
        d
    }

    /// Deliver `result` to the requester, with the continuation
    /// running on thread `thread`.
    ///
    /// The first call consumes the slot; any later call is absorbed
    /// and only raises the double-delivery fault.
    pub fn complete(&mut self, result: DialogResult, thread: u64)
        requires
            old(self).wf(),
        ensures
            final(self).wf(),
            final(self)@ == complete_step(old(self)@, result@, thread),
    {
        let ghost dv = DeliveryModel { result: result@, thread };
        if self.slot_armed {
            self.slot_armed = false;
            self.delivered = Some(Delivery { result, thread });
            proof {
                assert(self@.deliveries =~= old(self)@.deliveries.push(dv));
            }
        } else {
            self.double_delivery = true;
        }
    }

    /// Drop the continuation without invoking it; a result arriving
    /// after an `abort` is absorbed silently.
    pub fn abort(&mut self)
        requires
            old(self).wf(),
        ensures
            final(self).wf(),
            final(self)@ == abort_step(old(self)@),
    {
        self.slot_armed = false;
    }

    /// Whether the continuation slot is still armed.
    pub fn slot_armed(&self) -> (b: bool)
        ensures
            b == self@.slot_armed,
    {
        self.slot_armed
    }

    /// The single delivery made so far, if any.
    pub fn delivered(&self) -> (r: &Option<Delivery>)
        ensures
            match r {
                Some(d) => self@.deliveries =~= seq![d@],
                None => self@.deliveries.len() == 0,
            },
    {
        &self.delivered
    }

    /// Whether a second delivery was ever attempted.
    pub fn double_delivery_detected(&self) -> (b: bool)
        ensures
            b == self@.double_delivery,
    {
        self.double_delivery
    }
}

/// Double delivery is absorbed: if a malformed native callback
/// completes a fresh dispatcher twice, exactly one continuation
/// invocation happens — the first — and the second only raises the
/// double-delivery fault.
pub proof fn lemma_double_delivery_absorbed(
    d: DispatcherModel,
    r1: ResultModel,
    t1: u64,
    r2: ResultModel,
    t2: u64,
)
    requires
        d.slot_armed,
        d.deliveries.len() == 0,
    ensures
        ({
            let after = complete_step(complete_step(d, r1, t1), r2, t2);
            &&& after.deliveries =~= seq![(DeliveryModel { result: r1, thread: t1 })]
            &&& after.double_delivery
            &&& !after.slot_armed
        }),
{
}

} // verus!
