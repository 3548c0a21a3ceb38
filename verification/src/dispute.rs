//! The state of a disputed transaction.

use vstd::prelude::*;
use crate::amount::{Amount, DecimalParts};

verus! {

/// A dispute of a stored transaction: the amount in question, and whether
/// the dispute has ended (by a resolution or a chargeback).
#[derive(Clone, Copy, Debug)]
pub struct DisputeState {
    /// The amount that is disputed.
    pub amount: Amount,
    /// Whether the dispute has ended.
    pub is_resolved: bool,
}

/// A dispute by the parts of its amount.
pub struct DisputeView {
    pub amount: DecimalParts,
    pub is_resolved: bool,
}

impl View for DisputeState {
    type V = DisputeView;

    open spec fn view(&self) -> DisputeView {
        DisputeView { amount: self.amount@, is_resolved: self.is_resolved }
    }
}

impl DisputeState {
    /// A new, open dispute of `amount`.
    pub fn new(amount: Amount) -> (r: DisputeState)
        ensures
            r.amount == amount,
            !r.is_resolved,
    {
        DisputeState { amount, is_resolved: false }
    }

    /// Ends the dispute.
    pub fn resolve(&mut self)
        ensures
            final(self).is_resolved,
            final(self).amount == old(self).amount,
    {
        self.is_resolved = true;
    }

    /// Whether the dispute is still open.
    pub fn is_active(&self) -> (r: bool)
        ensures
            r == !self.is_resolved,
    {
        !self.is_resolved
    }
}

} // verus!
