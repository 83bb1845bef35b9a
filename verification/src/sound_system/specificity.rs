//! The order of conditions: a condition that always holds is less specific
//! than any other, and all others are equally specific.
use super::types::{Condition, ConditionView};
use std::cmp::Ordering;
use vstd::prelude::*;
use vstd::std_specs::cmp::PartialOrdSpecImpl;

verus! {

/// The order of two conditions by how specific they are.
pub open spec fn condition_order(left: ConditionView, right: ConditionView) -> Ordering {
    if left == ConditionView::Always && right != ConditionView::Always {
        Ordering::Less
    } else if left != ConditionView::Always && right == ConditionView::Always {
        Ordering::Greater
    } else {
        Ordering::Equal
    }
}

impl PartialOrd for Condition {
    fn partial_cmp(&self, other: &Self) -> (order: Option<Ordering>) {
        let order = match (self, other) {
            (Condition::Always, Condition::Always) => Ordering::Equal,
            (Condition::Always, _) => Ordering::Less,
            (_, Condition::Always) => Ordering::Greater,
            _ => Ordering::Equal,
        };
        Some(order)
    }
}

impl PartialOrdSpecImpl for Condition {
    open spec fn obeys_partial_cmp_spec() -> bool {
        true
    }

    open spec fn partial_cmp_spec(&self, other: &Self) -> Option<Ordering> {
        Some(condition_order(self.deep_view(), other.deep_view()))
    }
}

} // verus!
