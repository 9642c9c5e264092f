use crate::simulation::state::resource::{ResourceType, RESOURCE_TYPE_COUNT};
use vstd::prelude::*;

verus! {

/// Number of micro-units in one unit of resource: amounts are counted in micro-units.
pub const MICROS_PER_UNIT: u64 = 1000000;

/// Whole units plus a fractional remainder in `[0, 1)`, in micro-units.
#[derive(Clone, Copy, Debug, Default, PartialEq, Eq, Structural)]
pub struct Stock {
    pub whole: u64,
    pub frac: u64,
}

impl Stock {
    pub open spec fn wf(self) -> bool {
        self.frac < MICROS_PER_UNIT
    }

    /// The amount held, in micro-units.
    pub open spec fn amount(self) -> int {
        self.whole * MICROS_PER_UNIT + self.frac
    }
}

/// Largest amount, in micro-units, that one stock can hold.
pub open spec fn stock_capacity() -> int {
    (u64::MAX as int + 1) * MICROS_PER_UNIT - 1
}

/// The amount held after one operation on `total`: `(true, a)` adds `a`
/// micro-units; `(false, a)` removes them where that much is held and
/// otherwise changes nothing.
pub open spec fn bag_step(total: int, op: (bool, u64)) -> int {
    if op.0 {
        total + op.1
    } else if total >= op.1 {
        total - op.1
    } else {
        total
    }
}

/// The amount held after the operations `ops`, in order, starting from `total`.
pub open spec fn bag_run(total: int, ops: Seq<(bool, u64)>) -> int
    decreases ops.len(),
{
    if ops.len() == 0 {
        total
    } else {
        bag_step(bag_run(total, ops.drop_last()), ops.last())
    }
}

/// What the operations add, less what they remove.
pub open spec fn net_amount(ops: Seq<(bool, u64)>) -> int
    decreases ops.len(),
{
    if ops.len() == 0 {
        0
    } else {
        net_amount(ops.drop_last()) + if ops.last().0 {
            ops.last().1 as int
        } else {
            -(ops.last().1 as int)
        }
    }
}

/// No removal in `ops` asks for more than is held at that point.
pub open spec fn never_over_removes(total: int, ops: Seq<(bool, u64)>) -> bool {
    forall|i: int| 0 <= i < ops.len() && !(#[trigger] ops[i]).0 ==> bag_run(total, ops.take(i)) >= ops[i].1
}

/// Conservation: after any run of adds and removes that never removes more
/// than is held, the amount held is the starting amount plus everything added
/// less everything removed, exactly.
pub proof fn lemma_bag_conservation(total: int, ops: Seq<(bool, u64)>)
    requires
        never_over_removes(total, ops),
    ensures
        bag_run(total, ops) == total + net_amount(ops),
    decreases ops.len(),
{
    if ops.len() > 0 {
        let prefix = ops.drop_last();
        assert forall|i: int| 0 <= i < prefix.len() && !(#[trigger] prefix[i]).0 implies bag_run(
            total,
            prefix.take(i),
        ) >= prefix[i].1 by {
            assert(prefix.take(i) =~= ops.take(i));
            assert(prefix[i] == ops[i]);
        }
        lemma_bag_conservation(total, prefix);
        let last = ops.len() - 1;
        assert(ops.take(last) =~= prefix);
        assert(ops[last] == ops.last());
    }
}

/// Quantities of every resource type, each kept as whole units and a
/// fraction so that carries and borrows are exact.
#[derive(Clone, Debug)]
pub struct ResourceBag {
    stocks: Vec<Stock>,
}

impl ResourceBag {
    pub closed spec fn wf(&self) -> bool {
        &&& self.stocks@.len() == RESOURCE_TYPE_COUNT
        &&& forall|i: int| 0 <= i < RESOURCE_TYPE_COUNT ==> (#[trigger] self.stocks@[i]).wf()
    }

    /// The amount of `resource` held, in micro-units.
    pub closed spec fn spec_total(&self, resource: ResourceType) -> int {
        self.stocks@[resource.spec_index()].amount()
    }

    /// An empty bag.
    pub fn new() -> (r: ResourceBag)
        ensures
            r.wf(),
            forall|t: ResourceType| r.spec_total(t) == 0,
    {
        let z = Stock { whole: 0, frac: 0 };
        ResourceBag { stocks: vec![z, z, z] }
    }

    /// Adds `amount` micro-units of `resource`.
    pub fn add(&mut self, resource: ResourceType, amount: u64)
        requires
            old(self).wf(),
            old(self).spec_total(resource) + amount <= stock_capacity(),
        ensures
            final(self).wf(),
            final(self).spec_total(resource) == old(self).spec_total(resource) + amount,
            final(self).spec_total(resource) == bag_step(old(self).spec_total(resource), (true, amount)),
            forall|t: ResourceType| t != resource ==> final(self).spec_total(t) == old(self).spec_total(t),
    {
        let i = resource.index();
        let s = self.stocks[i];
        let add_whole = amount / MICROS_PER_UNIT;
        let add_frac = amount % MICROS_PER_UNIT;
        proof {
            assert(amount == add_whole * MICROS_PER_UNIT + add_frac);
            assert(s.whole + add_whole <= u64::MAX) by (nonlinear_arith)
                requires
                    s.whole * MICROS_PER_UNIT + s.frac + amount <= (u64::MAX as int + 1) * MICROS_PER_UNIT - 1,
                    amount == add_whole * MICROS_PER_UNIT + add_frac,
                    0 <= s.frac, 0 <= add_frac;
        }
        let mut whole = s.whole + add_whole;
        let mut frac = s.frac + add_frac;
        if frac >= MICROS_PER_UNIT {
            proof {
                assert(whole + 1 <= u64::MAX) by (nonlinear_arith)
                    requires
                        s.whole * MICROS_PER_UNIT + s.frac + amount <= (u64::MAX as int + 1) * MICROS_PER_UNIT - 1,
                        amount == add_whole * MICROS_PER_UNIT + add_frac,
                        whole == s.whole + add_whole,
                        s.frac + add_frac >= MICROS_PER_UNIT;
            }
            frac = frac - MICROS_PER_UNIT;
            whole = whole + 1;
        }
        self.stocks.set(i, Stock { whole, frac });
        proof {
            assert forall|t: ResourceType| t != resource implies self.stocks@[t.spec_index()] == old(self).stocks@[t.spec_index()] by {
                assert(t.spec_index() != resource.spec_index());
            }
            assert forall|k: int| 0 <= k < RESOURCE_TYPE_COUNT implies (#[trigger] self.stocks@[k]).wf() by {
                if k != i {
                    assert(self.stocks@[k] == old(self).stocks@[k]);
                }
            }
        }
    }

    /// Removes `amount` micro-units of `resource` where that much is held;
    /// otherwise changes nothing and returns `false`.
    pub fn remove(&mut self, resource: ResourceType, amount: u64) -> (ok: bool)
        requires
            old(self).wf(),
        ensures
            final(self).wf(),
            ok == (old(self).spec_total(resource) >= amount),
            ok ==> final(self).spec_total(resource) == old(self).spec_total(resource) - amount,
            !ok ==> final(self).spec_total(resource) == old(self).spec_total(resource),
            final(self).spec_total(resource) == bag_step(old(self).spec_total(resource), (false, amount)),
            forall|t: ResourceType| t != resource ==> final(self).spec_total(t) == old(self).spec_total(t),
    {
        let i = resource.index();
        if self.total(resource) < amount as u128 {
            return false;
        }
        let s = self.stocks[i];
        let sub_whole = amount / MICROS_PER_UNIT;
        let sub_frac = amount % MICROS_PER_UNIT;
        let new_stock = if s.frac >= sub_frac {
            proof {
                assert(s.whole >= sub_whole) by (nonlinear_arith)
                    requires
                        s.whole * MICROS_PER_UNIT + s.frac >= sub_whole * MICROS_PER_UNIT + sub_frac,
                        s.frac < MICROS_PER_UNIT, 0 <= sub_frac;
            }
            Stock { whole: s.whole - sub_whole, frac: s.frac - sub_frac }
        } else {
            proof {
                assert(s.whole >= sub_whole + 1) by (nonlinear_arith)
                    requires
                        s.whole * MICROS_PER_UNIT + s.frac >= sub_whole * MICROS_PER_UNIT + sub_frac,
                        s.frac < sub_frac;
            }
            Stock { whole: s.whole - sub_whole - 1, frac: s.frac + MICROS_PER_UNIT - sub_frac }
        };
        self.stocks.set(i, new_stock);
        proof {
            assert forall|t: ResourceType| t != resource implies self.stocks@[t.spec_index()] == old(self).stocks@[t.spec_index()] by {
                assert(t.spec_index() != resource.spec_index());
            }
            assert forall|k: int| 0 <= k < RESOURCE_TYPE_COUNT implies (#[trigger] self.stocks@[k]).wf() by {
                if k != i {
                    assert(self.stocks@[k] == old(self).stocks@[k]);
                }
            }
        }
        true
    }

    /// The amount of `resource` held, in micro-units.
    pub fn total(&self, resource: ResourceType) -> (r: u128)
        requires
            self.wf(),
        ensures
            r == self.spec_total(resource),
    {
        let s = self.stocks[resource.index()];
        proof {
            assert(s.whole * MICROS_PER_UNIT + s.frac <= stock_capacity()) by (nonlinear_arith)
                requires s.whole <= u64::MAX, s.frac < MICROS_PER_UNIT;
        }
        s.whole as u128 * MICROS_PER_UNIT as u128 + s.frac as u128
    }
}

impl Default for ResourceBag {
    fn default() -> (r: ResourceBag)
        ensures
            r.wf(),
            forall|t: ResourceType| r.spec_total(t) == 0,
    {
        ResourceBag::new()
    }
}

} // verus!
