//! Three placeholder nodes: `Calc1` needs nothing, `Calc2` reads `Calc1`, and
//! `Calc3` reads both. Their compute steps change nothing.
use crate::graph::{lemma_chain_ext, GraphCalc, GraphNodeCalc, Has, WithCalc};
use vstd::prelude::*;

verus! {

/// A node with no dependencies; it can also start a chain on its own.
pub struct Calc1;

/// A node that reads `Calc1`.
pub struct Calc2;

/// A node that reads `Calc1` and `Calc2`.
pub struct Calc3;

impl Has<Calc1> for Calc1 {
    open spec fn looked_up(&self) -> Calc1 {
        *self
    }

    fn get(&self) -> (r: &Calc1) {
        self
    }
}

impl<T> GraphNodeCalc<T> for Calc1 {
    open spec fn computed(&self, after: &Self, graph: &T) -> bool {
        *after == *self
    }

    fn do_calc(&mut self, graph: &T) {
    }
}

impl GraphCalc for Calc1 {
    open spec fn recomputed(&self, after: &Self) -> bool {
        *after == *self
    }

    fn do_calc(&mut self) {
    }
}

impl<T: Has<Calc1>> GraphNodeCalc<T> for Calc2 {
    open spec fn computed(&self, after: &Self, graph: &T) -> bool {
        *after == *self
    }

    fn do_calc(&mut self, graph: &T) {
        let _c1: &Calc1 = graph.get();
    }
}

impl<T: Has<Calc1> + Has<Calc2>> GraphNodeCalc<T> for Calc3 {
    open spec fn computed(&self, after: &Self, graph: &T) -> bool {
        *after == *self
    }

    fn do_calc(&mut self, graph: &T) {
    }
}

/// Below a `Calc2`, `Calc1` is found in the prefix.
impl<Before: GraphCalc + Has<Calc1>> Has<Calc1> for WithCalc<Before, Calc2> {
    open spec fn looked_up(&self) -> Calc1 {
        self.prefix().looked_up()
    }

    fn get(&self) -> (r: &Calc1) {
        self.before_ref().get()
    }
}

/// Below a `Calc3`, `Calc1` is found in the prefix.
impl<Before: GraphCalc + Has<Calc1> + Has<Calc2>> Has<Calc1> for WithCalc<Before, Calc3> {
    open spec fn looked_up(&self) -> Calc1 {
        Has::<Calc1>::looked_up(&self.prefix())
    }

    fn get(&self) -> (r: &Calc1) {
        Has::<Calc1>::get(self.before_ref())
    }
}

/// Below a `Calc3`, `Calc2` is found in the prefix.
impl<Before: GraphCalc + Has<Calc1> + Has<Calc2>> Has<Calc2> for WithCalc<Before, Calc3> {
    open spec fn looked_up(&self) -> Calc2 {
        Has::<Calc2>::looked_up(&self.prefix())
    }

    fn get(&self) -> (r: &Calc2) {
        Has::<Calc2>::get(self.before_ref())
    }
}

/// In a chain of `Calc1`, `Calc2` and `Calc3`, `Calc1` and `Calc2` are found
/// through the `Calc3` layer as the prefix holds them, and `Calc3` is the node
/// attached last.
pub proof fn lemma_lookup_three(chain: WithCalc<WithCalc<Calc1, Calc2>, Calc3>)
    ensures
        Has::<Calc1>::looked_up(&chain) == Has::<Calc1>::looked_up(&chain.prefix()),
        Has::<Calc1>::looked_up(&chain.prefix()) == chain.prefix().prefix(),
        Has::<Calc2>::looked_up(&chain) == chain.prefix().node(),
        Has::<Calc3>::looked_up(&chain) == chain.node(),
{
}

/// Recomputing the chain of `Calc1`, `Calc2` and `Calc3` recomputes `Calc1`
/// first, then steps `Calc2` once seeing the new `Calc1`, then steps `Calc3`
/// once seeing the new `Calc1` and `Calc2`.
pub proof fn lemma_recompute_three(
    before: WithCalc<WithCalc<Calc1, Calc2>, Calc3>,
    after: WithCalc<WithCalc<Calc1, Calc2>, Calc3>,
)
    requires
        before.recomputed(&after),
    ensures
        before.prefix().prefix().recomputed(&after.prefix().prefix()),
        GraphNodeCalc::<Calc1>::computed(
            &before.prefix().node(),
            &after.prefix().node(),
            &after.prefix().prefix(),
        ),
        GraphNodeCalc::<WithCalc<Calc1, Calc2>>::computed(
            &before.node(),
            &after.node(),
            &after.prefix(),
        ),
{
}

/// The chain of `Calc1`, `Calc2` and `Calc3` is left as it was by a
/// recomputation, since each of their compute steps changes nothing.
pub proof fn lemma_no_op_chain_idempotent(
    before: WithCalc<WithCalc<Calc1, Calc2>, Calc3>,
    after: WithCalc<WithCalc<Calc1, Calc2>, Calc3>,
)
    requires
        before.recomputed(&after),
    ensures
        after == before,
{
    lemma_chain_ext(before.prefix(), after.prefix());
    lemma_chain_ext(before, after);
}

} // verus!
