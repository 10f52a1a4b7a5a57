use vstd::prelude::*;

verus! {

/// A chain (or a bare node) that can be recomputed as a whole.
pub trait GraphCalc {
    /// Holds when `after` is a state that one recomputation of the whole chain
    /// may leave, starting from `self`.
    spec fn recomputed(&self, after: &Self) -> bool;

    /// Recomputes every node of the chain, in attachment order.
    fn do_calc(&mut self)
        ensures
            old(self).recomputed(final(self)),
    ;
}

/// Read-only access to the node of type `T` within a chain.
pub trait Has<T> {
    /// The node of type `T` that the chain holds.
    spec fn looked_up(&self) -> T;

    /// Returns the node of type `T` that the chain holds.
    fn get(&self) -> (r: &T)
        ensures
            *r == self.looked_up(),
    ;
}

/// A node's own computation step, given a read-only view of the chain before
/// it.
pub trait GraphNodeCalc<T> {
    /// Holds when `after` is a state that one compute step of this node may
    /// leave, starting from `self`, while it sees `graph`.
    spec fn computed(&self, after: &Self, graph: &T) -> bool;

    /// Performs this node's compute step once, reading `graph`.
    fn do_calc(&mut self, graph: &T)
        ensures
            old(self).computed(final(self), graph),
    ;
}

/// The chain `before` with the node `calc` attached after it.
pub struct WithCalc<Before: GraphCalc, Calc: GraphNodeCalc<Before>> {
    before: Before,
    calc: Calc,
}

impl<Before: GraphCalc, Calc: GraphNodeCalc<Before>> WithCalc<Before, Calc> {
    /// The chain that `calc` was attached to.
    pub closed spec fn prefix(&self) -> Before {
        self.before
    }

    /// The node attached last.
    pub closed spec fn node(&self) -> Calc {
        self.calc
    }

    /// Borrows the chain that `calc` was attached to.
    pub(crate) fn before_ref(&self) -> (r: &Before)
        ensures
            *r == self.prefix(),
    {
        &self.before
    }
}

impl<Before: GraphCalc, Calc: GraphNodeCalc<Before>> Has<Calc> for WithCalc<Before, Calc> {
    open spec fn looked_up(&self) -> Calc {
        self.node()
    }

    fn get(&self) -> (r: &Calc) {
        &self.calc
    }
}

impl<Before: GraphCalc, Calc: GraphNodeCalc<Before>> GraphCalc for WithCalc<Before, Calc> {
    /// The prefix is recomputed first; then the last node computes once,
    /// seeing the prefix as it stands after its recomputation.
    open spec fn recomputed(&self, after: &Self) -> bool {
        &&& self.prefix().recomputed(&after.prefix())
        &&& self.node().computed(&after.node(), &after.prefix())
    }

    fn do_calc(&mut self) {
        self.before.do_calc();
        self.calc.do_calc(&self.before);
    }
}

/// A composite chain is determined by its prefix and its last node.
pub proof fn lemma_chain_ext<Before: GraphCalc, Calc: GraphNodeCalc<Before>>(
    a: WithCalc<Before, Calc>,
    b: WithCalc<Before, Calc>,
)
    requires
        a.prefix() == b.prefix(),
        a.node() == b.node(),
    ensures
        a == b,
{
}

/// Attaches `calc` after the chain `before`.
pub fn add_calc<Before: GraphCalc, Calc: GraphNodeCalc<Before>>(before: Before, calc: Calc) -> (r:
    WithCalc<Before, Calc>)
    ensures
        r.prefix() == before,
        r.node() == calc,
{
    WithCalc { before, calc }
}

/// Lookup is stable: two lookups of the node type `T` in one chain yield the
/// same node.
pub proof fn lemma_lookup_stable<C: Has<T>, T>(chain: &C, first: &T, second: &T)
    requires
        *first == chain.looked_up(),
        *second == chain.looked_up(),
    ensures
        *first == *second,
{
}

/// After `calc` is attached to `before`, looking up its type in the new chain
/// yields `calc` itself.
pub proof fn lemma_lookup_attached<Before: GraphCalc, Calc: GraphNodeCalc<Before>>(
    before: Before,
    calc: Calc,
    chain: WithCalc<Before, Calc>,
)
    requires
        chain.prefix() == before,
        chain.node() == calc,
    ensures
        Has::<Calc>::looked_up(&chain) == calc,
{
}

/// Recomputation is not idempotent in general: recomputing a chain twice steps
/// its last node twice, each time against the prefix as it stands after that
/// round, and recomputes the prefix twice.
pub proof fn lemma_recompute_twice<Before: GraphCalc, Calc: GraphNodeCalc<Before>>(
    first: WithCalc<Before, Calc>,
    second: WithCalc<Before, Calc>,
    third: WithCalc<Before, Calc>,
)
    requires
        first.recomputed(&second),
        second.recomputed(&third),
    ensures
        first.prefix().recomputed(&second.prefix()),
        second.prefix().recomputed(&third.prefix()),
        first.node().computed(&second.node(), &second.prefix()),
        second.node().computed(&third.node(), &third.prefix()),
{
}

} // verus!
