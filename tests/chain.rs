use calc_graph::{add_calc, Calc1, Calc2, Calc3, GraphCalc, GraphNodeCalc, Has, WithCalc};

fn three() -> WithCalc<WithCalc<Calc1, Calc2>, Calc3> {
    add_calc(add_calc(Calc1, Calc2), Calc3)
}

#[test]
fn scenario_one_recompute_three_nodes() {
    let mut chain = three();
    chain.do_calc();
    let _c1: &Calc1 = chain.get();
    let _c2: &Calc2 = chain.get();
    let _c3: &Calc3 = chain.get();
}

#[test]
fn scenario_two_lookup_earlier_nodes() {
    let chain = three();
    let _c1: &Calc1 = chain.get();
    let _c2: &Calc2 = chain.get();
    let two = add_calc(Calc1, Calc2);
    let _first: &Calc1 = two.get();
    let _second: &Calc2 = two.get();
}

#[test]
fn bare_node_recomputes_and_finds_itself() {
    let mut node = Calc1;
    GraphCalc::do_calc(&mut node);
    let _same: &Calc1 = node.get();
}

#[test]
fn nodes_compute_against_their_view() {
    let mut second = Calc2;
    GraphNodeCalc::do_calc(&mut second, &Calc1);
    let mut third = Calc3;
    GraphNodeCalc::do_calc(&mut third, &add_calc(Calc1, Calc2));
    let mut first = Calc1;
    GraphNodeCalc::do_calc(&mut first, &Calc3);
}

#[test]
fn recompute_twice_keeps_chain_usable() {
    let mut chain = three();
    chain.do_calc();
    chain.do_calc();
    let _c1: &Calc1 = chain.get();
    let _c3: &Calc3 = chain.get();
}

#[test]
fn lookup_is_stable() {
    let chain = three();
    let a: &Calc2 = chain.get();
    let b: &Calc2 = chain.get();
    assert!(std::ptr::eq(a, b));
    let c: &Calc1 = chain.get();
    let d: &Calc1 = chain.get();
    assert!(std::ptr::eq(c, d));
}

#[test]
fn longer_chain_finds_every_node() {
    let mut chain = add_calc(three(), Calc2);
    chain.do_calc();
    let _last: &Calc2 = chain.get();
}
