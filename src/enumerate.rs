use vstd::prelude::*;
use crate::interface::{built_from, builds, families_agree, Interface, RawNode};

verus! {

/// The nodes of `s` that yield an interface, in list order.
pub open spec fn kept_nodes(s: Seq<RawNode>) -> Seq<RawNode>
    decreases s.len(),
{
    if s.len() == 0 {
        seq![]
    } else {
        let rest = kept_nodes(s.drop_last());
        if builds(s.last()) {
            rest.push(s.last())
        } else {
            rest
        }
    }
}

/// `r` holds, in order, the interfaces that the nodes of `nodes` describe,
/// one for each node that yields one.
pub open spec fn describes(nodes: Seq<RawNode>, r: Seq<Interface>) -> bool {
    let k = kept_nodes(nodes);
    &&& r.len() == k.len()
    &&& forall|i: int| 0 <= i < r.len() ==> built_from(#[trigger] k[i], r[i])
}

/// Builds the interfaces of a list of nodes, dropping the nodes that yield
/// none.
pub fn collect_interfaces(nodes: &Vec<RawNode>) -> (r: Vec<Interface>)
    ensures
        describes(nodes@, r@),
        forall|i: int| 0 <= i < r@.len() ==> families_agree(#[trigger] r@[i]),
{
    let mut r: Vec<Interface> = Vec::new();
    let mut i: usize = 0;
    while i < nodes.len()
        invariant
            i <= nodes.len(),
            describes(nodes@.subrange(0, i as int), r@),
            forall|j: int| 0 <= j < r@.len() ==> families_agree(#[trigger] r@[j]),
        decreases nodes.len() - i,
    {
        let ghost before = r@;
        assert(nodes@.subrange(0, i as int + 1).drop_last() == nodes@.subrange(0, i as int));
        match Interface::try_from(&nodes[i]) {
            Ok(itf) => {
                r.push(itf);
                assert(forall|j: int| 0 <= j < before.len() ==> r@[j] == before[j]);
            },
            Err(_) => {},
        }
        i = i + 1;
    }
    assert(nodes@.subrange(0, nodes.len() as int) == nodes@);
    r
}

/// Completes an enumeration from the outcome of the operating system's
/// query: its error code, or the nodes it listed.
pub fn interfaces_from_query(q: Result<Vec<RawNode>, i32>) -> (r: Result<Vec<Interface>, i32>)
    ensures
        q matches Err(c) ==> r == Err::<Vec<Interface>, i32>(c),
        q matches Ok(nodes) ==> (r matches Ok(v) && describes(nodes@, v@) && forall|i: int|
            0 <= i < v@.len() ==> families_agree(#[trigger] v@[i])),
{
    match q {
        Err(c) => Err(c),
        Ok(nodes) => Ok(collect_interfaces(&nodes)),
    }
}

proof fn lemma_kept_concat(a: Seq<RawNode>, b: Seq<RawNode>)
    ensures
        kept_nodes(a + b) == kept_nodes(a) + kept_nodes(b),
    decreases b.len(),
{
    if b.len() == 0 {
        assert(a + b == a);
        assert(kept_nodes(b) == Seq::<RawNode>::empty());
        assert(kept_nodes(a) + kept_nodes(b) == kept_nodes(a));
    } else {
        lemma_kept_concat(a, b.drop_last());
        assert((a + b).drop_last() == a + b.drop_last());
        assert((a + b).last() == b.last());
        if builds(b.last()) {
            assert(kept_nodes(a) + kept_nodes(b.drop_last()).push(b.last()) == (kept_nodes(a)
                + kept_nodes(b.drop_last())).push(b.last()));
        }
    }
}

/// A node without a primary address yields nothing and leaves the nodes
/// before and after it as they would be without it.
pub proof fn lemma_null_address_node_skipped(before: Seq<RawNode>, n: RawNode, after: Seq<RawNode>)
    requires
        n.addr is None,
    ensures
        kept_nodes(before + seq![n] + after) == kept_nodes(before) + kept_nodes(after),
{
    lemma_kept_concat(before + seq![n], after);
    lemma_kept_concat(before, seq![n]);
    assert(seq![n].drop_last() == Seq::<RawNode>::empty());
    assert(seq![n].last() == n);
    assert(kept_nodes(Seq::<RawNode>::empty()) == Seq::<RawNode>::empty());
    assert(kept_nodes(seq![n]) == Seq::<RawNode>::empty());
    assert(kept_nodes(before) + Seq::<RawNode>::empty() == kept_nodes(before));
}

} // verus!
