//! Node topology: the entries of the remote node list and the display policy
//! that orders the local node first and remote nodes lexicographically
//! thereafter.

use vstd::multiset::Multiset;
use vstd::prelude::*;
use vstd::string::StrSliceExecFns;

verus! {

broadcast use {vstd::multiset::group_multiset_axioms, vstd::seq_lib::group_to_multiset_ensures};

/// One node of the topology list. `info` carries the version report the node
/// gave, opaque to the dispatcher.
#[derive(Clone, Debug, PartialEq)]
pub struct NodeInfo<V> {
    pub name: String,
    pub online: bool,
    pub remote: bool,
    pub svc: Option<String>,
    pub info: Option<V>,
}

/// Lexicographic order on character sequences, by scalar value.
pub open spec fn lex_le(a: Seq<char>, b: Seq<char>) -> bool
    decreases a.len(),
{
    if a.len() == 0 {
        true
    } else if b.len() == 0 {
        false
    } else if (a[0] as u32) < (b[0] as u32) {
        true
    } else if (b[0] as u32) < (a[0] as u32) {
        false
    } else {
        lex_le(a.skip(1), b.skip(1))
    }
}

pub proof fn lemma_lex_le_total(a: Seq<char>, b: Seq<char>)
    ensures
        lex_le(a, b) || lex_le(b, a),
    decreases a.len(),
{
    if a.len() == 0 || b.len() == 0 {
    } else if (a[0] as u32) == (b[0] as u32) {
        lemma_lex_le_total(a.skip(1), b.skip(1));
    }
}

pub proof fn lemma_lex_le_trans(a: Seq<char>, b: Seq<char>, c: Seq<char>)
    requires
        lex_le(a, b),
        lex_le(b, c),
    ensures
        lex_le(a, c),
    decreases a.len(),
{
    if a.len() == 0 {
    } else if b.len() == 0 || c.len() == 0 {
    } else if (a[0] as u32) == (b[0] as u32) && (b[0] as u32) == (c[0] as u32) {
        lemma_lex_le_trans(a.skip(1), b.skip(1), c.skip(1));
    }
}

proof fn lemma_lex_le_prefix(a: Seq<char>, b: Seq<char>, i: int)
    requires
        0 <= i <= a.len(),
        0 <= i <= b.len(),
        forall|j: int| 0 <= j < i ==> a[j] == b[j],
    ensures
        lex_le(a, b) == lex_le(a.skip(i), b.skip(i)),
    decreases i,
{
    if i == 0 {
        assert(a.skip(0) =~= a);
        assert(b.skip(0) =~= b);
    } else {
        assert(a.len() > 0 && b.len() > 0);
        assert(a[0] == b[0]);
        assert(a.skip(1).skip(i - 1) =~= a.skip(i));
        assert(b.skip(1).skip(i - 1) =~= b.skip(i));
        assert(forall|j: int| 0 <= j < i - 1 ==> a.skip(1)[j] == b.skip(1)[j]);
        lemma_lex_le_prefix(a.skip(1), b.skip(1), i - 1);
    }
}

/// Lexicographic comparison of two strings, by character scalar value.
pub fn str_le(a: &str, b: &str) -> (r: bool)
    ensures
        r == lex_le(a@, b@),
{
    let alen = a.unicode_len();
    let blen = b.unicode_len();
    let mut i: usize = 0;
    loop
        invariant
            i <= alen,
            i <= blen,
            alen == a@.len(),
            blen == b@.len(),
            forall|j: int| 0 <= j < i ==> a@[j] == b@[j],
        decreases alen - i,
    {
        if i == alen {
            proof {
                lemma_lex_le_prefix(a@, b@, i as int);
                assert(a@.skip(i as int).len() == 0);
            }
            return true;
        }
        if i == blen {
            proof {
                lemma_lex_le_prefix(a@, b@, i as int);
                assert(b@.skip(i as int).len() == 0);
                assert(a@.skip(i as int).len() > 0);
            }
            return false;
        }
        let ca = a.get_char(i);
        let cb = b.get_char(i);
        if (ca as u32) < (cb as u32) {
            proof {
                lemma_lex_le_prefix(a@, b@, i as int);
                assert(a@.skip(i as int)[0] == a@[i as int]);
                assert(b@.skip(i as int)[0] == b@[i as int]);
            }
            return true;
        }
        if (cb as u32) < (ca as u32) {
            proof {
                lemma_lex_le_prefix(a@, b@, i as int);
                assert(a@.skip(i as int)[0] == a@[i as int]);
                assert(b@.skip(i as int)[0] == b@[i as int]);
            }
            return false;
        }
        proof {
            assert((ca as u32) == (cb as u32));
            assert(ca == cb) by {
                assert(ca as u32 == cb as u32);
            }
        }
        i = i + 1;
    }
}

/// The display order of the node list: the local node always first, remote
/// nodes lexicographically by name thereafter.
pub open spec fn node_le<V>(a: NodeInfo<V>, b: NodeInfo<V>) -> bool {
    if !a.remote {
        true
    } else if !b.remote {
        false
    } else {
        lex_le(a.name@, b.name@)
    }
}

/// Every pair of positions respects the display order.
pub open spec fn nodes_sorted<V>(s: Seq<NodeInfo<V>>) -> bool {
    forall|i: int, j: int| 0 <= i < j < s.len() ==> node_le(s[i], s[j])
}

fn node_le_exec<V>(a: &NodeInfo<V>, b: &NodeInfo<V>) -> (r: bool)
    ensures
        r == node_le(*a, *b),
{
    if !a.remote {
        true
    } else if !b.remote {
        false
    } else {
        str_le(a.name.as_str(), b.name.as_str())
    }
}

proof fn lemma_node_le_total<V>(a: NodeInfo<V>, b: NodeInfo<V>)
    ensures
        node_le(a, b) || node_le(b, a),
{
    if a.remote && b.remote {
        lemma_lex_le_total(a.name@, b.name@);
    }
}

proof fn lemma_node_le_trans<V>(a: NodeInfo<V>, b: NodeInfo<V>, c: NodeInfo<V>)
    requires
        node_le(a, b),
        node_le(b, c),
    ensures
        node_le(a, c),
{
    if a.remote && b.remote && c.remote {
        lemma_lex_le_trans(a.name@, b.name@, c.name@);
    }
}

/// Sorts the node list by the display policy. The result holds exactly the
/// given nodes.
pub fn sort_nodes<V>(nodes: Vec<NodeInfo<V>>) -> (r: Vec<NodeInfo<V>>)
    ensures
        nodes_sorted(r@),
        r@.to_multiset() == nodes@.to_multiset(),
        r@.len() == nodes@.len(),
{
    let mut rest = nodes;
    let mut out: Vec<NodeInfo<V>> = Vec::new();
    let ghost all: Seq<NodeInfo<V>> = rest@;
    while rest.len() > 0
        invariant
            nodes_sorted(out@),
            out@.to_multiset().add(rest@.to_multiset()) =~= all.to_multiset(),
            out@.len() + rest@.len() == all.len(),
        decreases rest.len(),
    {
        let ghost out_before: Seq<NodeInfo<V>> = out@;
        let ghost rest_before: Seq<NodeInfo<V>> = rest@;
        let x = match rest.pop() {
            Some(x) => x,
            None => unreached(),
        };
        proof {
            assert(rest_before =~= rest@.push(x));
            assert(rest@.push(x).to_multiset() == rest@.to_multiset().insert(x));
        }
        let mut k: usize = 0;
        while k < out.len() && node_le_exec(&out[k], &x)
            invariant
                k <= out@.len(),
                forall|j: int| 0 <= j < k ==> node_le(out@[j], x),
                out@ == out_before,
            decreases out@.len() - k,
        {
            k = k + 1;
        }
        proof {
            if k < out@.len() {
                lemma_node_le_total(out@[k as int], x);
                assert(node_le(x, out_before[k as int]));
            }
        }
        out.insert(k, x);
        proof {
            assert(out@[k as int] == x);
            assert(forall|j: int| 0 <= j < k ==> out@[j] == out_before[j]);
            assert(forall|j: int|
                k < j < out@.len() ==> out@[j] == out_before[j - 1]);
            assert forall|i: int, j: int| 0 <= i < j < out@.len() implies node_le(
                out@[i],
                out@[j],
            ) by {
                if j == k {
                    assert(node_le(out_before[i], x));
                } else if i == k {
                    assert(node_le(x, out_before[k as int]));
                    if j == k + 1 {
                        assert(node_le(x, out_before[j - 1]));
                    } else {
                        assert(node_le(out_before[k as int], out_before[j - 1]));
                        lemma_node_le_trans(x, out_before[k as int], out_before[j - 1]);
                    }
                } else if i < k && j > k {
                    assert(node_le(out_before[i], out_before[j - 1]));
                } else if i > k {
                    assert(node_le(out_before[i - 1], out_before[j - 1]));
                } else {
                    assert(node_le(out_before[i], out_before[j]));
                }
            }
            assert(out@ == out_before.insert(k as int, x));
            assert(out_before.insert(k as int, x).to_multiset() == out_before.to_multiset().insert(
                x,
            ));
            assert(out@.to_multiset().add(rest@.to_multiset()) =~= all.to_multiset());
        }
    }
    proof {
        assert(rest@.to_multiset() =~= Multiset::<NodeInfo<V>>::empty());
        assert(out@.to_multiset() =~= all.to_multiset());
    }
    out
}

/// The name/address pairs a node list denotes: one entry per node that
/// reports a service address, in list order, as character sequences.
pub open spec fn svc_entries<V>(nodes: Seq<NodeInfo<V>>) -> Seq<(Seq<char>, Seq<char>)>
    decreases nodes.len(),
{
    if nodes.len() == 0 {
        Seq::empty()
    } else {
        let rest = svc_entries(nodes.drop_last());
        match nodes.last().svc {
            Some(s) => rest.push((nodes.last().name@, s@)),
            None => rest,
        }
    }
}

/// The views of a list of string pairs.
pub open spec fn pair_views(s: Seq<(String, String)>) -> Seq<(Seq<char>, Seq<char>)> {
    s.map_values(|e: (String, String)| (e.0@, e.1@))
}

/// The routing map from node name to its service address: one entry per node
/// that reports a service, in list order.
pub fn node_map<V>(nodes: &Vec<NodeInfo<V>>) -> (r: Vec<(String, String)>)
    ensures
        pair_views(r@) == svc_entries(nodes@),
{
    let mut r: Vec<(String, String)> = Vec::new();
    let mut i: usize = 0;
    proof {
        assert(nodes@.take(0int) =~= Seq::<NodeInfo<V>>::empty());
        assert(pair_views(r@) =~= svc_entries(nodes@.take(0int)));
    }
    while i < nodes.len()
        invariant
            i <= nodes@.len(),
            pair_views(r@) == svc_entries(nodes@.take(i as int)),
        decreases nodes@.len() - i,
    {
        let ghost taken: Seq<NodeInfo<V>> = nodes@.take(i as int);
        let ghost r_before: Seq<(String, String)> = r@;
        match &nodes[i].svc {
            Some(svc) => {
                r.push((nodes[i].name.clone(), svc.clone()));
            },
            None => {},
        }
        proof {
            assert(nodes@.take(i + 1) =~= taken.push(nodes@[i as int]));
            assert(nodes@.take(i + 1).drop_last() =~= taken);
            assert(nodes@.take(i + 1).last() == nodes@[i as int]);
            if nodes@[i as int].svc is Some {
                assert(pair_views(r@) =~= pair_views(r_before).push(
                    (nodes@[i as int].name@, nodes@[i as int].svc->0@),
                ));
            }
            assert(pair_views(r@) =~= svc_entries(nodes@.take(i + 1)));
        }
        i = i + 1;
    }
    proof {
        assert(nodes@.take(nodes@.len() as int) =~= nodes@);
    }
    r
}

} // verus!
