//! Merging independently built trees into one.
//!
//! `merge_trees` stitches trees parsed over adjacent regions of one document
//! into a single tree: none gives nothing, one gives an independent copy,
//! and two or more are wrapped, in order, in a fresh `List`.  Each input
//! carries the offset at which its span starts, and the many-tree case
//! demands that the spans abut exactly; a gap or an overlap is reported as a
//! `ContiguityViolation` rather than silently producing a tree that breaks
//! the ordering invariant downstream offset lookups rely on.

use vstd::prelude::*;

use crate::model::ast_len;
use crate::model::ast_wf;
use crate::model::lemma_sum_len_step;
use crate::model::sum_len;
use crate::model::Ast;
use crate::node::lemma_view_seq_index;
use crate::node::lemma_view_seq_len;
use crate::node::lemma_view_seq_push;
use crate::node::view_seq;
use crate::node::AstNode;
use crate::node::ListAstNode;

verus! {

/// The error returned when `merge_trees` is given spans that do not abut.
#[derive(Clone, Copy, Debug, PartialEq, Eq, Structural)]
pub struct ContiguityViolation;

/// A tree together with the document offset at which its span starts.
pub struct SpannedTree {
    pub start: u64,
    pub tree: AstNode,
}

/// The model values of the trees, in order, spans dropped.
pub open spec fn tree_views(s: Seq<SpannedTree>) -> Seq<Ast> {
    s.map_values(|t: SpannedTree| t.tree@)
}

/// Each span starts exactly where the previous one ends: no gap, no
/// overlap.  Holds trivially of zero or one tree.
pub open spec fn contiguous(s: Seq<SpannedTree>) -> bool {
    forall|i: int|
        0 <= i < s.len() - 1 ==> s[i].start + ast_len(s[i].tree@) == s[i + 1].start
}

/// Sum of the lengths of two merged trees, spelled out.
pub proof fn lemma_merge_two_lengths(s: Seq<SpannedTree>)
    requires
        s.len() == 2,
    ensures
        sum_len(tree_views(s)) == ast_len(s[0].tree@) + ast_len(s[1].tree@),
{
    let tv = tree_views(s);
    lemma_sum_len_step(tv, 0);
    lemma_sum_len_step(tv, 1);
    assert(tv.subrange(0, 0) =~= Seq::<Ast>::empty());
    assert(tv.subrange(0, 2) =~= tv);
}

/// Combines zero or more independently built trees, in left-to-right span
/// order, into one tree over their concatenation.
pub fn merge_trees(trees: Vec<SpannedTree>) -> (r: Result<Option<AstNode>, ContiguityViolation>)
    requires
        sum_len(tree_views(trees@)) <= u64::MAX,
    ensures
        r is Ok <==> (trees@.len() <= 1 || contiguous(trees@)),
        trees@.len() == 0 ==> r == Ok::<Option<AstNode>, ContiguityViolation>(None),
        trees@.len() == 1 ==> (r matches Ok(o) && o matches Some(t) && t@ == trees@[0].tree@),
        trees@.len() >= 2 && contiguous(trees@) ==> (r matches Ok(o) && o matches Some(t) && t@
            == (Ast::List {
            length: sum_len(tree_views(trees@)) as u64,
            children: tree_views(trees@),
        }) && ((forall|i: int| 0 <= i < trees@.len() ==> ast_wf(trees@[i].tree@)) ==> ast_wf(
            t@,
        ))),
{
    if trees.len() == 0 {
        return Ok(None);
    }
    if trees.len() == 1 {
        return Ok(Some(trees[0].tree.deepclone()));
    }
    let mut i: usize = 0;
    while i + 1 < trees.len()
        invariant
            i < trees.len(),
            trees@.len() >= 2,
            forall|j: int|
                0 <= j < i as int ==> trees@[j].start + ast_len(trees@[j].tree@) == trees@[j
                    + 1].start,
        decreases trees.len() - i,
    {
        let tree_len = trees[i].tree.length();
        match trees[i].start.checked_add(tree_len) {
            Some(end) => {
                if end != trees[i + 1].start {
                    proof {
                        assert(trees@[i as int].start + ast_len(trees@[i as int].tree@)
                            != trees@[i as int + 1].start);
                    }
                    return Err(ContiguityViolation);
                }
            },
            None => {
                proof {
                    assert(trees@[i as int].start + ast_len(trees@[i as int].tree@)
                        > u64::MAX);
                }
                return Err(ContiguityViolation);
            },
        }
        i = i + 1;
    }
    let mut children: Vec<AstNode> = Vec::new();
    let mut k: usize = 0;
    while k < trees.len()
        invariant
            k <= trees.len(),
            children@.len() == k,
            view_seq(children@) == tree_views(trees@).subrange(0, k as int),
        decreases trees.len() - k,
    {
        let ghost prev = children@;
        let c = trees[k].tree.deepclone();
        proof {
            lemma_view_seq_push(prev, c);
            assert(tree_views(trees@).subrange(0, k as int + 1) =~= tree_views(
                trees@,
            ).subrange(0, k as int).push(tree_views(trees@)[k as int]));
        }
        children.push(c);
        k = k + 1;
    }
    proof {
        assert(tree_views(trees@).subrange(0, trees@.len() as int) =~= tree_views(trees@));
        lemma_view_seq_len(children@);
        if forall|i: int| 0 <= i < trees@.len() ==> ast_wf(trees@[i].tree@) {
            assert forall|i: int| 0 <= i < children@.len() implies ast_wf(children@[i]@) by {
                lemma_view_seq_index(children@, i);
            }
        }
    }
    let list = ListAstNode::new(children);
    Ok(Some(AstNode::List(list)))
}

} // verus!
