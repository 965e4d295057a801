//! The executable tree node types and their operations.

use vstd::prelude::*;

use crate::model::ast_children;
use crate::model::ast_get_child;
use crate::model::ast_height;
use crate::model::ast_kind;
use crate::model::ast_len;
use crate::model::ast_list_height;
use crate::model::ast_wf;
use crate::model::seq_max_height;
use crate::model::sum_len;
use crate::model::Ast;
use crate::model::AstNodeKind;
use crate::model::BracketKind;
use crate::model::BracketToken;
use crate::model::lemma_seq_max_height_is_max;
use crate::model::lemma_seq_max_height_step;
use crate::model::lemma_seq_wf_iff;
use crate::model::lemma_sum_len_prefix_le;
use crate::model::lemma_sum_len_singleton;
use crate::model::lemma_sum_len_step;

verus! {

/// A tree node: the tagged union over the five node kinds.  All tree
/// operations dispatch through it.
#[derive(Debug, PartialEq, Eq)]
pub enum AstNode {
    Text(TextAstNode),
    Bracket(BracketAstNode),
    Pair(PairAstNode),
    UnexpectedClosingBracket(InvalidBracketAstNode),
    List(ListAstNode),
}

/// A matched open-bracket/close-bracket unit wrapping at most one child
/// subtree.  The span length is computed once, at construction.
#[derive(Debug, PartialEq, Eq)]
pub struct PairAstNode {
    pub length: u64,
    pub opening_bracket: BracketAstNode,
    pub closing_bracket: BracketAstNode,
    pub child: Option<Box<AstNode>>,
}

/// An ordered sequence of sibling subtrees covering a span with no enclosing
/// bracket of its own.  The span length is computed once, at construction.
#[derive(Debug, PartialEq, Eq)]
pub struct ListAstNode {
    pub length: u64,
    pub children: Vec<AstNode>,
}

/// The model value of a node: the same tree with `Seq` in place of `Vec` and
/// `Box`, and a `Pair`'s child slot as a sequence of length at most one.
pub open spec fn view_of(n: AstNode) -> Ast
    decreases n,
{
    match n {
        AstNode::Text(t) => Ast::Text { length: t.length },
        AstNode::Bracket(b) => Ast::Bracket {
            token: BracketToken { kind: b.kind, length: b.length },
        },
        AstNode::UnexpectedClosingBracket(x) => Ast::UnexpectedClosingBracket {
            token: BracketToken { kind: x.kind, length: x.length },
        },
        AstNode::Pair(p) => Ast::Pair {
            length: p.length,
            opening: BracketToken {
                kind: p.opening_bracket.kind,
                length: p.opening_bracket.length,
            },
            closing: BracketToken {
                kind: p.closing_bracket.kind,
                length: p.closing_bracket.length,
            },
            child: match p.child {
                Some(c) => seq![view_of(*c)],
                None => Seq::empty(),
            },
        },
        AstNode::List(l) => Ast::List { length: l.length, children: view_seq(l.children@) },
    }
}

/// The model values of a sequence of nodes, elementwise.
pub open spec fn view_seq(s: Seq<AstNode>) -> Seq<Ast>
    decreases s,
{
    if s.len() == 0 {
        Seq::empty()
    } else {
        view_seq(s.subrange(0, s.len() - 1)).push(view_of(s[s.len() - 1]))
    }
}

pub proof fn lemma_view_seq_len(s: Seq<AstNode>)
    ensures
        view_seq(s).len() == s.len(),
    decreases s.len(),
{
    if s.len() > 0 {
        lemma_view_seq_len(s.subrange(0, s.len() - 1));
    }
}

pub proof fn lemma_view_seq_index(s: Seq<AstNode>, i: int)
    requires
        0 <= i < s.len(),
    ensures
        view_seq(s).len() == s.len(),
        view_seq(s)[i] == view_of(s[i]),
    decreases s.len(),
{
    lemma_view_seq_len(s);
    lemma_view_seq_len(s.subrange(0, s.len() - 1));
    if i < s.len() - 1 {
        lemma_view_seq_index(s.subrange(0, s.len() - 1), i);
    }
}

pub proof fn lemma_view_seq_push(s: Seq<AstNode>, x: AstNode)
    ensures
        view_seq(s.push(x)) == view_seq(s).push(view_of(x)),
{
    let t = s.push(x);
    assert(t.subrange(0, t.len() - 1) =~= s);
    assert(t[t.len() - 1] == x);
}

impl View for AstNode {
    type V = Ast;

    open spec fn view(&self) -> Ast {
        view_of(*self)
    }
}

impl View for PairAstNode {
    type V = Ast;

    open spec fn view(&self) -> Ast {
        view_of(AstNode::Pair(*self))
    }
}

impl View for ListAstNode {
    type V = Ast;

    open spec fn view(&self) -> Ast {
        view_of(AstNode::List(*self))
    }
}

impl AstNode {
    /// The discriminant of this node.
    pub fn kind(&self) -> (r: AstNodeKind)
        ensures
            r == ast_kind(self@),
    {
        match self {
            AstNode::Text(_) => AstNodeKind::Text,
            AstNode::Bracket(_) => AstNodeKind::Bracket,
            AstNode::Pair(_) => AstNodeKind::Pair,
            AstNode::UnexpectedClosingBracket(_) => AstNodeKind::UnexpectedClosingBracket,
            AstNode::List(_) => AstNodeKind::List,
        }
    }

    /// The span length this node covers, as stored at construction.
    pub fn length(&self) -> (r: u64)
        ensures
            r == ast_len(self@),
    {
        match self {
            AstNode::Pair(pair) => pair.length,
            AstNode::List(list) => list.length,
            AstNode::Text(text) => text.length,
            AstNode::Bracket(bracket) => bracket.length,
            AstNode::UnexpectedClosingBracket(invalid) => invalid.length,
        }
    }

    /// The number of immediate structural children exposed for indexed
    /// access: 0 for leaves, the child count for a `List`, and 2 or 3 for a
    /// `Pair` (its two brackets, plus its child when present).
    pub fn children_length(&self) -> (r: usize)
        ensures
            r as int == ast_children(self@).len(),
    {
        match self {
            AstNode::Pair(pair) => pair.children_length(),
            AstNode::List(list) => list.children_length(),
            _ => 0,
        }
    }

    /// Indexed child access, consistent with `children_length`; `None` for
    /// leaves and out-of-range indices.  The returned subtree is an
    /// independent copy.
    pub fn get_child(&self, index: usize) -> (r: Option<AstNode>)
        ensures
            (r is Some) == (ast_get_child(self@, index as int) is Some),
            r matches Some(c) ==> ast_get_child(self@, index as int) == Some(c@),
    {
        match self {
            AstNode::Pair(pair) => pair.get_child(index),
            AstNode::List(list) => list.get_child(index),
            _ => None,
        }
    }

    /// The same children that `get_child` reaches, materialized in order as
    /// independent copies.
    pub fn children(&self) -> (r: Vec<AstNode>)
        ensures
            r@.len() == ast_children(self@).len(),
            forall|i: int| 0 <= i < r@.len() ==> view_of(r@[i]) == ast_children(self@)[i],
    {
        match self {
            AstNode::Pair(pair) => pair.children(),
            AstNode::List(list) => list.children(),
            _ => Vec::new(),
        }
    }

    /// Maximum nesting depth beneath this node; 0 for leaves.
    pub fn node_height(&self) -> (r: usize)
        requires
            ast_height(self@) <= usize::MAX,
        ensures
            r as nat == ast_height(self@),
        decreases *self,
    {
        match self {
            AstNode::Pair(pair) => pair.node_height(),
            AstNode::List(list) => list.node_height(),
            _ => 0,
        }
    }

    /// The nesting depth of a list-shaped context: the height for a `List`
    /// node, and 0 for every other kind.
    pub fn list_height(&self) -> (r: usize)
        requires
            ast_list_height(self@) <= usize::MAX,
        ensures
            r as nat == ast_list_height(self@),
    {
        match self {
            AstNode::List(list) => list.node_height(),
            _ => 0,
        }
    }

    /// A fully independent copy of this tree: no storage is shared with the
    /// original, and the copy's model value is identical.
    pub fn deepclone(&self) -> (r: AstNode)
        ensures
            r@ == self@,
        decreases *self,
    {
        match self {
            AstNode::Text(text) => AstNode::Text(text.deepclone()),
            AstNode::Bracket(bracket) => AstNode::Bracket(bracket.deepclone()),
            AstNode::Pair(pair) => AstNode::Pair(pair.deepclone()),
            AstNode::UnexpectedClosingBracket(invalid) => AstNode::UnexpectedClosingBracket(
                invalid.deepclone(),
            ),
            AstNode::List(list) => AstNode::List(list.deepclone()),
        }
    }
}

/// The model of an optional child subtree: a sequence of length at most one.
pub open spec fn opt_child_views(c: Option<AstNode>) -> Seq<Ast> {
    match c {
        Some(n) => seq![view_of(n)],
        None => Seq::empty(),
    }
}

/// The span length of an optional child subtree, 0 when absent.
pub open spec fn opt_child_len(c: Option<AstNode>) -> int {
    match c {
        Some(n) => ast_len(n@) as int,
        None => 0,
    }
}

/// Whether an optional child subtree is well-formed; vacuously so when
/// absent.
pub open spec fn opt_child_wf(c: Option<AstNode>) -> bool {
    match c {
        Some(n) => ast_wf(n@),
        None => true,
    }
}

impl PairAstNode {
    /// Assembles a matched pair from its two bracket leaves and an optional
    /// child subtree, storing the summed span length.  Callers must already
    /// have determined that the two tokens are a matched set; construction
    /// itself never fails.
    pub fn new(
        opening_bracket: BracketAstNode,
        closing_bracket: BracketAstNode,
        child: Option<AstNode>,
    ) -> (r: PairAstNode)
        requires
            opening_bracket.length + opt_child_len(child) + closing_bracket.length <= u64::MAX,
        ensures
            r@ == (Ast::Pair {
                length: (opening_bracket.length + opt_child_len(child)
                    + closing_bracket.length) as u64,
                opening: BracketToken {
                    kind: opening_bracket.kind,
                    length: opening_bracket.length,
                },
                closing: BracketToken {
                    kind: closing_bracket.kind,
                    length: closing_bracket.length,
                },
                child: opt_child_views(child),
            }),
            ast_len(r@) == opening_bracket.length + opt_child_len(child)
                + closing_bracket.length,
            opt_child_wf(child) ==> ast_wf(r@),
            ast_height(r@) == (match child {
                Some(c) => 1 + ast_height(c@),
                None => 1nat,
            }),
    {
        proof {
            match &child {
                Some(c) => {
                    lemma_sum_len_singleton(view_of(*c));
                    lemma_seq_wf_iff(opt_child_views(child));
                    assert(opt_child_views(child)[0] == view_of(*c));
                },
                None => {
                    assert(sum_len(opt_child_views(child)) == 0);
                    lemma_seq_wf_iff(opt_child_views(child));
                },
            }
        }
        let child_length: u64 = match &child {
            Some(c) => c.length(),
            None => 0,
        };
        let length: u64 = opening_bracket.length + child_length + closing_bracket.length;
        let boxed: Option<Box<AstNode>> = match child {
            Some(c) => Some(Box::new(c)),
            None => None,
        };
        PairAstNode { length, opening_bracket, closing_bracket, child: boxed }
    }

    /// 3 when a child is present, else 2: the two brackets count as
    /// children, the child slot only when filled.
    pub fn children_length(&self) -> (r: usize)
        ensures
            r as int == ast_children(self@).len(),
    {
        if self.child.is_some() {
            3
        } else {
            2
        }
    }

    /// Stable indexed access: 0 is the opening bracket, 1 the child slot
    /// (`None` when absent), 2 the closing bracket, regardless of child
    /// presence.
    pub fn get_child(&self, index: usize) -> (r: Option<AstNode>)
        ensures
            (r is Some) == (ast_get_child(self@, index as int) is Some),
            r matches Some(c) ==> ast_get_child(self@, index as int) == Some(c@),
    {
        if index == 0 {
            Some(AstNode::Bracket(self.opening_bracket))
        } else if index == 1 {
            match &self.child {
                Some(c) => Some((**c).deepclone()),
                None => None,
            }
        } else if index == 2 {
            Some(AstNode::Bracket(self.closing_bracket))
        } else {
            None
        }
    }

    /// The present children in order: opening bracket, child subtree when
    /// there is one, closing bracket.
    pub fn children(&self) -> (r: Vec<AstNode>)
        ensures
            r@.len() == ast_children(self@).len(),
            forall|i: int| 0 <= i < r@.len() ==> view_of(r@[i]) == ast_children(self@)[i],
    {
        let mut r: Vec<AstNode> = Vec::new();
        r.push(AstNode::Bracket(self.opening_bracket));
        if let Some(c) = &self.child {
            r.push((**c).deepclone());
        }
        r.push(AstNode::Bracket(self.closing_bracket));
        r
    }

    /// One more than the child's height; 1 when childless.
    pub fn node_height(&self) -> (r: usize)
        requires
            ast_height(self@) <= usize::MAX,
        ensures
            r as nat == ast_height(self@),
        decreases *self,
    {
        match &self.child {
            Some(c) => {
                let h = (**c).node_height();
                1 + h
            },
            None => 1,
        }
    }

    /// An independent copy with the same model value.
    pub fn deepclone(&self) -> (r: PairAstNode)
        ensures
            r@ == self@,
        decreases *self,
    {
        let child: Option<Box<AstNode>> = match &self.child {
            Some(c) => Some(Box::new((**c).deepclone())),
            None => None,
        };
        PairAstNode {
            length: self.length,
            opening_bracket: self.opening_bracket.deepclone(),
            closing_bracket: self.closing_bracket.deepclone(),
            child,
        }
    }
}

impl ListAstNode {
    /// Assembles a sibling list, storing the sum of the children's span
    /// lengths.
    pub fn new(children: Vec<AstNode>) -> (r: ListAstNode)
        requires
            sum_len(view_seq(children@)) <= u64::MAX,
        ensures
            r@ == (Ast::List {
                length: sum_len(view_seq(children@)) as u64,
                children: view_seq(children@),
            }),
            ast_len(r@) == sum_len(view_seq(children@)),
            (forall|i: int| 0 <= i < children@.len() ==> ast_wf(children@[i]@)) ==> ast_wf(r@),
    {
        let vs = Ghost(view_seq(children@));
        proof {
            lemma_view_seq_len(children@);
            lemma_seq_wf_iff(vs@);
            if forall|i: int| 0 <= i < children@.len() ==> ast_wf(children@[i]@) {
                assert forall|i: int| 0 <= i < vs@.len() implies ast_wf(vs@[i]) by {
                    lemma_view_seq_index(children@, i);
                }
            }
        }
        let mut length: u64 = 0;
        let mut i: usize = 0;
        while i < children.len()
            invariant
                i <= children.len(),
                vs@ == view_seq(children@),
                vs@.len() == children@.len(),
                sum_len(vs@) <= u64::MAX,
                length as int == sum_len(vs@.subrange(0, i as int)),
            decreases children.len() - i,
        {
            let l = children[i].length();
            proof {
                lemma_view_seq_index(children@, i as int);
                lemma_sum_len_step(vs@, i as int);
                lemma_sum_len_prefix_le(vs@, i as int + 1);
            }
            length = length + l;
            i = i + 1;
        }
        proof {
            assert(vs@.subrange(0, children@.len() as int) =~= vs@);
        }
        ListAstNode { length, children }
    }

    /// The number of children in the list.
    pub fn children_length(&self) -> (r: usize)
        ensures
            r as int == ast_children(self@).len(),
    {
        proof {
            lemma_view_seq_len(self.children@);
        }
        self.children.len()
    }

    /// The child at `index`, as an independent copy; `None` out of range.
    pub fn get_child(&self, index: usize) -> (r: Option<AstNode>)
        ensures
            (r is Some) == (ast_get_child(self@, index as int) is Some),
            r matches Some(c) ==> ast_get_child(self@, index as int) == Some(c@),
    {
        proof {
            lemma_view_seq_len(self.children@);
        }
        if index < self.children.len() {
            proof {
                lemma_view_seq_index(self.children@, index as int);
            }
            Some(self.children[index].deepclone())
        } else {
            None
        }
    }

    /// All children in order, as independent copies.
    pub fn children(&self) -> (r: Vec<AstNode>)
        ensures
            r@.len() == ast_children(self@).len(),
            forall|i: int| 0 <= i < r@.len() ==> view_of(r@[i]) == ast_children(self@)[i],
    {
        let copy = self.deepclone();
        let r = copy.children;
        proof {
            lemma_view_seq_len(r@);
            lemma_view_seq_len(self.children@);
            assert forall|i: int| 0 <= i < r@.len() implies view_of(r@[i]) == ast_children(
                self@,
            )[i] by {
                lemma_view_seq_index(r@, i);
                lemma_view_seq_index(self.children@, i);
            }
        }
        r
    }

    /// One more than the tallest child's height; 1 when the list is empty.
    pub fn node_height(&self) -> (r: usize)
        requires
            ast_height(self@) <= usize::MAX,
        ensures
            r as nat == ast_height(self@),
        decreases *self,
    {
        let vs = Ghost(view_seq(self.children@));
        proof {
            lemma_view_seq_len(self.children@);
            lemma_seq_max_height_is_max(vs@);
        }
        let mut tallest: usize = 0;
        let mut i: usize = 0;
        while i < self.children.len()
            invariant
                i <= self.children.len(),
                vs@ == view_seq(self.children@),
                vs@.len() == self.children@.len(),
                ast_height(self@) == 1 + seq_max_height(vs@),
                ast_height(self@) <= usize::MAX,
                forall|j: int| 0 <= j < vs@.len() ==> ast_height(vs@[j]) <= seq_max_height(vs@),
                tallest as nat == seq_max_height(vs@.subrange(0, i as int)),
            decreases self.children.len() - i,
        {
            proof {
                lemma_view_seq_index(self.children@, i as int);
                lemma_seq_max_height_step(vs@, i as int);
            }
            let h = self.children[i].node_height();
            if h > tallest {
                tallest = h;
            }
            i = i + 1;
        }
        proof {
            assert(vs@.subrange(0, self.children@.len() as int) =~= vs@);
        }
        1 + tallest
    }

    /// An independent copy with the same model value.
    pub fn deepclone(&self) -> (r: ListAstNode)
        ensures
            r@ == self@,
        decreases *self,
    {
        let vs = Ghost(view_seq(self.children@));
        proof {
            lemma_view_seq_len(self.children@);
        }
        let mut out: Vec<AstNode> = Vec::new();
        let mut i: usize = 0;
        while i < self.children.len()
            invariant
                i <= self.children.len(),
                vs@ == view_seq(self.children@),
                vs@.len() == self.children@.len(),
                out@.len() == i,
                view_seq(out@) == vs@.subrange(0, i as int),
            decreases self.children.len() - i,
        {
            let ghost prev = out@;
            let c = self.children[i].deepclone();
            proof {
                lemma_view_seq_index(self.children@, i as int);
                lemma_view_seq_push(prev, c);
            }
            out.push(c);
            proof {
                assert(vs@.subrange(0, i as int + 1) =~= vs@.subrange(0, i as int).push(vs@[
                    i as int]));
            }
            i = i + 1;
        }
        proof {
            assert(vs@.subrange(0, self.children@.len() as int) =~= vs@);
        }
        ListAstNode { length: self.length, children: out }
    }
}

/// A single bracket token; stores its span length and the classification an
/// external tokenizer supplied.
#[derive(Clone, Copy, Debug, PartialEq, Eq)]
pub struct BracketAstNode {
    pub length: u64,
    pub kind: BracketKind,
}

impl View for BracketAstNode {
    type V = Ast;

    open spec fn view(&self) -> Ast {
        Ast::Bracket { token: BracketToken { kind: self.kind, length: self.length } }
    }
}

impl BracketAstNode {
    pub fn new(kind: BracketKind, length: u64) -> (r: BracketAstNode)
        ensures
            r@ == (Ast::Bracket { token: BracketToken { kind, length } }),
    {
        BracketAstNode { length, kind }
    }

    pub fn deepclone(&self) -> (r: BracketAstNode)
        ensures
            r@ == self@,
    {
        BracketAstNode { length: self.length, kind: self.kind }
    }
}

/// A closing bracket that has no matching open bracket in scope: malformed
/// input is a valid leaf of the tree, never a construction failure.
#[derive(Clone, Copy, Debug, PartialEq, Eq)]
pub struct InvalidBracketAstNode {
    pub length: u64,
    pub kind: BracketKind,
}

impl View for InvalidBracketAstNode {
    type V = Ast;

    open spec fn view(&self) -> Ast {
        Ast::UnexpectedClosingBracket {
            token: BracketToken { kind: self.kind, length: self.length },
        }
    }
}

impl InvalidBracketAstNode {
    pub fn new(kind: BracketKind, length: u64) -> (r: InvalidBracketAstNode)
        ensures
            r@ == (Ast::UnexpectedClosingBracket { token: BracketToken { kind, length } }),
    {
        InvalidBracketAstNode { length, kind }
    }

    pub fn deepclone(&self) -> (r: InvalidBracketAstNode)
        ensures
            r@ == self@,
    {
        InvalidBracketAstNode { length: self.length, kind: self.kind }
    }
}

/// An opaque text span with no sub-structure; stores only its length.
#[derive(Clone, Copy, Debug, PartialEq, Eq)]
pub struct TextAstNode {
    pub length: u64,
}

impl View for TextAstNode {
    type V = Ast;

    open spec fn view(&self) -> Ast {
        Ast::Text { length: self.length }
    }
}

impl TextAstNode {
    pub fn new(length: u64) -> (r: TextAstNode)
        ensures
            r@ == (Ast::Text { length }),
    {
        TextAstNode { length }
    }

    pub fn deepclone(&self) -> (r: TextAstNode)
        ensures
            r@ == self@,
    {
        TextAstNode { length: self.length }
    }
}

} // verus!
