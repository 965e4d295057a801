//! The mathematical model of the bracket tree.
//!
//! `Ast` mirrors the executable node types with `Seq` in place of `Vec` and
//! `Box`; every executable node views to an `Ast` value.  The spec functions
//! here define span length, well-formedness (length conservation), node
//! height and the child sequence, and the lemmas state the structural laws
//! that hold of every well-formed tree.

use vstd::prelude::*;

verus! {

/// The token class of a bracket, as an external tokenizer classifies it:
/// one bracket family and role per variant.  Opaque data to the tree.
#[derive(Clone, Copy, Debug, PartialEq, Eq, Structural)]
pub enum BracketKind {
    OpenParenthesis,
    CloseParenthesis,
    OpenBrace,
    CloseBrace,
    OpenSquare,
    CloseSquare,
}

/// The discriminant of an `AstNode`.
#[derive(Clone, Copy, Debug, PartialEq, Eq, Structural)]
pub enum AstNodeKind {
    Text,
    Bracket,
    Pair,
    UnexpectedClosingBracket,
    List,
}

/// A classified bracket token with its span length, as the model sees it.
pub struct BracketToken {
    pub kind: BracketKind,
    pub length: u64,
}

/// The model of a tree node.  A `Pair`'s child slot holds zero or one
/// subtree, written as a sequence of length at most one.
#[verifier::ext_equal]
pub enum Ast {
    Text { length: u64 },
    Bracket { token: BracketToken },
    Pair { length: u64, opening: BracketToken, closing: BracketToken, child: Seq<Ast> },
    UnexpectedClosingBracket { token: BracketToken },
    List { length: u64, children: Seq<Ast> },
}

/// The discriminant of a model node.
pub open spec fn ast_kind(a: Ast) -> AstNodeKind {
    match a {
        Ast::Text { .. } => AstNodeKind::Text,
        Ast::Bracket { .. } => AstNodeKind::Bracket,
        Ast::Pair { .. } => AstNodeKind::Pair,
        Ast::UnexpectedClosingBracket { .. } => AstNodeKind::UnexpectedClosingBracket,
        Ast::List { .. } => AstNodeKind::List,
    }
}

/// The stored span length of a node.
pub open spec fn ast_len(a: Ast) -> u64 {
    match a {
        Ast::Text { length } => length,
        Ast::Bracket { token } => token.length,
        Ast::Pair { length, .. } => length,
        Ast::UnexpectedClosingBracket { token } => token.length,
        Ast::List { length, .. } => length,
    }
}

/// The sum of the stored lengths of a sequence of nodes.
pub open spec fn sum_len(s: Seq<Ast>) -> int
    decreases s.len(),
{
    if s.len() == 0 {
        0
    } else {
        sum_len(s.subrange(0, s.len() - 1)) + ast_len(s[s.len() - 1])
    }
}

/// Length conservation: a `Pair`'s stored length is the sum of its opening
/// bracket, optional child and closing bracket; a `List`'s stored length is
/// the sum of its children's, recursively at every node.  A `Pair` holds at
/// most one child subtree.
pub open spec fn ast_wf(a: Ast) -> bool
    decreases a,
{
    match a {
        Ast::Text { .. } => true,
        Ast::Bracket { .. } => true,
        Ast::UnexpectedClosingBracket { .. } => true,
        Ast::Pair { length, opening, closing, child } => {
            &&& child.len() <= 1
            &&& length == opening.length + sum_len(child) + closing.length
            &&& seq_wf(child)
        },
        Ast::List { length, children } => {
            &&& length == sum_len(children)
            &&& seq_wf(children)
        },
    }
}

/// Every node of the sequence is well-formed.
pub open spec fn seq_wf(s: Seq<Ast>) -> bool
    decreases s,
{
    if s.len() == 0 {
        true
    } else {
        seq_wf(s.subrange(0, s.len() - 1)) && ast_wf(s[s.len() - 1])
    }
}

/// Nesting depth beneath a node: 0 for the three leaf kinds, one more than
/// the child's height for a `Pair` (1 when childless), one more than the
/// children's maximum height for a `List` (1 when empty).
pub open spec fn ast_height(a: Ast) -> nat
    decreases a,
{
    match a {
        Ast::Text { .. } => 0,
        Ast::Bracket { .. } => 0,
        Ast::UnexpectedClosingBracket { .. } => 0,
        Ast::Pair { child, .. } => {
            if child.len() == 0 {
                1
            } else {
                1 + ast_height(child[0])
            }
        },
        Ast::List { children, .. } => 1 + seq_max_height(children),
    }
}

/// The maximum height over a sequence of nodes, 0 for the empty sequence.
pub open spec fn seq_max_height(s: Seq<Ast>) -> nat
    decreases s,
{
    if s.len() == 0 {
        0
    } else {
        let rest = seq_max_height(s.subrange(0, s.len() - 1));
        let last = ast_height(s[s.len() - 1]);
        if last >= rest {
            last
        } else {
            rest
        }
    }
}

/// The height of a `List` node, and 0 for every other kind.
pub open spec fn ast_list_height(a: Ast) -> nat {
    match a {
        Ast::List { .. } => ast_height(a),
        _ => 0,
    }
}

/// The immediate structural children of a node, in order.  A `Pair` exposes
/// its opening bracket, its child subtree if present, and its closing
/// bracket, as nodes; leaves expose nothing.
pub open spec fn ast_children(a: Ast) -> Seq<Ast> {
    match a {
        Ast::Pair { opening, closing, child, .. } => seq![Ast::Bracket { token: opening }]
            + child + seq![Ast::Bracket { token: closing }],
        Ast::List { children, .. } => children,
        _ => Seq::empty(),
    }
}

/// Indexed child access with stable indices: for a `Pair`, index 0 is the
/// opening bracket, index 1 the child slot (`None` when absent), index 2 the
/// closing bracket, whether or not a child is present; for a `List`, its
/// children in order.  Out of range, and on leaves, the result is `None`.
pub open spec fn ast_get_child(a: Ast, i: int) -> Option<Ast> {
    match a {
        Ast::Pair { opening, closing, child, .. } => {
            if i == 0 {
                Some(Ast::Bracket { token: opening })
            } else if i == 1 {
                if child.len() >= 1 {
                    Some(child[0])
                } else {
                    None
                }
            } else if i == 2 {
                Some(Ast::Bracket { token: closing })
            } else {
                None
            }
        },
        Ast::List { children, .. } => {
            if 0 <= i < children.len() {
                Some(children[i])
            } else {
                None
            }
        },
        _ => None,
    }
}

pub proof fn lemma_sum_len_step(s: Seq<Ast>, i: int)
    requires
        0 <= i < s.len(),
    ensures
        sum_len(s.subrange(0, i + 1)) == sum_len(s.subrange(0, i)) + ast_len(s[i]),
{
    let t = s.subrange(0, i + 1);
    assert(t.subrange(0, t.len() - 1) =~= s.subrange(0, i));
    assert(t[t.len() - 1] == s[i]);
}

/// The sum over a prefix never exceeds the sum over the whole sequence.
pub proof fn lemma_sum_len_prefix_le(s: Seq<Ast>, i: int)
    requires
        0 <= i <= s.len(),
    ensures
        sum_len(s.subrange(0, i)) <= sum_len(s),
    decreases s.len() - i,
{
    if i == s.len() {
        assert(s.subrange(0, i) =~= s);
    } else {
        lemma_sum_len_step(s, i);
        lemma_sum_len_prefix_le(s, i + 1);
    }
}

pub proof fn lemma_sum_len_singleton(a: Ast)
    ensures
        sum_len(seq![a]) == ast_len(a),
{
    assert(seq![a].subrange(0, 0) =~= Seq::<Ast>::empty());
    assert(sum_len(Seq::<Ast>::empty()) == 0);
}

pub proof fn lemma_seq_max_height_step(s: Seq<Ast>, i: int)
    requires
        0 <= i < s.len(),
    ensures
        seq_max_height(s.subrange(0, i + 1)) == if ast_height(s[i]) >= seq_max_height(
            s.subrange(0, i),
        ) {
            ast_height(s[i])
        } else {
            seq_max_height(s.subrange(0, i))
        },
{
    let t = s.subrange(0, i + 1);
    assert(t.subrange(0, t.len() - 1) =~= s.subrange(0, i));
    assert(t[t.len() - 1] == s[i]);
}

/// `seq_max_height` is the maximum: no element is taller, and some element
/// reaches it when the sequence is non-empty.
pub proof fn lemma_seq_max_height_is_max(s: Seq<Ast>)
    ensures
        forall|i: int| 0 <= i < s.len() ==> ast_height(s[i]) <= seq_max_height(s),
        s.len() > 0 ==> exists|i: int|
            0 <= i < s.len() && ast_height(s[i]) == seq_max_height(s),
    decreases s.len(),
{
    if s.len() > 0 {
        let t = s.subrange(0, s.len() - 1);
        lemma_seq_max_height_is_max(t);
        assert(forall|i: int| 0 <= i < t.len() ==> s[i] == t[i]);
        if ast_height(s[s.len() - 1]) >= seq_max_height(t) {
            assert(ast_height(s[s.len() - 1]) == seq_max_height(s));
        } else {
            let j = choose|j: int| 0 <= j < t.len() && ast_height(t[j]) == seq_max_height(t);
            assert(ast_height(s[j]) == seq_max_height(s));
        }
    }
}

/// A sequence is well-formed exactly when each of its elements is.
pub proof fn lemma_seq_wf_iff(s: Seq<Ast>)
    ensures
        seq_wf(s) <==> (forall|i: int| 0 <= i < s.len() ==> ast_wf(s[i])),
    decreases s.len(),
{
    if s.len() > 0 {
        let t = s.subrange(0, s.len() - 1);
        lemma_seq_wf_iff(t);
        assert(forall|i: int| 0 <= i < t.len() ==> s[i] == t[i]);
        if forall|i: int| 0 <= i < s.len() ==> ast_wf(s[i]) {
            assert(forall|i: int| 0 <= i < t.len() ==> ast_wf(t[i]));
        }
    }
}

/// Length conservation, the shape of every well-formed internal node: a
/// `Pair`'s stored length is its opening bracket's plus its child's (0 when
/// absent) plus its closing bracket's, and a `List`'s stored length is the
/// sum of its children's.
pub proof fn lemma_length_conservation(a: Ast)
    requires
        ast_wf(a),
    ensures
        a matches Ast::Pair { length, opening, closing, child } ==> length == opening.length
            + sum_len(child) + closing.length,
        a matches Ast::List { length, children } ==> length == sum_len(children),
{
}

/// Height monotonicity: a `Pair` is one taller than its child (height 1 when
/// childless), and a non-empty `List` is one taller than its tallest child
/// (height 1 when empty).
pub proof fn lemma_height_monotonicity(a: Ast)
    ensures
        a matches Ast::Pair { child, .. } ==> ast_height(a) == if child.len() == 0 {
            1nat
        } else {
            1 + ast_height(child[0])
        },
        a is List && ast_children(a).len() > 0 ==> (forall|i: int|
            0 <= i < ast_children(a).len() ==> ast_height(a) >= 1 + ast_height(
                ast_children(a)[i],
            )),
        a is List && ast_children(a).len() > 0 ==> (exists|i: int|
            0 <= i < ast_children(a).len() && ast_height(a) == 1 + ast_height(
                ast_children(a)[i],
            )),
        a is List && ast_children(a).len() == 0 ==> ast_height(a) == 1,
{
    if let Ast::List { children, .. } = a {
        lemma_seq_max_height_is_max(children);
    }
}

/// Indexed and iterated child access agree: at every index below the number
/// of children, `ast_get_child` returns exactly the node that `ast_children`
/// lists there.  The one exception is a childless `Pair`, whose child slot at
/// index 1 answers `None` while its two brackets sit at indices 0 and 2; the
/// second block of clauses states that case exactly.
pub proof fn lemma_indexed_iterated_consistency(a: Ast)
    requires
        ast_wf(a),
    ensures
        !(a matches Ast::Pair { child, .. } && child.len() == 0) ==> (forall|i: int|
            0 <= i < ast_children(a).len() ==> ast_get_child(a, i) == Some(ast_children(a)[i])),
        a matches Ast::Pair { child, .. } && child.len() == 0 ==> {
            &&& ast_children(a).len() == 2
            &&& ast_get_child(a, 0) == Some(ast_children(a)[0])
            &&& ast_get_child(a, 1) is None
            &&& ast_get_child(a, 2) == Some(ast_children(a)[1])
        },
{
    match a {
        Ast::Pair { opening, closing, child, .. } => {
            let cs = ast_children(a);
            assert(cs[0] == Ast::Bracket { token: opening });
            if child.len() > 0 {
                assert(forall|i: int| 0 <= i < child.len() ==> cs[1 + i] == child[i]);
            }
            assert(cs[cs.len() - 1] == Ast::Bracket { token: closing });
        },
        _ => {},
    }
}

} // verus!
