use brackets_ast::model::{AstNodeKind, BracketKind};
use brackets_ast::node::{
    AstNode, BracketAstNode, InvalidBracketAstNode, ListAstNode, PairAstNode, TextAstNode,
};

fn open_paren(length: u64) -> BracketAstNode {
    BracketAstNode::new(BracketKind::OpenParenthesis, length)
}

fn close_paren(length: u64) -> BracketAstNode {
    BracketAstNode::new(BracketKind::CloseParenthesis, length)
}

#[test]
fn pair_of_three_spans_has_length_seven_and_height_one() {
    let child = AstNode::Text(TextAstNode::new(5));
    let pair = PairAstNode::new(open_paren(1), close_paren(1), Some(child));
    let node = AstNode::Pair(pair);
    assert_eq!(node.length(), 7);
    assert_eq!(node.node_height(), 1);
    assert_eq!(node.kind(), AstNodeKind::Pair);
}

#[test]
fn childless_pair_length_is_brackets_only() {
    let pair = PairAstNode::new(open_paren(1), close_paren(2), None);
    let node = AstNode::Pair(pair);
    assert_eq!(node.length(), 3);
    assert_eq!(node.node_height(), 1);
}

#[test]
fn list_length_is_sum_of_children() {
    let children = vec![
        AstNode::Text(TextAstNode::new(3)),
        AstNode::Bracket(BracketAstNode::new(BracketKind::CloseBrace, 1)),
        AstNode::Text(TextAstNode::new(2)),
    ];
    let list = ListAstNode::new(children);
    assert_eq!(list.children_length(), 3);
    let node = AstNode::List(list);
    assert_eq!(node.length(), 6);
    assert_eq!(node.kind(), AstNodeKind::List);
    assert_eq!(node.children_length(), 3);
}

#[test]
fn empty_list_has_length_zero_and_height_one() {
    let node = AstNode::List(ListAstNode::new(Vec::new()));
    assert_eq!(node.length(), 0);
    assert_eq!(node.node_height(), 1);
    assert_eq!(node.children_length(), 0);
    assert_eq!(node.get_child(0), None);
}

#[test]
fn nested_pairs_in_list_reach_height_three() {
    let flat = AstNode::Pair(PairAstNode::new(open_paren(1), close_paren(1), None));
    let inner = AstNode::Pair(PairAstNode::new(open_paren(1), close_paren(1), None));
    let outer = AstNode::Pair(PairAstNode::new(open_paren(1), close_paren(1), Some(inner)));
    assert_eq!(flat.node_height(), 1);
    assert_eq!(outer.node_height(), 2);
    let node = AstNode::List(ListAstNode::new(vec![flat, outer]));
    assert_eq!(node.node_height(), 3);
    assert_eq!(node.list_height(), 3);
}

#[test]
fn list_height_is_zero_for_non_list_nodes() {
    let pair = AstNode::Pair(PairAstNode::new(open_paren(1), close_paren(1), None));
    assert_eq!(pair.list_height(), 0);
    let text = AstNode::Text(TextAstNode::new(4));
    assert_eq!(text.list_height(), 0);
}

#[test]
fn leaves_have_height_zero_and_no_children() {
    let text = AstNode::Text(TextAstNode::new(4));
    let bracket = AstNode::Bracket(BracketAstNode::new(BracketKind::OpenSquare, 1));
    let invalid = AstNode::UnexpectedClosingBracket(InvalidBracketAstNode::new(
        BracketKind::CloseSquare,
        1,
    ));
    for leaf in [&text, &bracket, &invalid] {
        assert_eq!(leaf.node_height(), 0);
        assert_eq!(leaf.children_length(), 0);
        assert_eq!(leaf.get_child(0), None);
        assert!(leaf.children().is_empty());
    }
    assert_eq!(text.kind(), AstNodeKind::Text);
    assert_eq!(bracket.kind(), AstNodeKind::Bracket);
    assert_eq!(
        invalid.kind(),
        AstNodeKind::UnexpectedClosingBracket
    );
    assert_eq!(invalid.length(), 1);
}

#[test]
fn pair_indices_are_stable_with_and_without_child() {
    let child = AstNode::Text(TextAstNode::new(5));
    let with_child = PairAstNode::new(open_paren(1), close_paren(1), Some(child.deepclone()));
    assert_eq!(with_child.children_length(), 3);
    assert_eq!(
        with_child.get_child(0),
        Some(AstNode::Bracket(open_paren(1)))
    );
    assert_eq!(with_child.get_child(1), Some(child));
    assert_eq!(
        with_child.get_child(2),
        Some(AstNode::Bracket(close_paren(1)))
    );
    assert_eq!(with_child.get_child(3), None);

    let childless = PairAstNode::new(open_paren(1), close_paren(1), None);
    assert_eq!(childless.children_length(), 2);
    assert_eq!(
        childless.get_child(0),
        Some(AstNode::Bracket(open_paren(1)))
    );
    assert_eq!(childless.get_child(1), None);
    assert_eq!(
        childless.get_child(2),
        Some(AstNode::Bracket(close_paren(1)))
    );
    let listed = childless.children();
    assert_eq!(listed.len(), 2);
    assert_eq!(listed[0], AstNode::Bracket(open_paren(1)));
    assert_eq!(listed[1], AstNode::Bracket(close_paren(1)));
}

#[test]
fn children_agree_with_get_child_on_lists_and_full_pairs() {
    let node = AstNode::List(ListAstNode::new(vec![
        AstNode::Text(TextAstNode::new(3)),
        AstNode::Pair(PairAstNode::new(open_paren(1), close_paren(1), None)),
        AstNode::Text(TextAstNode::new(2)),
    ]));
    let listed = node.children();
    assert_eq!(listed.len(), node.children_length());
    for (i, child) in listed.iter().enumerate() {
        assert_eq!(node.get_child(i).as_ref(), Some(child));
    }

    let pair = AstNode::Pair(PairAstNode::new(
        open_paren(1),
        close_paren(1),
        Some(AstNode::Text(TextAstNode::new(5))),
    ));
    let listed = pair.children();
    assert_eq!(listed.len(), pair.children_length());
    for (i, child) in listed.iter().enumerate() {
        assert_eq!(pair.get_child(i).as_ref(), Some(child));
    }
}

#[test]
fn deepclone_is_independent_of_the_original() {
    let mut original = AstNode::List(ListAstNode::new(vec![
        AstNode::Text(TextAstNode::new(3)),
        AstNode::Pair(PairAstNode::new(
            open_paren(1),
            close_paren(1),
            Some(AstNode::Text(TextAstNode::new(5))),
        )),
    ]));
    let copy = original.deepclone();
    assert_eq!(copy, original);
    if let AstNode::List(list) = &mut original {
        list.length = 999;
        list.children.clear();
    }
    assert_eq!(copy.length(), 10);
    assert_eq!(copy.children_length(), 2);
    assert_eq!(copy.node_height(), 2);
    drop(original);
    assert_eq!(copy.length(), 10);
}

#[test]
fn leaf_deepclones_keep_kind_and_length() {
    let bracket = BracketAstNode::new(BracketKind::OpenBrace, 2);
    assert_eq!(bracket.deepclone(), bracket);
    let text = TextAstNode::new(9);
    assert_eq!(text.deepclone(), text);
    let invalid = InvalidBracketAstNode::new(BracketKind::CloseParenthesis, 1);
    assert_eq!(invalid.deepclone(), invalid);
    let pair = PairAstNode::new(open_paren(1), close_paren(1), None);
    assert_eq!(pair.deepclone(), pair);
    let list = ListAstNode::new(vec![AstNode::Text(TextAstNode::new(1))]);
    assert_eq!(list.deepclone(), list);
}
