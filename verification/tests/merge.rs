use brackets_ast::merge::{merge_trees, ContiguityViolation, SpannedTree};
use brackets_ast::model::AstNodeKind;
use brackets_ast::node::{AstNode, TextAstNode};

fn text_at(start: u64, length: u64) -> SpannedTree {
    SpannedTree { start, tree: AstNode::Text(TextAstNode::new(length)) }
}

#[test]
fn merge_of_nothing_is_none() {
    assert_eq!(merge_trees(Vec::new()), Ok(None));
}

#[test]
fn merge_of_one_tree_is_an_independent_copy() {
    let tree = AstNode::Text(TextAstNode::new(8));
    let expected = tree.deepclone();
    let merged = merge_trees(vec![SpannedTree { start: 42, tree }]);
    assert_eq!(merged, Ok(Some(expected)));
}

#[test]
fn merge_of_three_contiguous_texts_is_a_list() {
    let merged = merge_trees(vec![text_at(0, 3), text_at(3, 4), text_at(7, 5)])
        .expect("contiguous spans must merge")
        .expect("three trees must yield a tree");
    assert_eq!(merged.kind(), AstNodeKind::List);
    assert_eq!(merged.length(), 12);
    assert_eq!(merged.children_length(), 3);
    assert_eq!(merged.get_child(0), Some(AstNode::Text(TextAstNode::new(3))));
    assert_eq!(merged.get_child(1), Some(AstNode::Text(TextAstNode::new(4))));
    assert_eq!(merged.get_child(2), Some(AstNode::Text(TextAstNode::new(5))));
}

#[test]
fn merge_of_two_trees_adds_their_lengths() {
    let merged = merge_trees(vec![text_at(5, 3), text_at(8, 4)])
        .expect("contiguous spans must merge")
        .expect("two trees must yield a tree");
    assert_eq!(merged.length(), 3 + 4);
}

#[test]
fn merge_with_a_gap_reports_the_violation() {
    let merged = merge_trees(vec![text_at(0, 3), text_at(5, 4)]);
    assert_eq!(merged, Err(ContiguityViolation));
}

#[test]
fn merge_with_an_overlap_reports_the_violation() {
    let merged = merge_trees(vec![text_at(0, 3), text_at(2, 4)]);
    assert_eq!(merged, Err(ContiguityViolation));
}

#[test]
fn merge_past_the_offset_space_reports_the_violation() {
    let merged = merge_trees(vec![text_at(u64::MAX - 1, 5), text_at(0, 1)]);
    assert_eq!(merged, Err(ContiguityViolation));
}
