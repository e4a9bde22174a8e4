//! Tests of the markdown reduction engine: the classification walk and the
//! merge pass, both through the real parser and on hand-built trees.

use relnotes::{Category, Item, MdNode};

fn text_of(items: &[Item]) -> Vec<(bool, String)> {
    items
        .iter()
        .map(|it| (matches!(it.category, Category::Text), it.text.clone()))
        .collect()
}

#[test]
fn single_paragraph_with_bold_and_italic() {
    let items = Item::from_list(Some("**Bold** and *italic* text.\n".to_string()));
    assert_eq!(items.len(), 1);
    assert!(matches!(items[0].category, Category::Text));
    assert_eq!(items[0].text, "<b>Bold</b> and <i>italic</i> text.");
}

#[test]
fn lone_image_paragraph_yields_nothing() {
    let items = Item::from_list(Some("![alt](url)".to_string()));
    assert!(items.is_empty());
}

#[test]
fn malformed_markdown_yields_empty_items() {
    let items = Item::from_list(Some("<div>".to_string()));
    assert!(items.is_empty());
}

#[test]
fn absent_body_yields_empty_items() {
    let items = Item::from_list(None);
    assert!(items.is_empty());
}

#[test]
fn inline_code_merges_as_plain_text() {
    let items = Item::from_list(Some("run `cargo` now\n".to_string()));
    assert_eq!(text_of(&items), vec![(true, "run cargo now".to_string())]);
}

#[test]
fn link_text_merges_without_url() {
    let items = Item::from_list(Some("see [the docs](https://example.com) here\n".to_string()));
    assert_eq!(text_of(&items), vec![(true, "see the docs here".to_string())]);
}

#[test]
fn flat_input_reduces_to_itself() {
    let flat = vec![
        Item { category: Category::Text, text: "hello".to_string() },
        Item { category: Category::BreakPara, text: String::new() },
    ];
    let reduced = Item::reduce_ast(flat);
    assert_eq!(text_of(&reduced), vec![(true, "hello".to_string())]);
}

#[test]
fn trailing_text_without_break_is_dropped() {
    let reduced = Item::reduce_ast(vec![Item {
        category: Category::Text,
        text: "dangling".to_string(),
    }]);
    assert!(reduced.is_empty());
}

#[test]
fn list_with_plain_entries_merges_into_one_block() {
    let tree = MdNode::Root(vec![MdNode::List(vec![
        MdNode::ListItem(vec![MdNode::Text("A".to_string())]),
        MdNode::ListItem(vec![MdNode::Text("B".to_string())]),
    ])]);
    let built = Item::build_items(&tree, None).expect("root emits");
    let reduced = Item::reduce_ast(built);
    assert_eq!(text_of(&reduced), vec![(true, "AB".to_string())]);
}

#[test]
fn list_entries_with_paragraphs_break_per_entry() {
    let items = Item::from_list(Some("- A\n- B\n".to_string()));
    let texts: Vec<String> = items.iter().map(|it| it.text.clone()).collect();
    assert!(items.iter().all(|it| matches!(it.category, Category::Text)));
    assert_eq!(texts, vec!["A".to_string(), "B".to_string(), String::new()]);
}

#[test]
fn text_in_strong_context_is_bold() {
    let tree = MdNode::Strong(vec![MdNode::Text("loud".to_string())]);
    let parent = MdNode::Paragraph(vec![]);
    let built = Item::build_items(&tree, Some(&parent)).expect("strong emits");
    assert_eq!(built.len(), 1);
    assert!(matches!(built[0].category, Category::Bold));
    assert_eq!(built[0].text, "loud");
}

#[test]
fn text_in_link_context_carries_url() {
    let tree = MdNode::Link(
        "https://example.com".to_string(),
        vec![MdNode::Text("click".to_string())],
    );
    let built = Item::build_items(&tree, None).expect("link emits");
    assert_eq!(built.len(), 1);
    match &built[0].category {
        Category::Link(url) => assert_eq!(url, "https://example.com"),
        other => panic!("expected link category, got {:?}", other),
    }
    assert_eq!(built[0].text, "click");
}

#[test]
fn unhandled_nodes_emit_nothing() {
    assert!(Item::build_items(&MdNode::Other, None).is_none());
    assert!(Item::build_items(&MdNode::Image, None).is_none());
}
