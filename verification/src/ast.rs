//! The markdown syntax tree as a closed set of tagged variants, the
//! context-sensitive walk that classifies its text, and the parse step that
//! produces the tree from a release body.

use vstd::prelude::*;

use crate::items::{Category, CategoryV, Item, ItemV};
use markdown::mdast::Node as Md;

verus! {

use crate::items::reduce_spec;

/// A markdown syntax tree node, restricted to the node kinds that occur in
/// release notes.  Every other node kind of the parser is mapped to `Other`.
#[derive(Debug)]
pub enum MdNode {
    Root(Vec<MdNode>),
    Paragraph(Vec<MdNode>),
    List(Vec<MdNode>),
    ListItem(Vec<MdNode>),
    Strong(Vec<MdNode>),
    Emphasis(Vec<MdNode>),
    /// A link: its target URL and its children.
    Link(String, Vec<MdNode>),
    /// An inline code span and its literal text.
    InlineCode(String),
    /// A run of plain text.
    Text(String),
    Image,
    Other,
}

/// The classification context a node imposes on the text directly inside it.
pub enum TextCtx {
    Plain,
    Bold,
    Italic,
    /// Inside a link with this target URL.
    Linked(Seq<char>),
}

/// The context that the immediate parent node gives to a text child: only
/// strong, emphasis and link parents change how text is classified.
pub open spec fn ctx_of(context: Option<&MdNode>) -> TextCtx {
    match context {
        Some(MdNode::Strong(_)) => TextCtx::Bold,
        Some(MdNode::Emphasis(_)) => TextCtx::Italic,
        Some(MdNode::Link(url, _)) => TextCtx::Linked(url@),
        _ => TextCtx::Plain,
    }
}

/// The category a text run receives under a given context.
pub open spec fn text_category(ctx: TextCtx) -> CategoryV {
    match ctx {
        TextCtx::Plain => CategoryV::Text,
        TextCtx::Bold => CategoryV::Bold,
        TextCtx::Italic => CategoryV::Italic,
        TextCtx::Linked(url) => CategoryV::Link(url),
    }
}

/// The children of a node, as a sequence; leaf nodes have none.
pub open spec fn children_of(node: MdNode) -> Seq<MdNode> {
    match node {
        MdNode::Root(ch) => ch@,
        MdNode::Paragraph(ch) => ch@,
        MdNode::List(ch) => ch@,
        MdNode::ListItem(ch) => ch@,
        MdNode::Strong(ch) => ch@,
        MdNode::Emphasis(ch) => ch@,
        MdNode::Link(_, ch) => ch@,
        _ => Seq::empty(),
    }
}

/// A paragraph whose only child is an image is dropped entirely: release
/// notes' leading hero images are not rendered as text.
pub open spec fn is_dropped_paragraph(node: MdNode) -> bool {
    &&& node is Paragraph
    &&& children_of(node).len() == 1
    &&& children_of(node)[0] is Image
}

/// Whether the walk produces a fragment list for this node at all; image
/// nodes, dropped paragraphs and unhandled node kinds produce nothing.
pub open spec fn emits(node: MdNode) -> bool {
    match node {
        MdNode::Image => false,
        MdNode::Other => false,
        MdNode::Paragraph(_) => !is_dropped_paragraph(node),
        _ => true,
    }
}

/// The classification walk: the ordered fragments a node contributes, given
/// the context its parent imposes on text directly inside the node.
pub open spec fn build_spec(node: MdNode, ctx: TextCtx) -> Seq<ItemV>
    decreases node, 1int,
{
    match node {
        MdNode::Root(ch) => build_seq_spec(ch@, TextCtx::Plain),
        MdNode::Paragraph(ch) => if is_dropped_paragraph(node) {
            Seq::empty()
        } else {
            build_seq_spec(ch@, TextCtx::Plain) + seq![
                ItemV { category: CategoryV::BreakPara, text: Seq::empty() },
            ]
        },
        MdNode::List(ch) => build_seq_spec(ch@, TextCtx::Plain) + seq![
            ItemV { category: CategoryV::BreakList, text: Seq::empty() },
        ],
        MdNode::ListItem(ch) => build_seq_spec(ch@, TextCtx::Plain),
        MdNode::Strong(ch) => build_seq_spec(ch@, TextCtx::Bold),
        MdNode::Emphasis(ch) => build_seq_spec(ch@, TextCtx::Italic),
        MdNode::Link(url, ch) => build_seq_spec(ch@, TextCtx::Linked(url@)),
        MdNode::InlineCode(value) => seq![ItemV { category: CategoryV::Code, text: value@ }],
        MdNode::Text(value) => seq![ItemV { category: text_category(ctx), text: value@ }],
        MdNode::Image => Seq::empty(),
        MdNode::Other => Seq::empty(),
    }
}

/// The fragments of a run of sibling nodes, concatenated in document order,
/// all under the same context.
pub open spec fn build_seq_spec(nodes: Seq<MdNode>, ctx: TextCtx) -> Seq<ItemV>
    decreases nodes, 0int,
{
    if nodes.len() == 0 {
        Seq::empty()
    } else {
        build_spec(nodes[0], ctx) + build_seq_spec(nodes.drop_first(), ctx)
    }
}

/// The fragments a release body's text reduces to: the parsed tree is walked
/// and classified, then merged into paragraph-level blocks; text that does
/// not parse yields no fragments.
pub open spec fn items_of_text(s: Seq<char>) -> Seq<ItemV> {
    match md_ast_of(s) {
        Some(node) => if emits(node) {
            reduce_spec(build_spec(node, TextCtx::Plain))
        } else {
            Seq::empty()
        },
        None => Seq::empty(),
    }
}

/// The markdown syntax tree that the parser gives for a text, mapped onto
/// the library's node kinds; `None` when the text does not parse.  The
/// parser is deterministic, so this is a function of the text alone.
pub uninterp spec fn md_ast_of(s: Seq<char>) -> Option<MdNode>;

/// Relies on markdown::to_mdast with the GFM parse options: the resulting
/// tree depends on the input text alone, and a parse failure is reported as
/// `None` rather than an error.
#[verifier::external_body]
fn parse_markdown(s: &str) -> (r: Option<MdNode>)
    ensures
        r == md_ast_of(s@),
{
    match markdown::to_mdast(s, &markdown::ParseOptions::gfm()) {
        Ok(n) => Some(block_from_mdast(&n)),
        Err(_) => None,
    }
}

#[verifier::external_type_specification]
#[verifier::external_body]
pub struct ExMdastNode(markdown::mdast::Node);

/// Relies on markdown::mdast::Node: maps each container variant that release
/// notes use onto the library's tree, one arm each, moving fields only.
#[verifier::external_body]
fn block_from_mdast(n: &Md) -> MdNode {
    match n {
        Md::Root(x) => MdNode::Root(list_from_mdast(&x.children)),
        Md::Paragraph(x) => MdNode::Paragraph(list_from_mdast(&x.children)),
        Md::List(x) => MdNode::List(list_from_mdast(&x.children)),
        Md::ListItem(x) => MdNode::ListItem(list_from_mdast(&x.children)),
        other => span_from_mdast(other),
    }
}

/// Relies on markdown::mdast::Node: maps each phrasing variant that release
/// notes use onto the library's tree, one arm each, moving fields only;
/// every unhandled variant becomes `Other`.
#[verifier::external_body]
fn span_from_mdast(n: &Md) -> MdNode {
    match n {
        Md::Strong(x) => MdNode::Strong(list_from_mdast(&x.children)),
        Md::Emphasis(x) => MdNode::Emphasis(list_from_mdast(&x.children)),
        Md::Link(x) => MdNode::Link(x.url.clone(), list_from_mdast(&x.children)),
        Md::InlineCode(x) => MdNode::InlineCode(x.value.clone()),
        Md::Text(x) => MdNode::Text(x.value.clone()),
        Md::Image(_) => MdNode::Image,
        _ => MdNode::Other,
    }
}

/// Relies on markdown::mdast::Node: maps a child list onto the library's
/// tree, node for node.
#[verifier::external_body]
fn list_from_mdast(ns: &Vec<Md>) -> Vec<MdNode> {
    ns.iter().map(block_from_mdast).collect()
}

/// The exec walk of a run of sibling nodes under their common parent.
fn build_children(parent: &MdNode) -> (r: Vec<Item>)
    ensures
        r.deep_view() == build_seq_spec(children_of(*parent), ctx_of(Some(parent))),
    decreases *parent, 0int,
{
    let mut out: Vec<Item> = Vec::new();
    let ch: &Vec<MdNode> = match parent {
        MdNode::Root(ch) => ch,
        MdNode::Paragraph(ch) => ch,
        MdNode::List(ch) => ch,
        MdNode::ListItem(ch) => ch,
        MdNode::Strong(ch) => ch,
        MdNode::Emphasis(ch) => ch,
        MdNode::Link(_, ch) => ch,
        _ => {
            proof {
                assert(out.deep_view() =~= Seq::<ItemV>::empty());
            }
            return out;
        },
    };
    let ghost ctx = ctx_of(Some(parent));
    proof {
        assert(children_of(*parent) == ch@);
        assert(out.deep_view() =~= Seq::<ItemV>::empty());
        assert(Seq::<ItemV>::empty() + build_seq_spec(ch@, ctx) =~= build_seq_spec(ch@, ctx));
        assert(ch@.skip(0) =~= ch@);
    }
    let mut i: usize = 0;
    while i < ch.len()
        invariant
            0 <= i <= ch.len(),
            ctx == ctx_of(Some(parent)),
            build_seq_spec(children_of(*parent), ctx) == out.deep_view() + build_seq_spec(
                ch@.skip(i as int),
                ctx,
            ),
            children_of(*parent) == ch@,
        decreases ch.len() - i,
    {
        let ghost pre_out = out.deep_view();
        let ghost rest = ch@.skip(i as int);
        proof {
            assert(rest[0] == ch@[i as int]);
            assert(rest.drop_first() =~= ch@.skip(i + 1));
        }
        match Item::build_items(&ch[i], Some(parent)) {
            Some(mut v) => {
                let ghost v_dv = v.deep_view();
                out.append(&mut v);
                proof {
                    assert(out.deep_view() =~= pre_out + v_dv);
                }
            },
            None => {
                proof {
                    assert(pre_out + Seq::<ItemV>::empty() =~= pre_out);
                }
            },
        }
        i = i + 1;
    }
    proof {
        assert(ch@.skip(i as int) =~= Seq::<MdNode>::empty());
        assert(out.deep_view() + build_seq_spec(Seq::<MdNode>::empty(), ctx) =~= out.deep_view());
    }
    out
}

impl Item {
    /// Walk one node of the syntax tree, with the node's immediate parent as
    /// context, and produce its classified fragments in document order.
    /// Image nodes, paragraphs holding only an image, and unhandled node
    /// kinds produce nothing at all.
    pub fn build_items(node: &MdNode, context: Option<&MdNode>) -> (r: Option<Vec<Item>>)
        ensures
            r is Some <==> emits(*node),
            (match r {
                Some(v) => v.deep_view() == build_spec(*node, ctx_of(context)),
                None => build_spec(*node, ctx_of(context)) == Seq::<ItemV>::empty(),
            }),
        decreases *node, 1int,
    {
        match node {
            MdNode::Root(_) => Some(build_children(node)),
            MdNode::Paragraph(ch) => {
                if ch.len() == 1 && matches!(&ch[0], MdNode::Image) {
                    proof {
                        assert(children_of(*node)[0] is Image);
                    }
                    None
                } else {
                    let mut v = build_children(node);
                    let ghost v_dv = v.deep_view();
                    v.push(Item { category: Category::BreakPara, text: String::new() });
                    proof {
                        assert(v.deep_view() =~= v_dv + seq![
                            ItemV { category: CategoryV::BreakPara, text: Seq::empty() },
                        ]);
                    }
                    Some(v)
                }
            },
            MdNode::List(_) => {
                let mut v = build_children(node);
                let ghost v_dv = v.deep_view();
                v.push(Item { category: Category::BreakList, text: String::new() });
                proof {
                    assert(v.deep_view() =~= v_dv + seq![
                        ItemV { category: CategoryV::BreakList, text: Seq::empty() },
                    ]);
                }
                Some(v)
            },
            MdNode::ListItem(_) => Some(build_children(node)),
            MdNode::Strong(_) => Some(build_children(node)),
            MdNode::Emphasis(_) => Some(build_children(node)),
            MdNode::Link(_, _) => Some(build_children(node)),
            MdNode::InlineCode(value) => {
                let v = vec![Item { category: Category::Code, text: value.clone() }];
                proof {
                    assert(v.deep_view() =~= seq![
                        ItemV { category: CategoryV::Code, text: value@ },
                    ]);
                }
                Some(v)
            },
            MdNode::Text(value) => {
                let cat = match context {
                    Some(MdNode::Strong(_)) => Category::Bold,
                    Some(MdNode::Emphasis(_)) => Category::Italic,
                    Some(MdNode::Link(url, _)) => Category::Link(url.clone()),
                    _ => Category::Text,
                };
                let v = vec![Item { category: cat, text: value.clone() }];
                proof {
                    assert(v.deep_view() =~= seq![
                        ItemV { category: text_category(ctx_of(context)), text: value@ },
                    ]);
                }
                Some(v)
            },
            MdNode::Image => None,
            MdNode::Other => None,
        }
    }

    /// Turn an optional markdown release body into the finished fragment
    /// sequence: parse, walk, then merge.  An absent body, a parse failure
    /// or a tree that produces nothing all yield the empty sequence.
    pub fn from_list(body: Option<String>) -> (r: Vec<Item>)
        ensures
            r.deep_view() == (match body {
                Some(s) => items_of_text(s@),
                None => Seq::<ItemV>::empty(),
            }),
    {
        match body {
            None => {
                let r: Vec<Item> = Vec::new();
                proof {
                    assert(r.deep_view() =~= Seq::<ItemV>::empty());
                }
                r
            },
            Some(notes) => {
                match parse_markdown(notes.as_str()) {
                    Some(node) => {
                        match Item::build_items(&node, None) {
                            Some(items) => Item::reduce_ast(items),
                            None => {
                                let r: Vec<Item> = Vec::new();
                                proof {
                                    assert(r.deep_view() =~= Seq::<ItemV>::empty());
                                }
                                r
                            },
                        }
                    },
                    None => {
                        let r: Vec<Item> = Vec::new();
                        proof {
                            assert(r.deep_view() =~= Seq::<ItemV>::empty());
                        }
                        r
                    },
                }
            },
        }
    }
}

} // verus!
