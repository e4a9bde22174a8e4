//! Classified text fragments produced from a markdown release body, and the
//! merge pass that folds a flat run of fragments into paragraph-level text
//! blocks.

use vstd::prelude::*;

verus! {

use vstd::string::StringExecFns;

/// The markdown role of one fragment of release-note text.
///
/// The break variants are internal boundary markers: they are consumed by the
/// merge pass and never appear in a finished record.
#[derive(Debug)]
pub enum Category {
    /// Plain text, and the category of every merged paragraph block.
    Text,
    /// Text that stood inside a strong (bold) span.
    Bold,
    /// Text that stood inside an emphasis (italic) span.
    Italic,
    /// The literal text of an inline code span.
    Code,
    /// Text that stood inside a link; the payload is the link's target URL.
    Link(String),
    /// End of a paragraph.
    BreakPara,
    /// End of a list.
    BreakList,
}

/// One classified fragment of release-note text.
#[derive(Debug)]
pub struct Item {
    pub category: Category,
    pub text: String,
}

/// Mathematical value of a `Category`.
pub enum CategoryV {
    Text,
    Bold,
    Italic,
    Code,
    Link(Seq<char>),
    BreakPara,
    BreakList,
}

/// Mathematical value of an `Item`.
pub struct ItemV {
    pub category: CategoryV,
    pub text: Seq<char>,
}

impl View for Category {
    type V = CategoryV;

    open spec fn view(&self) -> CategoryV {
        match self {
            Category::Text => CategoryV::Text,
            Category::Bold => CategoryV::Bold,
            Category::Italic => CategoryV::Italic,
            Category::Code => CategoryV::Code,
            Category::Link(url) => CategoryV::Link(url@),
            Category::BreakPara => CategoryV::BreakPara,
            Category::BreakList => CategoryV::BreakList,
        }
    }
}

impl DeepView for Category {
    type V = CategoryV;

    open spec fn deep_view(&self) -> CategoryV {
        self.view()
    }
}

impl View for Item {
    type V = ItemV;

    open spec fn view(&self) -> ItemV {
        ItemV { category: self.category@, text: self.text@ }
    }
}

impl DeepView for Item {
    type V = ItemV;

    open spec fn deep_view(&self) -> ItemV {
        self.view()
    }
}

impl Clone for Category {
    fn clone(&self) -> (res: Self)
        ensures
            res@ == self@,
    {
        match self {
            Category::Text => Category::Text,
            Category::Bold => Category::Bold,
            Category::Italic => Category::Italic,
            Category::Code => Category::Code,
            Category::Link(url) => Category::Link(url.clone()),
            Category::BreakPara => Category::BreakPara,
            Category::BreakList => Category::BreakList,
        }
    }
}

impl Clone for Item {
    fn clone(&self) -> (res: Self)
        ensures
            res@ == self@,
    {
        Item { category: self.category.clone(), text: self.text.clone() }
    }
}

/// A break marker ends the text block that is being accumulated.
pub open spec fn is_break(c: CategoryV) -> bool {
    c is BreakPara || c is BreakList
}

/// How one non-break fragment appears inside a merged text block: bold and
/// italic fragments are wrapped in inline markers, everything else (plain
/// text, code, link text) is taken verbatim.
pub open spec fn inline_text(it: ItemV) -> Seq<char> {
    match it.category {
        CategoryV::Bold => "<b>"@ + it.text + "</b>"@,
        CategoryV::Italic => "<i>"@ + it.text + "</i>"@,
        _ => it.text,
    }
}

/// The merge pass over the remaining fragments, with `acc` the text
/// accumulated so far for the current block.  Each break marker flushes the
/// accumulator as one `Text` item; text accumulated after the last break is
/// dropped.
pub open spec fn reduce_from(items: Seq<ItemV>, acc: Seq<char>) -> Seq<ItemV>
    decreases items.len(),
{
    if items.len() == 0 {
        Seq::empty()
    } else if is_break(items[0].category) {
        seq![ItemV { category: CategoryV::Text, text: acc }] + reduce_from(
            items.drop_first(),
            Seq::empty(),
        )
    } else {
        reduce_from(items.drop_first(), acc + inline_text(items[0]))
    }
}

/// The merge pass applied to a whole fragment sequence.
pub open spec fn reduce_spec(items: Seq<ItemV>) -> Seq<ItemV> {
    reduce_from(items, Seq::empty())
}

/// Law: the merge pass is the identity on already-flat input.  A sequence
/// holding one plain text fragment followed by one break marker reduces to
/// the single-item sequence whose text equals the original.
pub proof fn lemma_reduce_flat_identity(text: Seq<char>, brk: ItemV)
    requires
        is_break(brk.category),
    ensures
        reduce_spec(seq![ItemV { category: CategoryV::Text, text: text }, brk]) == seq![
            ItemV { category: CategoryV::Text, text: text },
        ],
{
    let flat = seq![ItemV { category: CategoryV::Text, text: text }, brk];
    assert(flat.drop_first() =~= seq![brk]);
    assert(seq![brk].drop_first() =~= Seq::<ItemV>::empty());
    assert(Seq::<char>::empty() + text =~= text);
    assert(reduce_from(seq![brk], text) == seq![ItemV { category: CategoryV::Text, text: text }]
        + reduce_from(Seq::<ItemV>::empty(), Seq::<char>::empty()));
    assert(reduce_spec(flat) =~= seq![ItemV { category: CategoryV::Text, text: text }]);
}

impl Item {
    /// Merge a flat run of classified fragments into paragraph-level text
    /// blocks: bold and italic fragments are wrapped in `<b>`/`<i>` markers,
    /// other fragments contribute their raw text, and every break marker
    /// flushes the accumulated text as one `Text` item.  Fragments after the
    /// last break marker are not emitted.
    pub fn reduce_ast(items: Vec<Item>) -> (r: Vec<Item>)
        ensures
            r.deep_view() == reduce_spec(items.deep_view()),
    {
        let ghost all = items.deep_view();
        let mut transformed: Vec<Item> = Vec::new();
        let mut building = String::new();
        let mut i: usize = 0;
        proof {
            assert(all.skip(0) =~= all);
            assert(transformed.deep_view() =~= Seq::<ItemV>::empty());
            assert(Seq::<ItemV>::empty() + reduce_from(all, building@) =~= reduce_from(
                all,
                building@,
            ));
        }
        while i < items.len()
            invariant
                0 <= i <= items.len(),
                all == items.deep_view(),
                reduce_spec(all) == transformed.deep_view() + reduce_from(
                    all.skip(i as int),
                    building@,
                ),
            decreases items.len() - i,
        {
            let ghost pre_out = transformed.deep_view();
            let ghost pre_acc = building@;
            let ghost rest = all.skip(i as int);
            let next = &items[i];
            proof {
                assert(rest[0] == next.deep_view());
                assert(rest.drop_first() =~= all.skip(i + 1));
            }
            match &next.category {
                Category::BreakPara | Category::BreakList => {
                    transformed.push(Item { category: Category::Text, text: building.clone() });
                    building = String::new();
                    proof {
                        assert(transformed.deep_view() =~= pre_out.push(
                            ItemV { category: CategoryV::Text, text: pre_acc },
                        ));
                        assert(reduce_from(rest, pre_acc) == seq![
                            ItemV { category: CategoryV::Text, text: pre_acc },
                        ] + reduce_from(rest.drop_first(), Seq::empty()));
                        assert(transformed.deep_view() + reduce_from(all.skip(i + 1), building@)
                            =~= pre_out + reduce_from(rest, pre_acc));
                    }
                },
                Category::Italic => {
                    building.append("<i>");
                    building.append(next.text.as_str());
                    building.append("</i>");
                    proof {
                        assert(building@ =~= pre_acc + inline_text(next.deep_view()));
                    }
                },
                Category::Bold => {
                    building.append("<b>");
                    building.append(next.text.as_str());
                    building.append("</b>");
                    proof {
                        assert(building@ =~= pre_acc + inline_text(next.deep_view()));
                    }
                },
                _ => {
                    building.append(next.text.as_str());
                    proof {
                        assert(building@ =~= pre_acc + inline_text(next.deep_view()));
                    }
                },
            }
            i = i + 1;
        }
        proof {
            assert(all.skip(i as int) =~= Seq::<ItemV>::empty());
            assert(transformed.deep_view() + reduce_from(all.skip(i as int), building@)
                =~= transformed.deep_view());
        }
        transformed
    }
}

} // verus!
