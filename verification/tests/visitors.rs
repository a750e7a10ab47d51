use intl_document::ast::{
    BlockNode, Document, Emphasis, Icu, IcuPlural, IcuPluralArm, IcuVariable, InlineContent,
    Paragraph,
};
use intl_document::visitor::{visit_with_mut, Traversal, Visitor};

/// Gathers the literal text of a document and ignores everything else.
struct PlainText {
    text: String,
}

impl Visitor for PlainText {
    fn visit_text(&mut self, node: &String) {
        self.text.push_str(node);
    }
}

/// Counts how deep the walk is, and how deep it ever was.
struct Depth {
    now: usize,
    deepest: usize,
}

impl Visitor for Depth {
    fn visit_inline_content(&mut self, _node: &InlineContent) {
        self.now += 1;
        self.deepest = self.deepest.max(self.now);
    }

    fn exit_inline_content(&mut self, _node: &InlineContent) {
        self.now -= 1;
    }
}

/// Writes no hook at all.
struct Indifferent {
    untouched: u32,
}

impl Visitor for Indifferent {}

fn text(value: &str) -> InlineContent {
    InlineContent::Text(value.to_string())
}

fn sample() -> Document {
    let plural = IcuPlural::new(
        IcuVariable::new("count".to_string()),
        vec![
            IcuPluralArm::new("one".to_string(), vec![text("item")]),
            IcuPluralArm::new("other".to_string(), vec![text("items")]),
        ],
    );
    Document::new(vec![
        BlockNode::Paragraph(Paragraph::new(vec![
            text("You have "),
            InlineContent::Emphasis(Emphasis::new(vec![InlineContent::Icu(Icu::IcuPlural(
                plural,
            ))])),
        ])),
        BlockNode::ThematicBreak,
    ])
}

#[test]
fn partial_visitor_sees_the_hooks_it_wrote() {
    let mut plain = PlainText { text: String::new() };
    visit_with_mut(&mut plain, &sample());
    assert_eq!(plain.text, "You have itemitems");
}

#[test]
fn partial_visitor_pairs_enter_and_exit() {
    let mut depth = Depth { now: 0, deepest: 0 };
    Traversal::traverse_document(&mut depth, &sample());
    assert_eq!(depth.now, 0);
    assert_eq!(depth.deepest, 3);
}

#[test]
fn unwritten_hooks_do_nothing() {
    let mut indifferent = Indifferent { untouched: 7 };
    visit_with_mut(&mut indifferent, &sample());
    assert_eq!(indifferent.untouched, 7);
}
