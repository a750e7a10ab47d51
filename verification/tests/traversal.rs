use intl_document::ast::{
    BlockNode, CodeBlock, CodeSpan, Document, Emphasis, Heading, Hook, Icu, IcuDate,
    IcuDateTimeStyle, IcuNumber, IcuNumberStyle, IcuPlural, IcuPluralArm, IcuSelect, IcuTime,
    IcuVariable, InlineContent, Link, Paragraph, Strikethrough, Strong, TextOrPlaceholder,
};
use intl_document::trace::{trace, NodeKind, Step};
use intl_document::listener::Listener;
use intl_document::visitor::{visit_with_mut, Traversal};

/// Writes down every hook call, in the order the calls arrive.
struct CallLog {
    calls: Vec<String>,
}

impl CallLog {
    fn new() -> Self {
        CallLog { calls: Vec::new() }
    }
}

impl Listener for CallLog {
    fn visit_block_node(&mut self, _node: &BlockNode) {
        self.calls.push(format!("enter-block-node"));
    }

    fn exit_block_node(&mut self, _node: &BlockNode) {
        self.calls.push(format!("exit-block-node"));
    }

    fn visit_code_block(&mut self, _node: &CodeBlock) {
        self.calls.push(format!("enter-code-block"));
    }

    fn exit_code_block(&mut self, _node: &CodeBlock) {
        self.calls.push(format!("exit-code-block"));
    }

    fn visit_code_span(&mut self, _node: &CodeSpan) {
        self.calls.push(format!("enter-code-span"));
    }

    fn exit_code_span(&mut self, _node: &CodeSpan) {
        self.calls.push(format!("exit-code-span"));
    }

    fn visit_document(&mut self, _node: &Document) {
        self.calls.push(format!("enter-document"));
    }

    fn exit_document(&mut self, _node: &Document) {
        self.calls.push(format!("exit-document"));
    }

    fn visit_emphasis(&mut self, _node: &Emphasis) {
        self.calls.push(format!("enter-emphasis"));
    }

    fn exit_emphasis(&mut self, _node: &Emphasis) {
        self.calls.push(format!("exit-emphasis"));
    }

    fn visit_heading(&mut self, _node: &Heading) {
        self.calls.push(format!("enter-heading"));
    }

    fn exit_heading(&mut self, _node: &Heading) {
        self.calls.push(format!("exit-heading"));
    }

    fn visit_hook(&mut self, _node: &Hook) {
        self.calls.push(format!("enter-hook"));
    }

    fn exit_hook(&mut self, _node: &Hook) {
        self.calls.push(format!("exit-hook"));
    }

    fn visit_icu(&mut self, _node: &Icu) {
        self.calls.push(format!("enter-icu"));
    }

    fn exit_icu(&mut self, _node: &Icu) {
        self.calls.push(format!("exit-icu"));
    }

    fn visit_icu_date(&mut self, _node: &IcuDate) {
        self.calls.push(format!("enter-icu-date"));
    }

    fn exit_icu_date(&mut self, _node: &IcuDate) {
        self.calls.push(format!("exit-icu-date"));
    }

    fn visit_icu_date_time_style(&mut self, _node: &IcuDateTimeStyle) {
        self.calls.push(format!("enter-icu-date-time-style"));
    }

    fn exit_icu_date_time_style(&mut self, _node: &IcuDateTimeStyle) {
        self.calls.push(format!("exit-icu-date-time-style"));
    }

    fn visit_icu_number(&mut self, _node: &IcuNumber) {
        self.calls.push(format!("enter-icu-number"));
    }

    fn exit_icu_number(&mut self, _node: &IcuNumber) {
        self.calls.push(format!("exit-icu-number"));
    }

    fn visit_icu_number_style(&mut self, _node: &IcuNumberStyle) {
        self.calls.push(format!("enter-icu-number-style"));
    }

    fn exit_icu_number_style(&mut self, _node: &IcuNumberStyle) {
        self.calls.push(format!("exit-icu-number-style"));
    }

    fn visit_icu_plural(&mut self, _node: &IcuPlural) {
        self.calls.push(format!("enter-icu-plural"));
    }

    fn exit_icu_plural(&mut self, _node: &IcuPlural) {
        self.calls.push(format!("exit-icu-plural"));
    }

    fn visit_icu_plural_arm(&mut self, node: &IcuPluralArm) {
        self.calls.push(format!("enter-icu-plural-arm({})", node.selector));
    }

    fn exit_icu_plural_arm(&mut self, node: &IcuPluralArm) {
        self.calls.push(format!("exit-icu-plural-arm({})", node.selector));
    }

    fn visit_icu_select(&mut self, _node: &IcuSelect) {
        self.calls.push(format!("enter-icu-select"));
    }

    fn exit_icu_select(&mut self, _node: &IcuSelect) {
        self.calls.push(format!("exit-icu-select"));
    }

    fn visit_icu_time(&mut self, _node: &IcuTime) {
        self.calls.push(format!("enter-icu-time"));
    }

    fn exit_icu_time(&mut self, _node: &IcuTime) {
        self.calls.push(format!("exit-icu-time"));
    }

    fn visit_icu_variable(&mut self, node: &IcuVariable) {
        self.calls.push(format!("enter-icu-variable({})", node.name));
    }

    fn exit_icu_variable(&mut self, node: &IcuVariable) {
        self.calls.push(format!("exit-icu-variable({})", node.name));
    }

    fn visit_inline_content(&mut self, _node: &InlineContent) {
        self.calls.push(format!("enter-inline-content"));
    }

    fn exit_inline_content(&mut self, _node: &InlineContent) {
        self.calls.push(format!("exit-inline-content"));
    }

    fn visit_link(&mut self, _node: &Link) {
        self.calls.push(format!("enter-link"));
    }

    fn exit_link(&mut self, _node: &Link) {
        self.calls.push(format!("exit-link"));
    }

    fn visit_link_destination(&mut self, _node: &TextOrPlaceholder) {
        self.calls.push(format!("enter-link-destination"));
    }

    fn exit_link_destination(&mut self, _node: &TextOrPlaceholder) {
        self.calls.push(format!("exit-link-destination"));
    }

    fn visit_paragraph(&mut self, _node: &Paragraph) {
        self.calls.push(format!("enter-paragraph"));
    }

    fn exit_paragraph(&mut self, _node: &Paragraph) {
        self.calls.push(format!("exit-paragraph"));
    }

    fn visit_strikethrough(&mut self, _node: &Strikethrough) {
        self.calls.push(format!("enter-strikethrough"));
    }

    fn exit_strikethrough(&mut self, _node: &Strikethrough) {
        self.calls.push(format!("exit-strikethrough"));
    }

    fn visit_strong(&mut self, _node: &Strong) {
        self.calls.push(format!("enter-strong"));
    }

    fn exit_strong(&mut self, _node: &Strong) {
        self.calls.push(format!("exit-strong"));
    }

    fn visit_text_or_placeholder(&mut self, _node: &TextOrPlaceholder) {
        self.calls.push(format!("enter-text-or-placeholder"));
    }

    fn exit_text_or_placeholder(&mut self, _node: &TextOrPlaceholder) {
        self.calls.push(format!("exit-text-or-placeholder"));
    }

    fn visit_thematic_break(&mut self) {
        self.calls.push(format!("enter-thematic-break"));
    }

    fn exit_thematic_break(&mut self) {
        self.calls.push(format!("exit-thematic-break"));
    }

    fn visit_hard_line_break(&mut self) {
        self.calls.push(format!("enter-hard-line-break"));
    }

    fn exit_hard_line_break(&mut self) {
        self.calls.push(format!("exit-hard-line-break"));
    }

    fn visit_icu_pound(&mut self) {
        self.calls.push(format!("enter-icu-pound"));
    }

    fn exit_icu_pound(&mut self) {
        self.calls.push(format!("exit-icu-pound"));
    }

    fn visit_text(&mut self, node: &String) {
        self.calls.push(format!("enter-text({})", node));
    }

    fn exit_text(&mut self, node: &String) {
        self.calls.push(format!("exit-text({})", node));
    }
}

fn text(value: &str) -> InlineContent {
    InlineContent::Text(value.to_string())
}

fn variable(name: &str) -> IcuVariable {
    IcuVariable::new(name.to_string())
}

fn arm(selector: &str, content: Vec<InlineContent>) -> IcuPluralArm {
    IcuPluralArm::new(selector.to_string(), content)
}

fn paragraph(content: Vec<InlineContent>) -> BlockNode {
    BlockNode::Paragraph(Paragraph::new(content))
}

fn calls_of(document: &Document) -> Vec<String> {
    let mut log = CallLog::new();
    visit_with_mut(&mut log, document);
    log.calls
}

fn calls_of_inline(content: InlineContent) -> Vec<String> {
    let mut log = CallLog::new();
    Traversal::traverse_inline_content(&mut log, &content);
    log.calls
}

fn count(calls: &[String], wanted: &str) -> usize {
    calls.iter().filter(|call| call.as_str() == wanted).count()
}

fn position(calls: &[String], wanted: &str) -> usize {
    calls.iter().position(|call| call.as_str() == wanted).unwrap()
}

fn is_enter(call: &str) -> bool {
    call.starts_with("enter-")
}

#[test]
fn paragraph_with_text_yields_the_ten_callbacks() {
    let document = Document::new(vec![paragraph(vec![text("Hello")])]);
    assert_eq!(
        calls_of(&document),
        vec![
            "enter-document",
            "enter-block-node",
            "enter-paragraph",
            "enter-inline-content",
            "enter-text(Hello)",
            "exit-text(Hello)",
            "exit-inline-content",
            "exit-paragraph",
            "exit-block-node",
            "exit-document",
        ]
    );
}

#[test]
fn plural_walks_its_variable_and_then_both_arms_in_order() {
    let plural = IcuPlural::new(
        variable("count"),
        vec![arm("one", vec![text("item")]), arm("other", vec![text("items")])],
    );
    let document = Document::new(vec![paragraph(vec![InlineContent::Icu(Icu::IcuPlural(
        plural,
    ))])]);
    assert_eq!(
        calls_of(&document),
        vec![
            "enter-document",
            "enter-block-node",
            "enter-paragraph",
            "enter-inline-content",
            "enter-icu",
            "enter-icu-plural",
            "enter-icu-variable(count)",
            "exit-icu-variable(count)",
            "enter-icu-plural-arm(one)",
            "enter-inline-content",
            "enter-text(item)",
            "exit-text(item)",
            "exit-inline-content",
            "exit-icu-plural-arm(one)",
            "enter-icu-plural-arm(other)",
            "enter-inline-content",
            "enter-text(items)",
            "exit-text(items)",
            "exit-inline-content",
            "exit-icu-plural-arm(other)",
            "exit-icu-plural",
            "exit-icu",
            "exit-inline-content",
            "exit-paragraph",
            "exit-block-node",
            "exit-document",
        ]
    );
}

#[test]
fn select_walks_its_variable_and_then_its_arms_in_order() {
    let select = IcuSelect::new(
        variable("gender"),
        vec![arm("female", vec![]), arm("male", vec![]), arm("other", vec![])],
    );
    let calls = calls_of_inline(InlineContent::Icu(Icu::IcuSelect(select)));
    assert_eq!(
        calls,
        vec![
            "enter-inline-content",
            "enter-icu",
            "enter-icu-select",
            "enter-icu-variable(gender)",
            "exit-icu-variable(gender)",
            "enter-icu-plural-arm(female)",
            "exit-icu-plural-arm(female)",
            "enter-icu-plural-arm(male)",
            "exit-icu-plural-arm(male)",
            "enter-icu-plural-arm(other)",
            "exit-icu-plural-arm(other)",
            "exit-icu-select",
            "exit-icu",
            "exit-inline-content",
        ]
    );
    let variable_left = position(&calls, "exit-icu-variable(gender)");
    assert!(variable_left < position(&calls, "enter-icu-plural-arm(female)"));
}

#[test]
fn plural_without_arms_walks_only_its_variable() {
    let plural = IcuPlural::new(variable("count"), vec![]);
    let mut log = CallLog::new();
    Traversal::traverse_icu_plural(&mut log, &plural);
    assert_eq!(
        log.calls,
        vec![
            "enter-icu-plural",
            "enter-icu-variable(count)",
            "exit-icu-variable(count)",
            "exit-icu-plural",
        ]
    );
}

#[test]
fn document_without_blocks_is_entered_and_left() {
    let document = Document::new(vec![]);
    assert_eq!(calls_of(&document), vec!["enter-document", "exit-document"]);
}

#[test]
fn literal_link_destination_calls_no_icu_hook() {
    let link = Link::new(
        vec![text("here")],
        TextOrPlaceholder::Text("https://example.com".to_string()),
    );
    let calls = calls_of_inline(InlineContent::Link(link));
    assert_eq!(
        calls,
        vec![
            "enter-inline-content",
            "enter-link",
            "enter-inline-content",
            "enter-text(here)",
            "exit-text(here)",
            "exit-inline-content",
            "enter-link-destination",
            "exit-link-destination",
            "exit-link",
            "exit-inline-content",
        ]
    );
    assert_eq!(count(&calls, "enter-icu"), 0);
    assert_eq!(count(&calls, "exit-icu"), 0);
}

#[test]
fn placeholder_link_destination_calls_the_icu_hooks_once() {
    let link = Link::new(
        vec![text("here")],
        TextOrPlaceholder::Placeholder(Icu::IcuVariable(variable("url"))),
    );
    let calls = calls_of_inline(InlineContent::Link(link));
    assert_eq!(
        calls,
        vec![
            "enter-inline-content",
            "enter-link",
            "enter-inline-content",
            "enter-text(here)",
            "exit-text(here)",
            "exit-inline-content",
            "enter-link-destination",
            "enter-icu",
            "enter-icu-variable(url)",
            "exit-icu-variable(url)",
            "exit-icu",
            "exit-link-destination",
            "exit-link",
            "exit-inline-content",
        ]
    );
    assert_eq!(count(&calls, "enter-icu"), 1);
    assert_eq!(count(&calls, "exit-icu"), 1);
}

#[test]
fn link_destination_hooks_alone() {
    let mut log = CallLog::new();
    Traversal::traverse_link_destination(&mut log, &TextOrPlaceholder::Text("x".to_string()));
    assert_eq!(log.calls, vec!["enter-link-destination", "exit-link-destination"]);
}

#[test]
fn leaf_blocks_are_entered_and_left() {
    let document = Document::new(vec![
        BlockNode::ThematicBreak,
        BlockNode::CodeBlock(CodeBlock::new(Some("rust".to_string()), "fn main() {}".to_string())),
    ]);
    assert_eq!(
        calls_of(&document),
        vec![
            "enter-document",
            "enter-block-node",
            "enter-thematic-break",
            "exit-thematic-break",
            "exit-block-node",
            "enter-block-node",
            "enter-code-block",
            "exit-code-block",
            "exit-block-node",
            "exit-document",
        ]
    );
}

#[test]
fn leaf_inlines_are_entered_and_left() {
    let document = Document::new(vec![BlockNode::InlineContent(vec![
        InlineContent::IcuPound,
        InlineContent::HardLineBreak,
        InlineContent::CodeSpan(CodeSpan::new("x + y".to_string())),
    ])]);
    assert_eq!(
        calls_of(&document),
        vec![
            "enter-document",
            "enter-block-node",
            "enter-inline-content",
            "enter-icu-pound",
            "exit-icu-pound",
            "exit-inline-content",
            "enter-inline-content",
            "enter-hard-line-break",
            "exit-hard-line-break",
            "exit-inline-content",
            "enter-inline-content",
            "enter-code-span",
            "exit-code-span",
            "exit-inline-content",
            "exit-block-node",
            "exit-document",
        ]
    );
}

#[test]
fn heading_walks_its_content() {
    let document =
        Document::new(vec![BlockNode::Heading(Heading::new(2, vec![text("Title")]))]);
    assert_eq!(
        calls_of(&document),
        vec![
            "enter-document",
            "enter-block-node",
            "enter-heading",
            "enter-inline-content",
            "enter-text(Title)",
            "exit-text(Title)",
            "exit-inline-content",
            "exit-heading",
            "exit-block-node",
            "exit-document",
        ]
    );
}

#[test]
fn inline_containers_walk_their_content_in_order() {
    let calls = calls_of_inline(InlineContent::Emphasis(Emphasis::new(vec![
        InlineContent::Strong(Strong::new(vec![text("a")])),
        InlineContent::Strikethrough(Strikethrough::new(vec![text("b")])),
        InlineContent::Hook(Hook::new(vec![text("c")])),
    ])));
    assert_eq!(
        calls,
        vec![
            "enter-inline-content",
            "enter-emphasis",
            "enter-inline-content",
            "enter-strong",
            "enter-inline-content",
            "enter-text(a)",
            "exit-text(a)",
            "exit-inline-content",
            "exit-strong",
            "exit-inline-content",
            "enter-inline-content",
            "enter-strikethrough",
            "enter-inline-content",
            "enter-text(b)",
            "exit-text(b)",
            "exit-inline-content",
            "exit-strikethrough",
            "exit-inline-content",
            "enter-inline-content",
            "enter-hook",
            "enter-inline-content",
            "enter-text(c)",
            "exit-text(c)",
            "exit-inline-content",
            "exit-hook",
            "exit-inline-content",
            "exit-emphasis",
            "exit-inline-content",
        ]
    );
}

#[test]
fn date_with_style_walks_variable_then_style() {
    let date = IcuDate::new(variable("when"), Some(IcuDateTimeStyle::new("short".to_string())));
    let mut log = CallLog::new();
    Traversal::traverse_icu(&mut log, &Icu::IcuDate(date));
    assert_eq!(
        log.calls,
        vec![
            "enter-icu",
            "enter-icu-date",
            "enter-icu-variable(when)",
            "exit-icu-variable(when)",
            "enter-icu-date-time-style",
            "exit-icu-date-time-style",
            "exit-icu-date",
            "exit-icu",
        ]
    );
}

#[test]
fn date_without_style_calls_no_style_hook() {
    let date = IcuDate::new(variable("when"), None);
    let mut log = CallLog::new();
    Traversal::traverse_icu_date(&mut log, &date);
    assert_eq!(
        log.calls,
        vec![
            "enter-icu-date",
            "enter-icu-variable(when)",
            "exit-icu-variable(when)",
            "exit-icu-date",
        ]
    );
}

#[test]
fn time_walks_variable_then_style() {
    let styled = IcuTime::new(variable("at"), Some(IcuDateTimeStyle::new("long".to_string())));
    let mut log = CallLog::new();
    Traversal::traverse_icu_time(&mut log, &styled);
    assert_eq!(
        log.calls,
        vec![
            "enter-icu-time",
            "enter-icu-variable(at)",
            "exit-icu-variable(at)",
            "enter-icu-date-time-style",
            "exit-icu-date-time-style",
            "exit-icu-time",
        ]
    );
    let plain = IcuTime::new(variable("at"), None);
    let mut log = CallLog::new();
    Traversal::traverse_icu_time(&mut log, &plain);
    assert_eq!(
        log.calls,
        vec![
            "enter-icu-time",
            "enter-icu-variable(at)",
            "exit-icu-variable(at)",
            "exit-icu-time",
        ]
    );
}

#[test]
fn number_walks_only_its_style() {
    let styled =
        IcuNumber::new(variable("n"), Some(IcuNumberStyle::new("percent".to_string())));
    let mut log = CallLog::new();
    Traversal::traverse_icu_number(&mut log, &styled);
    assert_eq!(
        log.calls,
        vec![
            "enter-icu-number",
            "enter-icu-number-style",
            "exit-icu-number-style",
            "exit-icu-number",
        ]
    );
    let plain = IcuNumber::new(variable("n"), None);
    let mut log = CallLog::new();
    Traversal::traverse_icu_number(&mut log, &plain);
    assert_eq!(log.calls, vec!["enter-icu-number", "exit-icu-number"]);
}

#[test]
fn text_or_placeholder_hooks_are_never_called() {
    let link = Link::new(vec![], TextOrPlaceholder::Placeholder(Icu::IcuVariable(variable("u"))));
    let calls = calls_of_inline(InlineContent::Link(link));
    assert_eq!(count(&calls, "enter-text-or-placeholder"), 0);
    assert_eq!(count(&calls, "exit-text-or-placeholder"), 0);
}

fn mixed_document() -> Document {
    let plural = IcuPlural::new(
        variable("count"),
        vec![
            arm("one", vec![InlineContent::IcuPound, text(" item")]),
            arm(
                "other",
                vec![
                    InlineContent::IcuPound,
                    InlineContent::Strong(Strong::new(vec![InlineContent::Icu(
                        Icu::IcuNumber(IcuNumber::new(variable("count"), None)),
                    )])),
                ],
            ),
        ],
    );
    let link = Link::new(
        vec![InlineContent::Emphasis(Emphasis::new(vec![text("docs")]))],
        TextOrPlaceholder::Placeholder(Icu::IcuSelect(IcuSelect::new(
            variable("site"),
            vec![arm("a", vec![text("x")]), arm("b", vec![])],
        ))),
    );
    Document::new(vec![
        BlockNode::Heading(Heading::new(1, vec![text("Cart")])),
        paragraph(vec![InlineContent::Icu(Icu::IcuPlural(plural)), InlineContent::HardLineBreak]),
        BlockNode::ThematicBreak,
        BlockNode::InlineContent(vec![InlineContent::Link(link)]),
        BlockNode::CodeBlock(CodeBlock::new(None, "x".to_string())),
    ])
}

#[test]
fn enters_and_exits_nest_in_a_mixed_document() {
    let calls = calls_of(&mixed_document());
    let mut open: Vec<String> = Vec::new();
    let mut enters = 0;
    let mut exits = 0;
    for call in &calls {
        if is_enter(call) {
            enters += 1;
            open.push(call["enter-".len()..].to_string());
        } else {
            exits += 1;
            assert!(exits <= enters);
            let top = open.pop().unwrap();
            assert_eq!(top, call["exit-".len()..]);
        }
    }
    assert_eq!(enters, exits);
    assert!(open.is_empty());
}

#[test]
fn trace_agrees_with_a_visitor_written_by_hand() {
    let document = mixed_document();
    let calls = calls_of(&document);
    let steps = trace(&document);
    assert_eq!(steps.len(), calls.len());
    for (step, call) in steps.iter().zip(calls.iter()) {
        assert_eq!(step.entering, is_enter(call));
    }
    assert_eq!(steps[0], Step { entering: true, kind: NodeKind::Document });
    assert_eq!(steps[1], Step { entering: true, kind: NodeKind::BlockNode });
    assert_eq!(steps[2], Step { entering: true, kind: NodeKind::Heading });
    assert_eq!(steps[steps.len() - 1], Step { entering: false, kind: NodeKind::Document });
}

#[test]
fn trace_of_paragraph_with_text() {
    let document = Document::new(vec![paragraph(vec![text("Hello")])]);
    let kinds: Vec<(bool, NodeKind)> =
        trace(&document).iter().map(|step| (step.entering, step.kind)).collect();
    assert_eq!(
        kinds,
        vec![
            (true, NodeKind::Document),
            (true, NodeKind::BlockNode),
            (true, NodeKind::Paragraph),
            (true, NodeKind::InlineContent),
            (true, NodeKind::Text),
            (false, NodeKind::Text),
            (false, NodeKind::InlineContent),
            (false, NodeKind::Paragraph),
            (false, NodeKind::BlockNode),
            (false, NodeKind::Document),
        ]
    );
}

#[test]
fn traverse_children_calls_the_function_once_per_node_in_order() {
    let blocks = vec![
        BlockNode::ThematicBreak,
        paragraph(vec![text("a")]),
        BlockNode::ThematicBreak,
    ];
    let mut log = CallLog::new();
    let mut seen = 0;
    Traversal::traverse_children(&mut log, &blocks, |visitor: &mut CallLog, block: &BlockNode| {
        seen += 1;
        Traversal::traverse_block_node(visitor, block)
    });
    assert_eq!(seen, 3);
    assert_eq!(
        log.calls,
        vec![
            "enter-block-node",
            "enter-thematic-break",
            "exit-thematic-break",
            "exit-block-node",
            "enter-block-node",
            "enter-paragraph",
            "enter-inline-content",
            "enter-text(a)",
            "exit-text(a)",
            "exit-inline-content",
            "exit-paragraph",
            "exit-block-node",
            "enter-block-node",
            "enter-thematic-break",
            "exit-thematic-break",
            "exit-block-node",
        ]
    );
}

#[test]
fn traverse_children_walks_arms_in_declared_order() {
    let arms = vec![arm("zero", vec![]), arm("one", vec![text("x")]), arm("other", vec![])];
    let mut log = CallLog::new();
    Traversal::traverse_children(&mut log, &arms, Traversal::traverse_icu_plural_arm::<CallLog>);
    assert_eq!(
        log.calls,
        vec![
            "enter-icu-plural-arm(zero)",
            "exit-icu-plural-arm(zero)",
            "enter-icu-plural-arm(one)",
            "enter-inline-content",
            "enter-text(x)",
            "exit-text(x)",
            "exit-inline-content",
            "exit-icu-plural-arm(one)",
            "enter-icu-plural-arm(other)",
            "exit-icu-plural-arm(other)",
        ]
    );
}

#[test]
fn traverse_inline_children_of_nothing_calls_nothing() {
    let mut log = CallLog::new();
    Traversal::traverse_inline_children(&mut log, &vec![]);
    assert!(log.calls.is_empty());
    Traversal::traverse_icu_plural_arms(&mut log, &vec![]);
    assert!(log.calls.is_empty());
}

#[test]
fn accessors_return_what_the_constructors_were_given() {
    let heading = Heading::new(3, vec![text("t")]);
    assert_eq!(heading.level(), 3);
    assert_eq!(heading.content().len(), 1);
    let block = CodeBlock::new(Some("rs".to_string()), "code".to_string());
    assert_eq!(block.language().as_deref(), Some("rs"));
    assert_eq!(block.content(), "code");
    let link = Link::new(vec![text("l")], TextOrPlaceholder::Text("to".to_string()));
    assert_eq!(link.label().len(), 1);
    assert!(matches!(link.destination(), TextOrPlaceholder::Text(to) if to == "to"));
    let plural = IcuPlural::new(variable("n"), vec![arm("one", vec![])]);
    assert_eq!(plural.variable().name(), "n");
    assert_eq!(plural.arms()[0].selector(), "one");
    assert!(plural.arms()[0].content().is_empty());
    let number = IcuNumber::new(variable("n"), Some(IcuNumberStyle::new("::x".to_string())));
    assert_eq!(number.variable().name(), "n");
    assert_eq!(number.style().as_ref().unwrap().text(), "::x");
    let date = IcuDate::new(variable("d"), None);
    assert!(date.style().is_none());
    let document = Document::new(vec![BlockNode::ThematicBreak]);
    assert_eq!(document.blocks().len(), 1);
}
