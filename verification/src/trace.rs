//! A listener that writes down which hooks were called, and the walk of a
//! document as such a record.

use crate::ast::{
    BlockNode, CodeBlock, CodeSpan, Document, Emphasis, Heading, Hook, Icu, IcuDate,
    IcuDateTimeStyle, IcuNumber, IcuNumberStyle, IcuPlural, IcuPluralArm, IcuSelect, IcuTime,
    IcuVariable, InlineContent, Link, Paragraph, Strikethrough, Strong, TextOrPlaceholder,
};
use crate::events::{document_events, Event, Node};
use crate::listener::{receives, Listener};
use crate::visitor::visit_with_mut;
use vstd::prelude::*;

verus! {

/// The kinds of node that have a hook pair.
#[derive(Clone, Copy, Debug, PartialEq, Eq, Structural)]
pub enum NodeKind {
    Document,
    BlockNode,
    Paragraph,
    Heading,
    CodeBlock,
    ThematicBreak,
    InlineContent,
    Text,
    Emphasis,
    Strong,
    Strikethrough,
    Hook,
    CodeSpan,
    HardLineBreak,
    Link,
    LinkDestination,
    TextOrPlaceholder,
    Icu,
    IcuVariable,
    IcuPlural,
    IcuSelect,
    IcuPluralArm,
    IcuDate,
    IcuTime,
    IcuNumber,
    IcuDateTimeStyle,
    IcuNumberStyle,
    IcuPound,
}

/// One hook call without its argument: entering or leaving, and which kind.
#[derive(Clone, Copy, Debug, PartialEq, Eq, Structural)]
pub struct Step {
    pub entering: bool,
    pub kind: NodeKind,
}

impl Node {
    /// The kind of hook that sees this node.
    pub open spec fn kind(self) -> NodeKind {
        match self {
            Node::Document(_) => NodeKind::Document,
            Node::BlockNode(_) => NodeKind::BlockNode,
            Node::Paragraph(_) => NodeKind::Paragraph,
            Node::Heading(_) => NodeKind::Heading,
            Node::CodeBlock(_) => NodeKind::CodeBlock,
            Node::ThematicBreak => NodeKind::ThematicBreak,
            Node::InlineContent(_) => NodeKind::InlineContent,
            Node::Text(_) => NodeKind::Text,
            Node::Emphasis(_) => NodeKind::Emphasis,
            Node::Strong(_) => NodeKind::Strong,
            Node::Strikethrough(_) => NodeKind::Strikethrough,
            Node::Hook(_) => NodeKind::Hook,
            Node::CodeSpan(_) => NodeKind::CodeSpan,
            Node::HardLineBreak => NodeKind::HardLineBreak,
            Node::Link(_) => NodeKind::Link,
            Node::LinkDestination(_) => NodeKind::LinkDestination,
            Node::TextOrPlaceholder(_) => NodeKind::TextOrPlaceholder,
            Node::Icu(_) => NodeKind::Icu,
            Node::IcuVariable(_) => NodeKind::IcuVariable,
            Node::IcuPlural(_) => NodeKind::IcuPlural,
            Node::IcuSelect(_) => NodeKind::IcuSelect,
            Node::IcuPluralArm(_) => NodeKind::IcuPluralArm,
            Node::IcuDate(_) => NodeKind::IcuDate,
            Node::IcuTime(_) => NodeKind::IcuTime,
            Node::IcuNumber(_) => NodeKind::IcuNumber,
            Node::IcuDateTimeStyle(_) => NodeKind::IcuDateTimeStyle,
            Node::IcuNumberStyle(_) => NodeKind::IcuNumberStyle,
            Node::IcuPound => NodeKind::IcuPound,
        }
    }
}

/// The step that an event leaves in a record.
pub open spec fn step_of(event: Event) -> Step {
    match event {
        Event::Enter(node) => Step { entering: true, kind: node.kind() },
        Event::Exit(node) => Step { entering: false, kind: node.kind() },
    }
}

/// The steps that a sequence of events leaves in a record, in order.
pub open spec fn steps_of(events: Seq<Event>) -> Seq<Step> {
    events.map_values(|event: Event| step_of(event))
}

/// A listener that appends one step to its record for every hook call.
#[derive(Debug)]
pub struct Trace {
    pub steps: Vec<Step>,
}

impl Trace {
    /// A record with nothing in it.
    pub fn new() -> (trace: Self)
        ensures
            trace.steps@ == Seq::<Step>::empty(),
    {
        Trace { steps: Vec::new() }
    }

    /// The steps recorded so far, oldest first.
    pub fn steps(&self) -> (steps: &Vec<Step>)
        ensures
            *steps == self.steps,
    {
        &self.steps
    }
}

impl Listener for Trace {
    open spec fn reacts(pre: Self, event: Event, post: Self) -> bool {
        post.steps@ == pre.steps@.push(step_of(event))
    }

    fn visit_block_node(&mut self, _node: &BlockNode) {
        self.steps.push(Step { entering: true, kind: NodeKind::BlockNode });
    }

    fn exit_block_node(&mut self, _node: &BlockNode) {
        self.steps.push(Step { entering: false, kind: NodeKind::BlockNode });
    }

    fn visit_code_block(&mut self, _node: &CodeBlock) {
        self.steps.push(Step { entering: true, kind: NodeKind::CodeBlock });
    }

    fn exit_code_block(&mut self, _node: &CodeBlock) {
        self.steps.push(Step { entering: false, kind: NodeKind::CodeBlock });
    }

    fn visit_code_span(&mut self, _node: &CodeSpan) {
        self.steps.push(Step { entering: true, kind: NodeKind::CodeSpan });
    }

    fn exit_code_span(&mut self, _node: &CodeSpan) {
        self.steps.push(Step { entering: false, kind: NodeKind::CodeSpan });
    }

    fn visit_document(&mut self, _node: &Document) {
        self.steps.push(Step { entering: true, kind: NodeKind::Document });
    }

    fn exit_document(&mut self, _node: &Document) {
        self.steps.push(Step { entering: false, kind: NodeKind::Document });
    }

    fn visit_emphasis(&mut self, _node: &Emphasis) {
        self.steps.push(Step { entering: true, kind: NodeKind::Emphasis });
    }

    fn exit_emphasis(&mut self, _node: &Emphasis) {
        self.steps.push(Step { entering: false, kind: NodeKind::Emphasis });
    }

    fn visit_heading(&mut self, _node: &Heading) {
        self.steps.push(Step { entering: true, kind: NodeKind::Heading });
    }

    fn exit_heading(&mut self, _node: &Heading) {
        self.steps.push(Step { entering: false, kind: NodeKind::Heading });
    }

    fn visit_hook(&mut self, _node: &Hook) {
        self.steps.push(Step { entering: true, kind: NodeKind::Hook });
    }

    fn exit_hook(&mut self, _node: &Hook) {
        self.steps.push(Step { entering: false, kind: NodeKind::Hook });
    }

    fn visit_icu(&mut self, _node: &Icu) {
        self.steps.push(Step { entering: true, kind: NodeKind::Icu });
    }

    fn exit_icu(&mut self, _node: &Icu) {
        self.steps.push(Step { entering: false, kind: NodeKind::Icu });
    }

    fn visit_icu_date(&mut self, _node: &IcuDate) {
        self.steps.push(Step { entering: true, kind: NodeKind::IcuDate });
    }

    fn exit_icu_date(&mut self, _node: &IcuDate) {
        self.steps.push(Step { entering: false, kind: NodeKind::IcuDate });
    }

    fn visit_icu_date_time_style(&mut self, _node: &IcuDateTimeStyle) {
        self.steps.push(Step { entering: true, kind: NodeKind::IcuDateTimeStyle });
    }

    fn exit_icu_date_time_style(&mut self, _node: &IcuDateTimeStyle) {
        self.steps.push(Step { entering: false, kind: NodeKind::IcuDateTimeStyle });
    }

    fn visit_icu_number(&mut self, _node: &IcuNumber) {
        self.steps.push(Step { entering: true, kind: NodeKind::IcuNumber });
    }

    fn exit_icu_number(&mut self, _node: &IcuNumber) {
        self.steps.push(Step { entering: false, kind: NodeKind::IcuNumber });
    }

    fn visit_icu_number_style(&mut self, _node: &IcuNumberStyle) {
        self.steps.push(Step { entering: true, kind: NodeKind::IcuNumberStyle });
    }

    fn exit_icu_number_style(&mut self, _node: &IcuNumberStyle) {
        self.steps.push(Step { entering: false, kind: NodeKind::IcuNumberStyle });
    }

    fn visit_icu_plural(&mut self, _node: &IcuPlural) {
        self.steps.push(Step { entering: true, kind: NodeKind::IcuPlural });
    }

    fn exit_icu_plural(&mut self, _node: &IcuPlural) {
        self.steps.push(Step { entering: false, kind: NodeKind::IcuPlural });
    }

    fn visit_icu_plural_arm(&mut self, _node: &IcuPluralArm) {
        self.steps.push(Step { entering: true, kind: NodeKind::IcuPluralArm });
    }

    fn exit_icu_plural_arm(&mut self, _node: &IcuPluralArm) {
        self.steps.push(Step { entering: false, kind: NodeKind::IcuPluralArm });
    }

    fn visit_icu_select(&mut self, _node: &IcuSelect) {
        self.steps.push(Step { entering: true, kind: NodeKind::IcuSelect });
    }

    fn exit_icu_select(&mut self, _node: &IcuSelect) {
        self.steps.push(Step { entering: false, kind: NodeKind::IcuSelect });
    }

    fn visit_icu_time(&mut self, _node: &IcuTime) {
        self.steps.push(Step { entering: true, kind: NodeKind::IcuTime });
    }

    fn exit_icu_time(&mut self, _node: &IcuTime) {
        self.steps.push(Step { entering: false, kind: NodeKind::IcuTime });
    }

    fn visit_icu_variable(&mut self, _node: &IcuVariable) {
        self.steps.push(Step { entering: true, kind: NodeKind::IcuVariable });
    }

    fn exit_icu_variable(&mut self, _node: &IcuVariable) {
        self.steps.push(Step { entering: false, kind: NodeKind::IcuVariable });
    }

    fn visit_inline_content(&mut self, _node: &InlineContent) {
        self.steps.push(Step { entering: true, kind: NodeKind::InlineContent });
    }

    fn exit_inline_content(&mut self, _node: &InlineContent) {
        self.steps.push(Step { entering: false, kind: NodeKind::InlineContent });
    }

    fn visit_link(&mut self, _node: &Link) {
        self.steps.push(Step { entering: true, kind: NodeKind::Link });
    }

    fn exit_link(&mut self, _node: &Link) {
        self.steps.push(Step { entering: false, kind: NodeKind::Link });
    }

    fn visit_link_destination(&mut self, _node: &TextOrPlaceholder) {
        self.steps.push(Step { entering: true, kind: NodeKind::LinkDestination });
    }

    fn exit_link_destination(&mut self, _node: &TextOrPlaceholder) {
        self.steps.push(Step { entering: false, kind: NodeKind::LinkDestination });
    }

    fn visit_paragraph(&mut self, _node: &Paragraph) {
        self.steps.push(Step { entering: true, kind: NodeKind::Paragraph });
    }

    fn exit_paragraph(&mut self, _node: &Paragraph) {
        self.steps.push(Step { entering: false, kind: NodeKind::Paragraph });
    }

    fn visit_strikethrough(&mut self, _node: &Strikethrough) {
        self.steps.push(Step { entering: true, kind: NodeKind::Strikethrough });
    }

    fn exit_strikethrough(&mut self, _node: &Strikethrough) {
        self.steps.push(Step { entering: false, kind: NodeKind::Strikethrough });
    }

    fn visit_strong(&mut self, _node: &Strong) {
        self.steps.push(Step { entering: true, kind: NodeKind::Strong });
    }

    fn exit_strong(&mut self, _node: &Strong) {
        self.steps.push(Step { entering: false, kind: NodeKind::Strong });
    }

    fn visit_text_or_placeholder(&mut self, _node: &TextOrPlaceholder) {
        self.steps.push(Step { entering: true, kind: NodeKind::TextOrPlaceholder });
    }

    fn exit_text_or_placeholder(&mut self, _node: &TextOrPlaceholder) {
        self.steps.push(Step { entering: false, kind: NodeKind::TextOrPlaceholder });
    }

    fn visit_thematic_break(&mut self) {
        self.steps.push(Step { entering: true, kind: NodeKind::ThematicBreak });
    }

    fn exit_thematic_break(&mut self) {
        self.steps.push(Step { entering: false, kind: NodeKind::ThematicBreak });
    }

    fn visit_hard_line_break(&mut self) {
        self.steps.push(Step { entering: true, kind: NodeKind::HardLineBreak });
    }

    fn exit_hard_line_break(&mut self) {
        self.steps.push(Step { entering: false, kind: NodeKind::HardLineBreak });
    }

    fn visit_icu_pound(&mut self) {
        self.steps.push(Step { entering: true, kind: NodeKind::IcuPound });
    }

    fn exit_icu_pound(&mut self) {
        self.steps.push(Step { entering: false, kind: NodeKind::IcuPound });
    }

    fn visit_text(&mut self, _node: &String) {
        self.steps.push(Step { entering: true, kind: NodeKind::Text });
    }

    fn exit_text(&mut self, _node: &String) {
        self.steps.push(Step { entering: false, kind: NodeKind::Text });
    }
}

/// A record that has received `events` has grown by their steps, in order.
pub proof fn trace_grows_by_steps(pre: Trace, events: Seq<Event>, post: Trace)
    requires
        receives(pre, events, post),
    ensures
        post.steps@ == pre.steps@ + steps_of(events),
    decreases events.len(),
{
    if events.len() == 0 {
        assert(pre.steps@ + steps_of(events) =~= pre.steps@);
    } else {
        let mid = choose|mid: Trace|
            receives(pre, events.drop_last(), mid) && Trace::reacts(mid, events.last(), post);
        trace_grows_by_steps(pre, events.drop_last(), mid);
        assert(post.steps@ =~= pre.steps@ + steps_of(events));
    }
}

/// Walks `document` and returns the hook calls of the walk, in order.
pub fn trace(document: &Document) -> (steps: Vec<Step>)
    ensures
        steps@ == steps_of(document_events(*document)),
{
    let mut record = Trace::new();
    let ghost blank = record;
    visit_with_mut(&mut record, document);
    proof {
        trace_grows_by_steps(blank, document_events(*document), record);
        assert(blank.steps@ + steps_of(document_events(*document)) =~= steps_of(
            document_events(*document),
        ));
    }
    record.steps
}

} // verus!
