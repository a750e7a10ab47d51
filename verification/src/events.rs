//! The callback sequence of a walk, as a mathematical value.
//!
//! A walk of a tree is modelled by the sequence of [`Event`]s it hands to a
//! visitor. The functions here give that sequence for every node kind; the
//! traversal is proved to deliver exactly these events, in this order.

use crate::ast::{
    BlockNode, CodeBlock, CodeSpan, Document, Emphasis, Heading, Hook, Icu, IcuDate,
    IcuDateTimeStyle, IcuNumber, IcuNumberStyle, IcuPlural, IcuPluralArm, IcuSelect, IcuTime,
    IcuVariable, InlineContent, Link, Paragraph, Strikethrough, Strong, TextOrPlaceholder,
};
use vstd::prelude::*;

verus! {

/// A node as a hook sees it: the kind of hook together with its argument.
pub enum Node {
    Document(Document),
    BlockNode(BlockNode),
    Paragraph(Paragraph),
    Heading(Heading),
    CodeBlock(CodeBlock),
    ThematicBreak,
    InlineContent(InlineContent),
    Text(String),
    Emphasis(Emphasis),
    Strong(Strong),
    Strikethrough(Strikethrough),
    Hook(Hook),
    CodeSpan(CodeSpan),
    HardLineBreak,
    Link(Link),
    LinkDestination(TextOrPlaceholder),
    TextOrPlaceholder(TextOrPlaceholder),
    Icu(Icu),
    IcuVariable(IcuVariable),
    IcuPlural(IcuPlural),
    IcuSelect(IcuSelect),
    IcuPluralArm(IcuPluralArm),
    IcuDate(IcuDate),
    IcuTime(IcuTime),
    IcuNumber(IcuNumber),
    IcuDateTimeStyle(IcuDateTimeStyle),
    IcuNumberStyle(IcuNumberStyle),
    IcuPound,
}

/// One hook invocation: entering a node, or leaving it.
pub enum Event {
    Enter(Node),
    Exit(Node),
}

/// The events of a node with children: its enter, then `inner`, then its exit.
pub open spec fn bracket(node: Node, inner: Seq<Event>) -> Seq<Event> {
    seq![Event::Enter(node)] + inner + seq![Event::Exit(node)]
}

/// The events of a node without children: its enter, at once followed by its exit.
pub open spec fn leaf(node: Node) -> Seq<Event> {
    seq![Event::Enter(node), Event::Exit(node)]
}

pub open spec fn document_events(document: Document) -> Seq<Event> {
    bracket(Node::Document(document), blocks_events(document.blocks@))
}

/// The events of a run of blocks: those of each block, in sequence order.
pub open spec fn blocks_events(blocks: Seq<BlockNode>) -> Seq<Event>
    decreases blocks, 3int,
{
    if blocks.len() == 0 {
        Seq::empty()
    } else {
        blocks_events(blocks.drop_last()) + block_events(blocks.last())
    }
}

pub open spec fn block_events(block: BlockNode) -> Seq<Event>
    decreases block, 2int,
{
    bracket(Node::BlockNode(block), block_inner_events(block))
}

/// What lies between the enter and the exit of the generic block hook.
pub open spec fn block_inner_events(block: BlockNode) -> Seq<Event>
    decreases block, 1int,
{
    match block {
        BlockNode::Paragraph(paragraph) => paragraph_events(paragraph),
        BlockNode::Heading(heading) => heading_events(heading),
        BlockNode::CodeBlock(code_block) => code_block_events(code_block),
        BlockNode::ThematicBreak => leaf(Node::ThematicBreak),
        BlockNode::InlineContent(content) => inlines_events(content@),
    }
}

pub open spec fn paragraph_events(paragraph: Paragraph) -> Seq<Event>
    decreases paragraph, 0int,
{
    bracket(Node::Paragraph(paragraph), inlines_events(paragraph.content@))
}

pub open spec fn heading_events(heading: Heading) -> Seq<Event>
    decreases heading, 0int,
{
    bracket(Node::Heading(heading), inlines_events(heading.content@))
}

pub open spec fn code_block_events(code_block: CodeBlock) -> Seq<Event> {
    leaf(Node::CodeBlock(code_block))
}

/// The events of a run of inline nodes: those of each node, in sequence order.
pub open spec fn inlines_events(content: Seq<InlineContent>) -> Seq<Event>
    decreases content, 3int,
{
    if content.len() == 0 {
        Seq::empty()
    } else {
        inlines_events(content.drop_last()) + inline_events(content.last())
    }
}

pub open spec fn inline_events(content: InlineContent) -> Seq<Event>
    decreases content, 2int,
{
    bracket(Node::InlineContent(content), inline_inner_events(content))
}

/// What lies between the enter and the exit of the generic inline hook.
pub open spec fn inline_inner_events(content: InlineContent) -> Seq<Event>
    decreases content, 1int,
{
    match content {
        InlineContent::Text(text) => text_events(text),
        InlineContent::Emphasis(emphasis) => emphasis_events(emphasis),
        InlineContent::Strong(strong) => strong_events(strong),
        InlineContent::Link(link) => link_events(link),
        InlineContent::CodeSpan(code_span) => code_span_events(code_span),
        InlineContent::Hook(hook) => hook_events(hook),
        InlineContent::Strikethrough(strikethrough) => strikethrough_events(strikethrough),
        InlineContent::Icu(icu) => icu_events(icu),
        InlineContent::IcuPound => leaf(Node::IcuPound),
        InlineContent::HardLineBreak => leaf(Node::HardLineBreak),
    }
}

pub open spec fn text_events(text: String) -> Seq<Event> {
    leaf(Node::Text(text))
}

pub open spec fn code_span_events(code_span: CodeSpan) -> Seq<Event> {
    leaf(Node::CodeSpan(code_span))
}

pub open spec fn emphasis_events(emphasis: Emphasis) -> Seq<Event>
    decreases emphasis, 0int,
{
    bracket(Node::Emphasis(emphasis), inlines_events(emphasis.content@))
}

pub open spec fn strong_events(strong: Strong) -> Seq<Event>
    decreases strong, 0int,
{
    bracket(Node::Strong(strong), inlines_events(strong.content@))
}

pub open spec fn strikethrough_events(strikethrough: Strikethrough) -> Seq<Event>
    decreases strikethrough, 0int,
{
    bracket(Node::Strikethrough(strikethrough), inlines_events(strikethrough.content@))
}

pub open spec fn hook_events(hook: Hook) -> Seq<Event>
    decreases hook, 0int,
{
    bracket(Node::Hook(hook), inlines_events(hook.content@))
}

/// A link: its label first, then its destination.
pub open spec fn link_events(link: Link) -> Seq<Event>
    decreases link, 2int,
{
    bracket(
        Node::Link(link),
        inlines_events(link.label@) + link_destination_events(link.destination),
    )
}

/// A destination is always entered and left; only a placeholder is walked into.
pub open spec fn link_destination_events(destination: TextOrPlaceholder) -> Seq<Event>
    decreases destination, 1int,
{
    bracket(Node::LinkDestination(destination), link_destination_inner_events(destination))
}

/// What lies between the enter and the exit of a destination: nothing for a
/// literal string, the walk of the expression for a placeholder.
pub open spec fn link_destination_inner_events(destination: TextOrPlaceholder) -> Seq<Event>
    decreases destination, 0int,
{
    match destination {
        TextOrPlaceholder::Text(_) => Seq::empty(),
        TextOrPlaceholder::Placeholder(icu) => icu_events(icu),
    }
}

pub open spec fn icu_events(icu: Icu) -> Seq<Event>
    decreases icu, 2int,
{
    bracket(Node::Icu(icu), icu_inner_events(icu))
}

/// What lies between the enter and the exit of the generic ICU hook: the
/// events of the one kind that is present.
pub open spec fn icu_inner_events(icu: Icu) -> Seq<Event>
    decreases icu, 1int,
{
    match icu {
        Icu::IcuVariable(variable) => icu_variable_events(variable),
        Icu::IcuPlural(plural) => icu_plural_events(plural),
        Icu::IcuSelect(select) => icu_select_events(select),
        Icu::IcuDate(date) => icu_date_events(date),
        Icu::IcuTime(time) => icu_time_events(time),
        Icu::IcuNumber(number) => icu_number_events(number),
    }
}

pub open spec fn icu_variable_events(variable: IcuVariable) -> Seq<Event> {
    leaf(Node::IcuVariable(variable))
}

/// A plural: its variable first, then its arms in declared order.
pub open spec fn icu_plural_events(plural: IcuPlural) -> Seq<Event>
    decreases plural, 0int,
{
    bracket(
        Node::IcuPlural(plural),
        icu_variable_events(plural.variable) + arms_events(plural.arms@),
    )
}

/// A select: its variable first, then its arms in declared order.
pub open spec fn icu_select_events(select: IcuSelect) -> Seq<Event>
    decreases select, 0int,
{
    bracket(
        Node::IcuSelect(select),
        icu_variable_events(select.variable) + arms_events(select.arms@),
    )
}

/// The events of a run of arms: those of each arm, in declared order.
pub open spec fn arms_events(arms: Seq<IcuPluralArm>) -> Seq<Event>
    decreases arms, 1int,
{
    if arms.len() == 0 {
        Seq::empty()
    } else {
        arms_events(arms.drop_last()) + icu_plural_arm_events(arms.last())
    }
}

pub open spec fn icu_plural_arm_events(arm: IcuPluralArm) -> Seq<Event>
    decreases arm, 0int,
{
    bracket(Node::IcuPluralArm(arm), inlines_events(arm.content@))
}

/// The events of an optional date or time style: none where it is absent.
pub open spec fn date_time_style_events(style: Option<IcuDateTimeStyle>) -> Seq<Event> {
    match style {
        Some(style) => icu_date_time_style_events(style),
        None => Seq::empty(),
    }
}

/// The events of an optional number style: none where it is absent.
pub open spec fn number_style_events(style: Option<IcuNumberStyle>) -> Seq<Event> {
    match style {
        Some(style) => icu_number_style_events(style),
        None => Seq::empty(),
    }
}

/// A date: its variable first, then its style where it has one.
pub open spec fn icu_date_events(date: IcuDate) -> Seq<Event> {
    bracket(
        Node::IcuDate(date),
        icu_variable_events(date.variable) + date_time_style_events(date.style),
    )
}

/// A time: its variable first, then its style where it has one.
pub open spec fn icu_time_events(time: IcuTime) -> Seq<Event> {
    bracket(
        Node::IcuTime(time),
        icu_variable_events(time.variable) + date_time_style_events(time.style),
    )
}

/// A number: its style where it has one, and nothing else.
pub open spec fn icu_number_events(number: IcuNumber) -> Seq<Event> {
    bracket(Node::IcuNumber(number), number_style_events(number.style))
}

pub open spec fn icu_date_time_style_events(style: IcuDateTimeStyle) -> Seq<Event> {
    leaf(Node::IcuDateTimeStyle(style))
}

pub open spec fn icu_number_style_events(style: IcuNumberStyle) -> Seq<Event> {
    leaf(Node::IcuNumberStyle(style))
}

/// A node kind with a walk of its own: the events that walking one such node
/// delivers.
pub trait Walk: Sized {
    spec fn events(self) -> Seq<Event>;
}

impl Walk for BlockNode {
    open spec fn events(self) -> Seq<Event> {
        block_events(self)
    }
}

impl Walk for IcuPluralArm {
    open spec fn events(self) -> Seq<Event> {
        icu_plural_arm_events(self)
    }
}

/// The events of a run of nodes of one kind: those of each node, in sequence order.
pub open spec fn children_events<N: Walk>(nodes: Seq<N>) -> Seq<Event>
    decreases nodes.len(),
{
    if nodes.len() == 0 {
        Seq::empty()
    } else {
        children_events(nodes.drop_last()) + nodes.last().events()
    }
}

/// A run of blocks walked as children is the run of blocks.
pub proof fn children_events_of_blocks(blocks: Seq<BlockNode>)
    ensures
        children_events(blocks) == blocks_events(blocks),
    decreases blocks.len(),
{
    if blocks.len() > 0 {
        children_events_of_blocks(blocks.drop_last());
    }
}

/// A run of arms walked as children is the run of arms.
pub proof fn children_events_of_arms(arms: Seq<IcuPluralArm>)
    ensures
        children_events(arms) == arms_events(arms),
    decreases arms.len(),
{
    if arms.len() > 0 {
        children_events_of_arms(arms.drop_last());
    }
}

} // verus!
