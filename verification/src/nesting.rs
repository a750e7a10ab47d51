//! Enter and exit events of a walk are balanced and properly nested.

use crate::ast::{
    BlockNode, CodeBlock, CodeSpan, Document, Emphasis, Heading, Hook, Icu, IcuDate,
    IcuDateTimeStyle, IcuNumber, IcuNumberStyle, IcuPlural, IcuPluralArm, IcuSelect, IcuTime,
    IcuVariable, InlineContent, Link, Paragraph, Strikethrough, Strong, TextOrPlaceholder,
};
use crate::events::{
    arms_events, block_events, block_inner_events, blocks_events, bracket, code_block_events,
    code_span_events, date_time_style_events, document_events, emphasis_events, heading_events,
    hook_events, icu_date_events, icu_date_time_style_events, icu_events, icu_inner_events,
    icu_number_events, icu_number_style_events, icu_plural_arm_events, icu_plural_events,
    icu_select_events, icu_time_events, icu_variable_events, inline_events, inline_inner_events,
    inlines_events, leaf, link_destination_events, link_destination_inner_events, link_events,
    number_style_events, paragraph_events, strikethrough_events, strong_events, text_events,
    Event, Node,
};
use vstd::prelude::*;

verus! {

/// How many of `events` are enters.
pub open spec fn enters(events: Seq<Event>) -> nat
    decreases events.len(),
{
    if events.len() == 0 {
        0
    } else {
        enters(events.drop_last()) + if events.last() is Enter {
            1nat
        } else {
            0nat
        }
    }
}

/// How many of `events` are exits.
pub open spec fn exits(events: Seq<Event>) -> nat
    decreases events.len(),
{
    if events.len() == 0 {
        0
    } else {
        exits(events.drop_last()) + if events.last() is Exit {
            1nat
        } else {
            0nat
        }
    }
}

/// How many nodes are open after `events`: the enters that no exit has answered yet.
pub open spec fn depth(events: Seq<Event>) -> int {
    enters(events) - exits(events)
}

/// Whether `events` nest: as many exits as enters in all, and never more
/// exits than enters after any number of events.
pub open spec fn nested(events: Seq<Event>) -> bool {
    &&& exits(events) == enters(events)
    &&& forall|k: int|
        0 <= k <= events.len() ==> exits(#[trigger] events.take(k)) <= enters(events.take(k))
}

/// The enters and the exits of a concatenation are those of its parts.
pub proof fn counts_of_concat(first: Seq<Event>, second: Seq<Event>)
    ensures
        enters(first + second) == enters(first) + enters(second),
        exits(first + second) == exits(first) + exits(second),
    decreases second.len(),
{
    if second.len() == 0 {
        assert(first + second =~= first);
    } else {
        counts_of_concat(first, second.drop_last());
        assert((first + second).drop_last() =~= first + second.drop_last());
        assert((first + second).last() == second.last());
    }
}

/// The counts of a single event.
pub proof fn counts_of_one(event: Event)
    ensures
        enters(seq![event]) == if event is Enter { 1nat } else { 0nat },
        exits(seq![event]) == if event is Exit { 1nat } else { 0nat },
{
    let one = seq![event];
    assert(one.drop_last() =~= Seq::<Event>::empty());
    assert(one.last() == event);
    assert(enters(one.drop_last()) == 0);
    assert(exits(one.drop_last()) == 0);
}

/// The nodes that are open after `events`, innermost last, where `open` were
/// open before them: an enter opens its node, an exit closes the innermost
/// open node. There is no answer where an exit meets another node than the
/// innermost open one, or none at all.
pub open spec fn unwind(open: Seq<Node>, events: Seq<Event>) -> Option<Seq<Node>>
    decreases events.len(),
{
    if events.len() == 0 {
        Some(open)
    } else {
        match unwind(open, events.drop_last()) {
            None => None,
            Some(still) => match events.last() {
                Event::Enter(node) => Some(still.push(node)),
                Event::Exit(node) => if still.len() > 0 && still.last() == node {
                    Some(still.drop_last())
                } else {
                    None
                },
            },
        }
    }
}

/// Whether `events` are matched: every exit closes the node that was entered
/// last and is still open, and in the end exactly the nodes are open that
/// were open at the start. A stack that mirrors the events is never popped
/// when empty or on the wrong node, and ends as it began.
pub open spec fn matched(events: Seq<Event>) -> bool {
    forall|open: Seq<Node>| #[trigger] unwind(open, events) == Some(open)
}

/// Unwinding a concatenation is unwinding its parts in turn.
pub proof fn unwind_concat(open: Seq<Node>, first: Seq<Event>, second: Seq<Event>)
    ensures
        unwind(open, first + second) == match unwind(open, first) {
            Some(still) => unwind(still, second),
            None => None,
        },
    decreases second.len(),
{
    if second.len() == 0 {
        assert(first + second =~= first);
    } else {
        unwind_concat(open, first, second.drop_last());
        assert((first + second).drop_last() =~= first + second.drop_last());
        assert((first + second).last() == second.last());
    }
}

/// Unwinding a single event.
pub proof fn unwind_one(open: Seq<Node>, event: Event)
    ensures
        unwind(open, seq![event]) == match event {
            Event::Enter(node) => Some(open.push(node)),
            Event::Exit(node) => if open.len() > 0 && open.last() == node {
                Some(open.drop_last())
            } else {
                None
            },
        },
{
    let one = seq![event];
    assert(one.drop_last() =~= Seq::<Event>::empty());
    assert(one.last() == event);
    assert(unwind(open, one.drop_last()) == Some(open));
}

/// Nothing at all is matched.
pub proof fn matched_empty()
    ensures
        matched(Seq::<Event>::empty()),
{
}

/// Two matched sequences, one after the other, are matched.
pub proof fn matched_concat(first: Seq<Event>, second: Seq<Event>)
    requires
        matched(first),
        matched(second),
    ensures
        matched(first + second),
{
    assert forall|open: Seq<Node>| #[trigger] unwind(open, first + second) == Some(open) by {
        unwind_concat(open, first, second);
        assert(unwind(open, first) == Some(open));
        assert(unwind(open, second) == Some(open));
    }
}

/// A matched sequence between the enter and the exit of one node is matched.
pub proof fn matched_bracket(node: Node, inner: Seq<Event>)
    requires
        matched(inner),
    ensures
        matched(bracket(node, inner)),
{
    let enter = seq![Event::Enter(node)];
    let exit = seq![Event::Exit(node)];
    assert forall|open: Seq<Node>| #[trigger] unwind(open, bracket(node, inner)) == Some(open) by {
        let inside = open.push(node);
        unwind_one(open, Event::Enter(node));
        unwind_concat(open, enter, inner);
        assert(unwind(inside, inner) == Some(inside));
        unwind_concat(open, enter + inner, exit);
        unwind_one(inside, Event::Exit(node));
        assert(inside.drop_last() =~= open);
    }
}

/// The enter and the exit of a node without children are matched.
pub proof fn matched_leaf(node: Node)
    ensures
        matched(leaf(node)),
{
    matched_empty();
    matched_bracket(node, Seq::empty());
    assert(bracket(node, Seq::empty()) =~= leaf(node));
}

/// Unwinding that succeeds leaves as many more nodes open as there were more
/// enters than exits.
pub proof fn unwind_counts(open: Seq<Node>, events: Seq<Event>)
    requires
        unwind(open, events) is Some,
    ensures
        unwind(open, events)->Some_0.len() == open.len() + enters(events) - exits(events),
    decreases events.len(),
{
    if events.len() > 0 {
        unwind_counts(open, events.drop_last());
    }
}

/// Unwinding that succeeds on the whole succeeds on every prefix.
pub proof fn unwind_of_prefix(open: Seq<Node>, events: Seq<Event>, k: int)
    requires
        unwind(open, events) is Some,
        0 <= k <= events.len(),
    ensures
        unwind(open, events.take(k)) is Some,
    decreases events.len(),
{
    if k == events.len() {
        assert(events.take(k) =~= events);
    } else {
        unwind_of_prefix(open, events.drop_last(), k);
        assert(events.drop_last().take(k) =~= events.take(k));
    }
}

/// Matched events nest: as many exits as enters, and never more exits than
/// enters so far.
pub proof fn matched_is_nested(events: Seq<Event>)
    requires
        matched(events),
    ensures
        nested(events),
{
    let none = Seq::<Node>::empty();
    assert(unwind(none, events) == Some(none));
    unwind_counts(none, events);
    assert forall|k: int| 0 <= k <= events.len() implies exits(#[trigger] events.take(k))
        <= enters(events.take(k)) by {
        unwind_of_prefix(none, events, k);
        unwind_counts(none, events.take(k));
    }
}

/// The law of nesting: in the walk of any document there are as many exits as
/// enters, and after any number of its events no more exits than enters.
pub proof fn nested_document(document: Document)
    ensures
        nested(document_events(document)),
{
    matched_document(document);
    matched_is_nested(document_events(document));
}

/// The law of matching: in the walk of any document every exit closes the
/// node entered last and still open, and no node is left open at the end.
pub proof fn matched_document(document: Document)
    ensures
        matched(document_events(document)),
{
    matched_blocks(document.blocks@);
    matched_bracket(Node::Document(document), blocks_events(document.blocks@));
}

/// The walk of a run of blocks is matched.
pub proof fn matched_blocks(run: Seq<BlockNode>)
    ensures
        matched(blocks_events(run)),
    decreases run, 3int,
{
    if run.len() == 0 {
        matched_empty();
    } else {
        matched_blocks(run.drop_last());
        matched_block(run.last());
        matched_concat(blocks_events(run.drop_last()), block_events(run.last()));
    }
}

pub proof fn matched_block(block: BlockNode)
    ensures
        matched(block_events(block)),
    decreases block, 2int,
{
    matched_block_inner(block);
    matched_bracket(Node::BlockNode(block), block_inner_events(block));
}

pub proof fn matched_block_inner(block: BlockNode)
    ensures
        matched(block_inner_events(block)),
    decreases block, 1int,
{
    match block {
        BlockNode::Paragraph(paragraph) => matched_paragraph(paragraph),
        BlockNode::Heading(heading) => matched_heading(heading),
        BlockNode::CodeBlock(code_block) => matched_code_block(code_block),
        BlockNode::ThematicBreak => matched_leaf(Node::ThematicBreak),
        BlockNode::InlineContent(content) => matched_inlines(content@),
    }
}

pub proof fn matched_paragraph(node: Paragraph)
    ensures
        matched(paragraph_events(node)),
    decreases node, 0int,
{
    matched_inlines(node.content@);
    matched_bracket(Node::Paragraph(node), inlines_events(node.content@));
}

pub proof fn matched_heading(node: Heading)
    ensures
        matched(heading_events(node)),
    decreases node, 0int,
{
    matched_inlines(node.content@);
    matched_bracket(Node::Heading(node), inlines_events(node.content@));
}

pub proof fn matched_code_block(node: CodeBlock)
    ensures
        matched(code_block_events(node)),
{
    matched_leaf(Node::CodeBlock(node));
}

/// The walk of a run of inline nodes is matched.
pub proof fn matched_inlines(run: Seq<InlineContent>)
    ensures
        matched(inlines_events(run)),
    decreases run, 3int,
{
    if run.len() == 0 {
        matched_empty();
    } else {
        matched_inlines(run.drop_last());
        matched_inline(run.last());
        matched_concat(inlines_events(run.drop_last()), inline_events(run.last()));
    }
}

pub proof fn matched_inline(content: InlineContent)
    ensures
        matched(inline_events(content)),
    decreases content, 2int,
{
    matched_inline_inner(content);
    matched_bracket(Node::InlineContent(content), inline_inner_events(content));
}

pub proof fn matched_inline_inner(content: InlineContent)
    ensures
        matched(inline_inner_events(content)),
    decreases content, 1int,
{
    match content {
        InlineContent::Text(text) => matched_text(text),
        InlineContent::Emphasis(emphasis) => matched_emphasis(emphasis),
        InlineContent::Strong(strong) => matched_strong(strong),
        InlineContent::Link(link) => matched_link(link),
        InlineContent::CodeSpan(code_span) => matched_code_span(code_span),
        InlineContent::Hook(hook) => matched_hook(hook),
        InlineContent::Strikethrough(strikethrough) => matched_strikethrough(strikethrough),
        InlineContent::Icu(icu) => matched_icu(icu),
        InlineContent::IcuPound => matched_leaf(Node::IcuPound),
        InlineContent::HardLineBreak => matched_leaf(Node::HardLineBreak),
    }
}

pub proof fn matched_text(node: String)
    ensures
        matched(text_events(node)),
{
    matched_leaf(Node::Text(node));
}

pub proof fn matched_code_span(node: CodeSpan)
    ensures
        matched(code_span_events(node)),
{
    matched_leaf(Node::CodeSpan(node));
}

pub proof fn matched_emphasis(node: Emphasis)
    ensures
        matched(emphasis_events(node)),
    decreases node, 0int,
{
    matched_inlines(node.content@);
    matched_bracket(Node::Emphasis(node), inlines_events(node.content@));
}

pub proof fn matched_strong(node: Strong)
    ensures
        matched(strong_events(node)),
    decreases node, 0int,
{
    matched_inlines(node.content@);
    matched_bracket(Node::Strong(node), inlines_events(node.content@));
}

pub proof fn matched_strikethrough(node: Strikethrough)
    ensures
        matched(strikethrough_events(node)),
    decreases node, 0int,
{
    matched_inlines(node.content@);
    matched_bracket(Node::Strikethrough(node), inlines_events(node.content@));
}

pub proof fn matched_hook(node: Hook)
    ensures
        matched(hook_events(node)),
    decreases node, 0int,
{
    matched_inlines(node.content@);
    matched_bracket(Node::Hook(node), inlines_events(node.content@));
}

pub proof fn matched_link(link: Link)
    ensures
        matched(link_events(link)),
    decreases link, 2int,
{
    matched_inlines(link.label@);
    matched_link_destination(link.destination);
    matched_concat(inlines_events(link.label@), link_destination_events(link.destination));
    matched_bracket(
        Node::Link(link),
        inlines_events(link.label@) + link_destination_events(link.destination),
    );
}

pub proof fn matched_link_destination(destination: TextOrPlaceholder)
    ensures
        matched(link_destination_events(destination)),
    decreases destination, 1int,
{
    match destination {
        TextOrPlaceholder::Text(_) => matched_empty(),
        TextOrPlaceholder::Placeholder(icu) => matched_icu(icu),
    }
    matched_bracket(Node::LinkDestination(destination), link_destination_inner_events(destination));
}

pub proof fn matched_icu(icu: Icu)
    ensures
        matched(icu_events(icu)),
    decreases icu, 2int,
{
    matched_icu_inner(icu);
    matched_bracket(Node::Icu(icu), icu_inner_events(icu));
}

pub proof fn matched_icu_inner(icu: Icu)
    ensures
        matched(icu_inner_events(icu)),
    decreases icu, 1int,
{
    match icu {
        Icu::IcuVariable(variable) => matched_icu_variable(variable),
        Icu::IcuPlural(plural) => matched_icu_plural(plural),
        Icu::IcuSelect(select) => matched_icu_select(select),
        Icu::IcuDate(date) => matched_icu_date(date),
        Icu::IcuTime(time) => matched_icu_time(time),
        Icu::IcuNumber(number) => matched_icu_number(number),
    }
}

pub proof fn matched_icu_variable(node: IcuVariable)
    ensures
        matched(icu_variable_events(node)),
{
    matched_leaf(Node::IcuVariable(node));
}

pub proof fn matched_icu_plural(node: IcuPlural)
    ensures
        matched(icu_plural_events(node)),
    decreases node, 0int,
{
    matched_icu_variable(node.variable);
    matched_arms(node.arms@);
    matched_concat(icu_variable_events(node.variable), arms_events(node.arms@));
    matched_bracket(
        Node::IcuPlural(node),
        icu_variable_events(node.variable) + arms_events(node.arms@),
    );
}

pub proof fn matched_icu_select(node: IcuSelect)
    ensures
        matched(icu_select_events(node)),
    decreases node, 0int,
{
    matched_icu_variable(node.variable);
    matched_arms(node.arms@);
    matched_concat(icu_variable_events(node.variable), arms_events(node.arms@));
    matched_bracket(
        Node::IcuSelect(node),
        icu_variable_events(node.variable) + arms_events(node.arms@),
    );
}

/// The walk of a run of arms is matched.
pub proof fn matched_arms(run: Seq<IcuPluralArm>)
    ensures
        matched(arms_events(run)),
    decreases run, 1int,
{
    if run.len() == 0 {
        matched_empty();
    } else {
        matched_arms(run.drop_last());
        matched_icu_plural_arm(run.last());
        matched_concat(arms_events(run.drop_last()), icu_plural_arm_events(run.last()));
    }
}

pub proof fn matched_icu_plural_arm(node: IcuPluralArm)
    ensures
        matched(icu_plural_arm_events(node)),
    decreases node, 0int,
{
    matched_inlines(node.content@);
    matched_bracket(Node::IcuPluralArm(node), inlines_events(node.content@));
}

pub proof fn matched_date_time_style(style: Option<IcuDateTimeStyle>)
    ensures
        matched(date_time_style_events(style)),
{
    match style {
        Some(style) => matched_icu_date_time_style(style),
        None => matched_empty(),
    }
}

pub proof fn matched_number_style(style: Option<IcuNumberStyle>)
    ensures
        matched(number_style_events(style)),
{
    match style {
        Some(style) => matched_icu_number_style(style),
        None => matched_empty(),
    }
}

pub proof fn matched_icu_date(node: IcuDate)
    ensures
        matched(icu_date_events(node)),
{
    matched_icu_variable(node.variable);
    matched_date_time_style(node.style);
    matched_concat(icu_variable_events(node.variable), date_time_style_events(node.style));
    matched_bracket(
        Node::IcuDate(node),
        icu_variable_events(node.variable) + date_time_style_events(node.style),
    );
}

pub proof fn matched_icu_time(node: IcuTime)
    ensures
        matched(icu_time_events(node)),
{
    matched_icu_variable(node.variable);
    matched_date_time_style(node.style);
    matched_concat(icu_variable_events(node.variable), date_time_style_events(node.style));
    matched_bracket(
        Node::IcuTime(node),
        icu_variable_events(node.variable) + date_time_style_events(node.style),
    );
}

pub proof fn matched_icu_number(number: IcuNumber)
    ensures
        matched(icu_number_events(number)),
{
    matched_number_style(number.style);
    matched_bracket(Node::IcuNumber(number), number_style_events(number.style));
}

pub proof fn matched_icu_date_time_style(node: IcuDateTimeStyle)
    ensures
        matched(icu_date_time_style_events(node)),
{
    matched_leaf(Node::IcuDateTimeStyle(node));
}

pub proof fn matched_icu_number_style(node: IcuNumberStyle)
    ensures
        matched(icu_number_style_events(node)),
{
    matched_leaf(Node::IcuNumberStyle(node));
}

} // verus!
