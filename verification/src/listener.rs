//! Listeners: the receiving end of a walk, with a contract.
//!
//! A walk hands a listener one [`Event`] after another. What the listener
//! does with an event is its own business; it says so in
//! [`Listener::reacts`], and [`receives`] lifts that to whole sequences.

use crate::ast::{
    BlockNode, CodeBlock, CodeSpan, Document, Emphasis, Heading, Hook, Icu, IcuDate,
    IcuDateTimeStyle, IcuNumber, IcuNumberStyle, IcuPlural, IcuPluralArm, IcuSelect, IcuTime,
    IcuVariable, InlineContent, Link, Paragraph, Strikethrough, Strong, TextOrPlaceholder,
};
use crate::events::{bracket, leaf, Event, Node};
use vstd::prelude::*;

verus! {

/// One enter hook and one exit hook per node kind, each held to the
/// listener's own account of what it does.
///
/// A listener is the only state a walk changes. An implementor says in
/// `reacts` what each of its hooks may do, and every hook is held to that
/// relation. A hook that has no interest in its event leaves the listener as
/// it is and lets `reacts` admit exactly that.
pub trait Listener: Sized {
    /// Whether the hook for `event`, run on the listener in state `pre`, may
    /// leave it in state `post`. A listener that says nothing admits
    /// everything.
    open spec fn reacts(pre: Self, event: Event, post: Self) -> bool {
        true
    }

    /// Called for every block, before the hook of its own kind.
    fn visit_block_node(&mut self, node: &BlockNode)
        ensures
            Self::reacts(*old(self), Event::Enter(Node::BlockNode(*node)), *final(self)),
    ;

    fn exit_block_node(&mut self, node: &BlockNode)
        ensures
            Self::reacts(*old(self), Event::Exit(Node::BlockNode(*node)), *final(self)),
    ;

    fn visit_code_block(&mut self, node: &CodeBlock)
        ensures
            Self::reacts(*old(self), Event::Enter(Node::CodeBlock(*node)), *final(self)),
    ;

    fn exit_code_block(&mut self, node: &CodeBlock)
        ensures
            Self::reacts(*old(self), Event::Exit(Node::CodeBlock(*node)), *final(self)),
    ;

    fn visit_code_span(&mut self, node: &CodeSpan)
        ensures
            Self::reacts(*old(self), Event::Enter(Node::CodeSpan(*node)), *final(self)),
    ;

    fn exit_code_span(&mut self, node: &CodeSpan)
        ensures
            Self::reacts(*old(self), Event::Exit(Node::CodeSpan(*node)), *final(self)),
    ;

    fn visit_document(&mut self, node: &Document)
        ensures
            Self::reacts(*old(self), Event::Enter(Node::Document(*node)), *final(self)),
    ;

    fn exit_document(&mut self, node: &Document)
        ensures
            Self::reacts(*old(self), Event::Exit(Node::Document(*node)), *final(self)),
    ;

    fn visit_emphasis(&mut self, node: &Emphasis)
        ensures
            Self::reacts(*old(self), Event::Enter(Node::Emphasis(*node)), *final(self)),
    ;

    fn exit_emphasis(&mut self, node: &Emphasis)
        ensures
            Self::reacts(*old(self), Event::Exit(Node::Emphasis(*node)), *final(self)),
    ;

    fn visit_heading(&mut self, node: &Heading)
        ensures
            Self::reacts(*old(self), Event::Enter(Node::Heading(*node)), *final(self)),
    ;

    fn exit_heading(&mut self, node: &Heading)
        ensures
            Self::reacts(*old(self), Event::Exit(Node::Heading(*node)), *final(self)),
    ;

    fn visit_hook(&mut self, node: &Hook)
        ensures
            Self::reacts(*old(self), Event::Enter(Node::Hook(*node)), *final(self)),
    ;

    fn exit_hook(&mut self, node: &Hook)
        ensures
            Self::reacts(*old(self), Event::Exit(Node::Hook(*node)), *final(self)),
    ;

    /// Called for every ICU expression, before the hook of its own kind.
    fn visit_icu(&mut self, node: &Icu)
        ensures
            Self::reacts(*old(self), Event::Enter(Node::Icu(*node)), *final(self)),
    ;

    fn exit_icu(&mut self, node: &Icu)
        ensures
            Self::reacts(*old(self), Event::Exit(Node::Icu(*node)), *final(self)),
    ;

    fn visit_icu_date(&mut self, node: &IcuDate)
        ensures
            Self::reacts(*old(self), Event::Enter(Node::IcuDate(*node)), *final(self)),
    ;

    fn exit_icu_date(&mut self, node: &IcuDate)
        ensures
            Self::reacts(*old(self), Event::Exit(Node::IcuDate(*node)), *final(self)),
    ;

    fn visit_icu_date_time_style(&mut self, node: &IcuDateTimeStyle)
        ensures
            Self::reacts(*old(self), Event::Enter(Node::IcuDateTimeStyle(*node)), *final(self)),
    ;

    fn exit_icu_date_time_style(&mut self, node: &IcuDateTimeStyle)
        ensures
            Self::reacts(*old(self), Event::Exit(Node::IcuDateTimeStyle(*node)), *final(self)),
    ;

    fn visit_icu_number(&mut self, node: &IcuNumber)
        ensures
            Self::reacts(*old(self), Event::Enter(Node::IcuNumber(*node)), *final(self)),
    ;

    fn exit_icu_number(&mut self, node: &IcuNumber)
        ensures
            Self::reacts(*old(self), Event::Exit(Node::IcuNumber(*node)), *final(self)),
    ;

    fn visit_icu_number_style(&mut self, node: &IcuNumberStyle)
        ensures
            Self::reacts(*old(self), Event::Enter(Node::IcuNumberStyle(*node)), *final(self)),
    ;

    fn exit_icu_number_style(&mut self, node: &IcuNumberStyle)
        ensures
            Self::reacts(*old(self), Event::Exit(Node::IcuNumberStyle(*node)), *final(self)),
    ;

    fn visit_icu_plural(&mut self, node: &IcuPlural)
        ensures
            Self::reacts(*old(self), Event::Enter(Node::IcuPlural(*node)), *final(self)),
    ;

    fn exit_icu_plural(&mut self, node: &IcuPlural)
        ensures
            Self::reacts(*old(self), Event::Exit(Node::IcuPlural(*node)), *final(self)),
    ;

    fn visit_icu_plural_arm(&mut self, node: &IcuPluralArm)
        ensures
            Self::reacts(*old(self), Event::Enter(Node::IcuPluralArm(*node)), *final(self)),
    ;

    fn exit_icu_plural_arm(&mut self, node: &IcuPluralArm)
        ensures
            Self::reacts(*old(self), Event::Exit(Node::IcuPluralArm(*node)), *final(self)),
    ;

    fn visit_icu_select(&mut self, node: &IcuSelect)
        ensures
            Self::reacts(*old(self), Event::Enter(Node::IcuSelect(*node)), *final(self)),
    ;

    fn exit_icu_select(&mut self, node: &IcuSelect)
        ensures
            Self::reacts(*old(self), Event::Exit(Node::IcuSelect(*node)), *final(self)),
    ;

    fn visit_icu_time(&mut self, node: &IcuTime)
        ensures
            Self::reacts(*old(self), Event::Enter(Node::IcuTime(*node)), *final(self)),
    ;

    fn exit_icu_time(&mut self, node: &IcuTime)
        ensures
            Self::reacts(*old(self), Event::Exit(Node::IcuTime(*node)), *final(self)),
    ;

    fn visit_icu_variable(&mut self, node: &IcuVariable)
        ensures
            Self::reacts(*old(self), Event::Enter(Node::IcuVariable(*node)), *final(self)),
    ;

    fn exit_icu_variable(&mut self, node: &IcuVariable)
        ensures
            Self::reacts(*old(self), Event::Exit(Node::IcuVariable(*node)), *final(self)),
    ;

    /// Called for every inline node, before the hook of its own kind.
    fn visit_inline_content(&mut self, node: &InlineContent)
        ensures
            Self::reacts(*old(self), Event::Enter(Node::InlineContent(*node)), *final(self)),
    ;

    fn exit_inline_content(&mut self, node: &InlineContent)
        ensures
            Self::reacts(*old(self), Event::Exit(Node::InlineContent(*node)), *final(self)),
    ;

    fn visit_link(&mut self, node: &Link)
        ensures
            Self::reacts(*old(self), Event::Enter(Node::Link(*node)), *final(self)),
    ;

    fn exit_link(&mut self, node: &Link)
        ensures
            Self::reacts(*old(self), Event::Exit(Node::Link(*node)), *final(self)),
    ;

    /// Called for the destination of every link, literal or placeholder.
    fn visit_link_destination(&mut self, node: &TextOrPlaceholder)
        ensures
            Self::reacts(*old(self), Event::Enter(Node::LinkDestination(*node)), *final(self)),
    ;

    fn exit_link_destination(&mut self, node: &TextOrPlaceholder)
        ensures
            Self::reacts(*old(self), Event::Exit(Node::LinkDestination(*node)), *final(self)),
    ;

    fn visit_paragraph(&mut self, node: &Paragraph)
        ensures
            Self::reacts(*old(self), Event::Enter(Node::Paragraph(*node)), *final(self)),
    ;

    fn exit_paragraph(&mut self, node: &Paragraph)
        ensures
            Self::reacts(*old(self), Event::Exit(Node::Paragraph(*node)), *final(self)),
    ;

    fn visit_strikethrough(&mut self, node: &Strikethrough)
        ensures
            Self::reacts(*old(self), Event::Enter(Node::Strikethrough(*node)), *final(self)),
    ;

    fn exit_strikethrough(&mut self, node: &Strikethrough)
        ensures
            Self::reacts(*old(self), Event::Exit(Node::Strikethrough(*node)), *final(self)),
    ;

    fn visit_strong(&mut self, node: &Strong)
        ensures
            Self::reacts(*old(self), Event::Enter(Node::Strong(*node)), *final(self)),
    ;

    fn exit_strong(&mut self, node: &Strong)
        ensures
            Self::reacts(*old(self), Event::Exit(Node::Strong(*node)), *final(self)),
    ;

    /// The engine calls neither hook of this pair: it announces the
    /// destination of a link through `visit_link_destination`.
    fn visit_text_or_placeholder(&mut self, node: &TextOrPlaceholder)
        ensures
            Self::reacts(*old(self), Event::Enter(Node::TextOrPlaceholder(*node)), *final(self)),
    ;

    fn exit_text_or_placeholder(&mut self, node: &TextOrPlaceholder)
        ensures
            Self::reacts(*old(self), Event::Exit(Node::TextOrPlaceholder(*node)), *final(self)),
    ;

    fn visit_thematic_break(&mut self)
        ensures
            Self::reacts(*old(self), Event::Enter(Node::ThematicBreak), *final(self)),
    ;

    fn exit_thematic_break(&mut self)
        ensures
            Self::reacts(*old(self), Event::Exit(Node::ThematicBreak), *final(self)),
    ;

    fn visit_hard_line_break(&mut self)
        ensures
            Self::reacts(*old(self), Event::Enter(Node::HardLineBreak), *final(self)),
    ;

    fn exit_hard_line_break(&mut self)
        ensures
            Self::reacts(*old(self), Event::Exit(Node::HardLineBreak), *final(self)),
    ;

    fn visit_icu_pound(&mut self)
        ensures
            Self::reacts(*old(self), Event::Enter(Node::IcuPound), *final(self)),
    ;

    fn exit_icu_pound(&mut self)
        ensures
            Self::reacts(*old(self), Event::Exit(Node::IcuPound), *final(self)),
    ;

    fn visit_text(&mut self, node: &String)
        ensures
            Self::reacts(*old(self), Event::Enter(Node::Text(*node)), *final(self)),
    ;

    fn exit_text(&mut self, node: &String)
        ensures
            Self::reacts(*old(self), Event::Exit(Node::Text(*node)), *final(self)),
    ;
}

/// Whether a listener in state `pre` that receives `events` one by one, each
/// through the hook that belongs to it, may end in state `post`.
pub open spec fn receives<V: Listener>(pre: V, events: Seq<Event>, post: V) -> bool
    decreases events.len(),
{
    if events.len() == 0 {
        post == pre
    } else {
        exists|mid: V| receives(pre, events.drop_last(), mid) && V::reacts(mid, events.last(), post)
    }
}

/// Receiving `events` and then one more event is receiving the longer sequence.
pub proof fn receives_push<V: Listener>(pre: V, events: Seq<Event>, mid: V, event: Event, post: V)
    requires
        receives(pre, events, mid),
        V::reacts(mid, event, post),
    ensures
        receives(pre, events.push(event), post),
{
    let all = events.push(event);
    assert(all.drop_last() =~= events);
    assert(all.last() == event);
    assert(receives(pre, all.drop_last(), mid) && V::reacts(mid, all.last(), post));
}

/// Receiving `first` and then `second` is receiving their concatenation.
pub proof fn receives_concat<V: Listener>(
    pre: V,
    first: Seq<Event>,
    mid: V,
    second: Seq<Event>,
    post: V,
)
    requires
        receives(pre, first, mid),
        receives(mid, second, post),
    ensures
        receives(pre, first + second, post),
    decreases second.len(),
{
    if second.len() == 0 {
        assert(first + second =~= first);
    } else {
        let last = choose|last: V|
            receives(mid, second.drop_last(), last) && V::reacts(last, second.last(), post);
        receives_concat(pre, first, mid, second.drop_last(), last);
        assert((first + second).drop_last() =~= first + second.drop_last());
        assert((first + second).last() == second.last());
    }
}

/// Enter, the inner events, exit: together the node's bracket.
pub proof fn receives_bracket<V: Listener>(
    pre: V,
    node: Node,
    entered: V,
    inner: Seq<Event>,
    walked: V,
    post: V,
)
    requires
        V::reacts(pre, Event::Enter(node), entered),
        receives(entered, inner, walked),
        V::reacts(walked, Event::Exit(node), post),
    ensures
        receives(pre, bracket(node, inner), post),
{
    let head = Seq::<Event>::empty().push(Event::Enter(node));
    receives_push(pre, Seq::empty(), pre, Event::Enter(node), entered);
    receives_concat(pre, head, entered, inner, walked);
    receives_push(pre, head + inner, walked, Event::Exit(node), post);
    assert((head + inner).push(Event::Exit(node)) =~= bracket(node, inner));
}

/// Enter and exit with nothing between them: the node's leaf events.
pub proof fn receives_leaf<V: Listener>(pre: V, node: Node, entered: V, post: V)
    requires
        V::reacts(pre, Event::Enter(node), entered),
        V::reacts(entered, Event::Exit(node), post),
    ensures
        receives(pre, leaf(node), post),
{
    receives_bracket(pre, node, entered, Seq::empty(), entered, post);
    assert(bracket(node, Seq::empty()) =~= leaf(node));
}

} // verus!
