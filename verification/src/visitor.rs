//! The visitor capability set and the traversal engine that drives it.
//!
//! The engine walks a [`Document`] depth first, exactly once, and hands every
//! node to the visitor twice: on the way in and on the way out. Which hooks
//! are called, with which node and in which order, is fixed by
//! [`document_events`]. The engine is proved against [`Listener`], the hook
//! set with a contract. A [`Visitor`], whose hooks are all optional, is a
//! listener too: each call reaches the visitor's own hook of the same name,
//! while its relation, which cannot speak of hooks it does not know, admits
//! everything.

use crate::ast::{
    BlockNode, CodeBlock, CodeSpan, Document, Emphasis, Heading, Hook, Icu, IcuDate,
    IcuDateTimeStyle, IcuNumber, IcuNumberStyle, IcuPlural, IcuPluralArm, IcuSelect, IcuTime,
    IcuVariable, InlineContent, Link, Paragraph, Strikethrough, Strong, TextOrPlaceholder,
};
use crate::events::{
    arms_events, block_events, block_inner_events, blocks_events, children_events,
    children_events_of_blocks, code_block_events, code_span_events, date_time_style_events,
    document_events, emphasis_events, heading_events, hook_events, icu_date_events,
    icu_date_time_style_events, icu_events, icu_inner_events, icu_number_events,
    icu_number_style_events, icu_plural_arm_events, icu_plural_events, icu_select_events,
    icu_time_events, icu_variable_events, inline_events, inline_inner_events, inlines_events,
    link_destination_events, link_destination_inner_events, link_events, number_style_events,
    paragraph_events, strikethrough_events, strong_events, text_events, Node, Walk,
};
use crate::listener::{receives, receives_bracket, receives_concat, receives_leaf, Listener};
use vstd::prelude::*;

verus! {

/// The hook set with every hook optional: one enter hook and one exit hook
/// per node kind, and a hook that is not written does nothing.
///
/// Nothing is said here of what a written hook does. A consumer that wants
/// its hooks held to a contract implements [`Listener`] instead.
pub trait Visitor: Sized {
    /// Called for every block, before the hook of its own kind.
    fn visit_block_node(&mut self, _node: &BlockNode)
        default_ensures
            *final(self) == *old(self),
    {
    }

    fn exit_block_node(&mut self, _node: &BlockNode)
        default_ensures
            *final(self) == *old(self),
    {
    }

    fn visit_code_block(&mut self, _node: &CodeBlock)
        default_ensures
            *final(self) == *old(self),
    {
    }

    fn exit_code_block(&mut self, _node: &CodeBlock)
        default_ensures
            *final(self) == *old(self),
    {
    }

    fn visit_code_span(&mut self, _node: &CodeSpan)
        default_ensures
            *final(self) == *old(self),
    {
    }

    fn exit_code_span(&mut self, _node: &CodeSpan)
        default_ensures
            *final(self) == *old(self),
    {
    }

    fn visit_document(&mut self, _node: &Document)
        default_ensures
            *final(self) == *old(self),
    {
    }

    fn exit_document(&mut self, _node: &Document)
        default_ensures
            *final(self) == *old(self),
    {
    }

    fn visit_emphasis(&mut self, _node: &Emphasis)
        default_ensures
            *final(self) == *old(self),
    {
    }

    fn exit_emphasis(&mut self, _node: &Emphasis)
        default_ensures
            *final(self) == *old(self),
    {
    }

    fn visit_heading(&mut self, _node: &Heading)
        default_ensures
            *final(self) == *old(self),
    {
    }

    fn exit_heading(&mut self, _node: &Heading)
        default_ensures
            *final(self) == *old(self),
    {
    }

    fn visit_hook(&mut self, _node: &Hook)
        default_ensures
            *final(self) == *old(self),
    {
    }

    fn exit_hook(&mut self, _node: &Hook)
        default_ensures
            *final(self) == *old(self),
    {
    }

    /// Called for every ICU expression, before the hook of its own kind.
    fn visit_icu(&mut self, _node: &Icu)
        default_ensures
            *final(self) == *old(self),
    {
    }

    fn exit_icu(&mut self, _node: &Icu)
        default_ensures
            *final(self) == *old(self),
    {
    }

    fn visit_icu_date(&mut self, _node: &IcuDate)
        default_ensures
            *final(self) == *old(self),
    {
    }

    fn exit_icu_date(&mut self, _node: &IcuDate)
        default_ensures
            *final(self) == *old(self),
    {
    }

    fn visit_icu_date_time_style(&mut self, _node: &IcuDateTimeStyle)
        default_ensures
            *final(self) == *old(self),
    {
    }

    fn exit_icu_date_time_style(&mut self, _node: &IcuDateTimeStyle)
        default_ensures
            *final(self) == *old(self),
    {
    }

    fn visit_icu_number(&mut self, _node: &IcuNumber)
        default_ensures
            *final(self) == *old(self),
    {
    }

    fn exit_icu_number(&mut self, _node: &IcuNumber)
        default_ensures
            *final(self) == *old(self),
    {
    }

    fn visit_icu_number_style(&mut self, _node: &IcuNumberStyle)
        default_ensures
            *final(self) == *old(self),
    {
    }

    fn exit_icu_number_style(&mut self, _node: &IcuNumberStyle)
        default_ensures
            *final(self) == *old(self),
    {
    }

    fn visit_icu_plural(&mut self, _node: &IcuPlural)
        default_ensures
            *final(self) == *old(self),
    {
    }

    fn exit_icu_plural(&mut self, _node: &IcuPlural)
        default_ensures
            *final(self) == *old(self),
    {
    }

    fn visit_icu_plural_arm(&mut self, _node: &IcuPluralArm)
        default_ensures
            *final(self) == *old(self),
    {
    }

    fn exit_icu_plural_arm(&mut self, _node: &IcuPluralArm)
        default_ensures
            *final(self) == *old(self),
    {
    }

    fn visit_icu_select(&mut self, _node: &IcuSelect)
        default_ensures
            *final(self) == *old(self),
    {
    }

    fn exit_icu_select(&mut self, _node: &IcuSelect)
        default_ensures
            *final(self) == *old(self),
    {
    }

    fn visit_icu_time(&mut self, _node: &IcuTime)
        default_ensures
            *final(self) == *old(self),
    {
    }

    fn exit_icu_time(&mut self, _node: &IcuTime)
        default_ensures
            *final(self) == *old(self),
    {
    }

    fn visit_icu_variable(&mut self, _node: &IcuVariable)
        default_ensures
            *final(self) == *old(self),
    {
    }

    fn exit_icu_variable(&mut self, _node: &IcuVariable)
        default_ensures
            *final(self) == *old(self),
    {
    }

    /// Called for every inline node, before the hook of its own kind.
    fn visit_inline_content(&mut self, _node: &InlineContent)
        default_ensures
            *final(self) == *old(self),
    {
    }

    fn exit_inline_content(&mut self, _node: &InlineContent)
        default_ensures
            *final(self) == *old(self),
    {
    }

    fn visit_link(&mut self, _node: &Link)
        default_ensures
            *final(self) == *old(self),
    {
    }

    fn exit_link(&mut self, _node: &Link)
        default_ensures
            *final(self) == *old(self),
    {
    }

    /// Called for the destination of every link, literal or placeholder.
    fn visit_link_destination(&mut self, _node: &TextOrPlaceholder)
        default_ensures
            *final(self) == *old(self),
    {
    }

    fn exit_link_destination(&mut self, _node: &TextOrPlaceholder)
        default_ensures
            *final(self) == *old(self),
    {
    }

    fn visit_paragraph(&mut self, _node: &Paragraph)
        default_ensures
            *final(self) == *old(self),
    {
    }

    fn exit_paragraph(&mut self, _node: &Paragraph)
        default_ensures
            *final(self) == *old(self),
    {
    }

    fn visit_strikethrough(&mut self, _node: &Strikethrough)
        default_ensures
            *final(self) == *old(self),
    {
    }

    fn exit_strikethrough(&mut self, _node: &Strikethrough)
        default_ensures
            *final(self) == *old(self),
    {
    }

    fn visit_strong(&mut self, _node: &Strong)
        default_ensures
            *final(self) == *old(self),
    {
    }

    fn exit_strong(&mut self, _node: &Strong)
        default_ensures
            *final(self) == *old(self),
    {
    }

    /// The engine calls neither hook of this pair: it announces the
    /// destination of a link through `visit_link_destination`.
    fn visit_text_or_placeholder(&mut self, _node: &TextOrPlaceholder)
        default_ensures
            *final(self) == *old(self),
    {
    }

    fn exit_text_or_placeholder(&mut self, _node: &TextOrPlaceholder)
        default_ensures
            *final(self) == *old(self),
    {
    }

    fn visit_thematic_break(&mut self)
        default_ensures
            *final(self) == *old(self),
    {
    }

    fn exit_thematic_break(&mut self)
        default_ensures
            *final(self) == *old(self),
    {
    }

    fn visit_hard_line_break(&mut self)
        default_ensures
            *final(self) == *old(self),
    {
    }

    fn exit_hard_line_break(&mut self)
        default_ensures
            *final(self) == *old(self),
    {
    }

    fn visit_icu_pound(&mut self)
        default_ensures
            *final(self) == *old(self),
    {
    }

    fn exit_icu_pound(&mut self)
        default_ensures
            *final(self) == *old(self),
    {
    }

    fn visit_text(&mut self, _node: &String)
        default_ensures
            *final(self) == *old(self),
    {
    }

    fn exit_text(&mut self, _node: &String)
        default_ensures
            *final(self) == *old(self),
    {
    }
}

/// Every visitor is a listener: each hook is passed on to the visitor's own
/// hook of the same name, with the same node, and leaves the visitor as that
/// hook leaves it. For a hook that the visitor did not write, that is
/// unchanged.
impl<V: Visitor> Listener for V {
    fn visit_block_node(&mut self, node: &BlockNode)
        ensures
            exists|hooked: &mut V|
                *hooked == *old(self) && *final(hooked) == *final(self) && #[trigger] call_ensures(
                    <V as Visitor>::visit_block_node,
                    (hooked, node),
                    (),
                ),
    {
        Visitor::visit_block_node(self, node)
    }

    fn exit_block_node(&mut self, node: &BlockNode)
        ensures
            exists|hooked: &mut V|
                *hooked == *old(self) && *final(hooked) == *final(self) && #[trigger] call_ensures(
                    <V as Visitor>::exit_block_node,
                    (hooked, node),
                    (),
                ),
    {
        Visitor::exit_block_node(self, node)
    }

    fn visit_code_block(&mut self, node: &CodeBlock)
        ensures
            exists|hooked: &mut V|
                *hooked == *old(self) && *final(hooked) == *final(self) && #[trigger] call_ensures(
                    <V as Visitor>::visit_code_block,
                    (hooked, node),
                    (),
                ),
    {
        Visitor::visit_code_block(self, node)
    }

    fn exit_code_block(&mut self, node: &CodeBlock)
        ensures
            exists|hooked: &mut V|
                *hooked == *old(self) && *final(hooked) == *final(self) && #[trigger] call_ensures(
                    <V as Visitor>::exit_code_block,
                    (hooked, node),
                    (),
                ),
    {
        Visitor::exit_code_block(self, node)
    }

    fn visit_code_span(&mut self, node: &CodeSpan)
        ensures
            exists|hooked: &mut V|
                *hooked == *old(self) && *final(hooked) == *final(self) && #[trigger] call_ensures(
                    <V as Visitor>::visit_code_span,
                    (hooked, node),
                    (),
                ),
    {
        Visitor::visit_code_span(self, node)
    }

    fn exit_code_span(&mut self, node: &CodeSpan)
        ensures
            exists|hooked: &mut V|
                *hooked == *old(self) && *final(hooked) == *final(self) && #[trigger] call_ensures(
                    <V as Visitor>::exit_code_span,
                    (hooked, node),
                    (),
                ),
    {
        Visitor::exit_code_span(self, node)
    }

    fn visit_document(&mut self, node: &Document)
        ensures
            exists|hooked: &mut V|
                *hooked == *old(self) && *final(hooked) == *final(self) && #[trigger] call_ensures(
                    <V as Visitor>::visit_document,
                    (hooked, node),
                    (),
                ),
    {
        Visitor::visit_document(self, node)
    }

    fn exit_document(&mut self, node: &Document)
        ensures
            exists|hooked: &mut V|
                *hooked == *old(self) && *final(hooked) == *final(self) && #[trigger] call_ensures(
                    <V as Visitor>::exit_document,
                    (hooked, node),
                    (),
                ),
    {
        Visitor::exit_document(self, node)
    }

    fn visit_emphasis(&mut self, node: &Emphasis)
        ensures
            exists|hooked: &mut V|
                *hooked == *old(self) && *final(hooked) == *final(self) && #[trigger] call_ensures(
                    <V as Visitor>::visit_emphasis,
                    (hooked, node),
                    (),
                ),
    {
        Visitor::visit_emphasis(self, node)
    }

    fn exit_emphasis(&mut self, node: &Emphasis)
        ensures
            exists|hooked: &mut V|
                *hooked == *old(self) && *final(hooked) == *final(self) && #[trigger] call_ensures(
                    <V as Visitor>::exit_emphasis,
                    (hooked, node),
                    (),
                ),
    {
        Visitor::exit_emphasis(self, node)
    }

    fn visit_heading(&mut self, node: &Heading)
        ensures
            exists|hooked: &mut V|
                *hooked == *old(self) && *final(hooked) == *final(self) && #[trigger] call_ensures(
                    <V as Visitor>::visit_heading,
                    (hooked, node),
                    (),
                ),
    {
        Visitor::visit_heading(self, node)
    }

    fn exit_heading(&mut self, node: &Heading)
        ensures
            exists|hooked: &mut V|
                *hooked == *old(self) && *final(hooked) == *final(self) && #[trigger] call_ensures(
                    <V as Visitor>::exit_heading,
                    (hooked, node),
                    (),
                ),
    {
        Visitor::exit_heading(self, node)
    }

    fn visit_hook(&mut self, node: &Hook)
        ensures
            exists|hooked: &mut V|
                *hooked == *old(self) && *final(hooked) == *final(self) && #[trigger] call_ensures(
                    <V as Visitor>::visit_hook,
                    (hooked, node),
                    (),
                ),
    {
        Visitor::visit_hook(self, node)
    }

    fn exit_hook(&mut self, node: &Hook)
        ensures
            exists|hooked: &mut V|
                *hooked == *old(self) && *final(hooked) == *final(self) && #[trigger] call_ensures(
                    <V as Visitor>::exit_hook,
                    (hooked, node),
                    (),
                ),
    {
        Visitor::exit_hook(self, node)
    }

    fn visit_icu(&mut self, node: &Icu)
        ensures
            exists|hooked: &mut V|
                *hooked == *old(self) && *final(hooked) == *final(self) && #[trigger] call_ensures(
                    <V as Visitor>::visit_icu,
                    (hooked, node),
                    (),
                ),
    {
        Visitor::visit_icu(self, node)
    }

    fn exit_icu(&mut self, node: &Icu)
        ensures
            exists|hooked: &mut V|
                *hooked == *old(self) && *final(hooked) == *final(self) && #[trigger] call_ensures(
                    <V as Visitor>::exit_icu,
                    (hooked, node),
                    (),
                ),
    {
        Visitor::exit_icu(self, node)
    }

    fn visit_icu_date(&mut self, node: &IcuDate)
        ensures
            exists|hooked: &mut V|
                *hooked == *old(self) && *final(hooked) == *final(self) && #[trigger] call_ensures(
                    <V as Visitor>::visit_icu_date,
                    (hooked, node),
                    (),
                ),
    {
        Visitor::visit_icu_date(self, node)
    }

    fn exit_icu_date(&mut self, node: &IcuDate)
        ensures
            exists|hooked: &mut V|
                *hooked == *old(self) && *final(hooked) == *final(self) && #[trigger] call_ensures(
                    <V as Visitor>::exit_icu_date,
                    (hooked, node),
                    (),
                ),
    {
        Visitor::exit_icu_date(self, node)
    }

    fn visit_icu_date_time_style(&mut self, node: &IcuDateTimeStyle)
        ensures
            exists|hooked: &mut V|
                *hooked == *old(self) && *final(hooked) == *final(self) && #[trigger] call_ensures(
                    <V as Visitor>::visit_icu_date_time_style,
                    (hooked, node),
                    (),
                ),
    {
        Visitor::visit_icu_date_time_style(self, node)
    }

    fn exit_icu_date_time_style(&mut self, node: &IcuDateTimeStyle)
        ensures
            exists|hooked: &mut V|
                *hooked == *old(self) && *final(hooked) == *final(self) && #[trigger] call_ensures(
                    <V as Visitor>::exit_icu_date_time_style,
                    (hooked, node),
                    (),
                ),
    {
        Visitor::exit_icu_date_time_style(self, node)
    }

    fn visit_icu_number(&mut self, node: &IcuNumber)
        ensures
            exists|hooked: &mut V|
                *hooked == *old(self) && *final(hooked) == *final(self) && #[trigger] call_ensures(
                    <V as Visitor>::visit_icu_number,
                    (hooked, node),
                    (),
                ),
    {
        Visitor::visit_icu_number(self, node)
    }

    fn exit_icu_number(&mut self, node: &IcuNumber)
        ensures
            exists|hooked: &mut V|
                *hooked == *old(self) && *final(hooked) == *final(self) && #[trigger] call_ensures(
                    <V as Visitor>::exit_icu_number,
                    (hooked, node),
                    (),
                ),
    {
        Visitor::exit_icu_number(self, node)
    }

    fn visit_icu_number_style(&mut self, node: &IcuNumberStyle)
        ensures
            exists|hooked: &mut V|
                *hooked == *old(self) && *final(hooked) == *final(self) && #[trigger] call_ensures(
                    <V as Visitor>::visit_icu_number_style,
                    (hooked, node),
                    (),
                ),
    {
        Visitor::visit_icu_number_style(self, node)
    }

    fn exit_icu_number_style(&mut self, node: &IcuNumberStyle)
        ensures
            exists|hooked: &mut V|
                *hooked == *old(self) && *final(hooked) == *final(self) && #[trigger] call_ensures(
                    <V as Visitor>::exit_icu_number_style,
                    (hooked, node),
                    (),
                ),
    {
        Visitor::exit_icu_number_style(self, node)
    }

    fn visit_icu_plural(&mut self, node: &IcuPlural)
        ensures
            exists|hooked: &mut V|
                *hooked == *old(self) && *final(hooked) == *final(self) && #[trigger] call_ensures(
                    <V as Visitor>::visit_icu_plural,
                    (hooked, node),
                    (),
                ),
    {
        Visitor::visit_icu_plural(self, node)
    }

    fn exit_icu_plural(&mut self, node: &IcuPlural)
        ensures
            exists|hooked: &mut V|
                *hooked == *old(self) && *final(hooked) == *final(self) && #[trigger] call_ensures(
                    <V as Visitor>::exit_icu_plural,
                    (hooked, node),
                    (),
                ),
    {
        Visitor::exit_icu_plural(self, node)
    }

    fn visit_icu_plural_arm(&mut self, node: &IcuPluralArm)
        ensures
            exists|hooked: &mut V|
                *hooked == *old(self) && *final(hooked) == *final(self) && #[trigger] call_ensures(
                    <V as Visitor>::visit_icu_plural_arm,
                    (hooked, node),
                    (),
                ),
    {
        Visitor::visit_icu_plural_arm(self, node)
    }

    fn exit_icu_plural_arm(&mut self, node: &IcuPluralArm)
        ensures
            exists|hooked: &mut V|
                *hooked == *old(self) && *final(hooked) == *final(self) && #[trigger] call_ensures(
                    <V as Visitor>::exit_icu_plural_arm,
                    (hooked, node),
                    (),
                ),
    {
        Visitor::exit_icu_plural_arm(self, node)
    }

    fn visit_icu_select(&mut self, node: &IcuSelect)
        ensures
            exists|hooked: &mut V|
                *hooked == *old(self) && *final(hooked) == *final(self) && #[trigger] call_ensures(
                    <V as Visitor>::visit_icu_select,
                    (hooked, node),
                    (),
                ),
    {
        Visitor::visit_icu_select(self, node)
    }

    fn exit_icu_select(&mut self, node: &IcuSelect)
        ensures
            exists|hooked: &mut V|
                *hooked == *old(self) && *final(hooked) == *final(self) && #[trigger] call_ensures(
                    <V as Visitor>::exit_icu_select,
                    (hooked, node),
                    (),
                ),
    {
        Visitor::exit_icu_select(self, node)
    }

    fn visit_icu_time(&mut self, node: &IcuTime)
        ensures
            exists|hooked: &mut V|
                *hooked == *old(self) && *final(hooked) == *final(self) && #[trigger] call_ensures(
                    <V as Visitor>::visit_icu_time,
                    (hooked, node),
                    (),
                ),
    {
        Visitor::visit_icu_time(self, node)
    }

    fn exit_icu_time(&mut self, node: &IcuTime)
        ensures
            exists|hooked: &mut V|
                *hooked == *old(self) && *final(hooked) == *final(self) && #[trigger] call_ensures(
                    <V as Visitor>::exit_icu_time,
                    (hooked, node),
                    (),
                ),
    {
        Visitor::exit_icu_time(self, node)
    }

    fn visit_icu_variable(&mut self, node: &IcuVariable)
        ensures
            exists|hooked: &mut V|
                *hooked == *old(self) && *final(hooked) == *final(self) && #[trigger] call_ensures(
                    <V as Visitor>::visit_icu_variable,
                    (hooked, node),
                    (),
                ),
    {
        Visitor::visit_icu_variable(self, node)
    }

    fn exit_icu_variable(&mut self, node: &IcuVariable)
        ensures
            exists|hooked: &mut V|
                *hooked == *old(self) && *final(hooked) == *final(self) && #[trigger] call_ensures(
                    <V as Visitor>::exit_icu_variable,
                    (hooked, node),
                    (),
                ),
    {
        Visitor::exit_icu_variable(self, node)
    }

    fn visit_inline_content(&mut self, node: &InlineContent)
        ensures
            exists|hooked: &mut V|
                *hooked == *old(self) && *final(hooked) == *final(self) && #[trigger] call_ensures(
                    <V as Visitor>::visit_inline_content,
                    (hooked, node),
                    (),
                ),
    {
        Visitor::visit_inline_content(self, node)
    }

    fn exit_inline_content(&mut self, node: &InlineContent)
        ensures
            exists|hooked: &mut V|
                *hooked == *old(self) && *final(hooked) == *final(self) && #[trigger] call_ensures(
                    <V as Visitor>::exit_inline_content,
                    (hooked, node),
                    (),
                ),
    {
        Visitor::exit_inline_content(self, node)
    }

    fn visit_link(&mut self, node: &Link)
        ensures
            exists|hooked: &mut V|
                *hooked == *old(self) && *final(hooked) == *final(self) && #[trigger] call_ensures(
                    <V as Visitor>::visit_link,
                    (hooked, node),
                    (),
                ),
    {
        Visitor::visit_link(self, node)
    }

    fn exit_link(&mut self, node: &Link)
        ensures
            exists|hooked: &mut V|
                *hooked == *old(self) && *final(hooked) == *final(self) && #[trigger] call_ensures(
                    <V as Visitor>::exit_link,
                    (hooked, node),
                    (),
                ),
    {
        Visitor::exit_link(self, node)
    }

    fn visit_link_destination(&mut self, node: &TextOrPlaceholder)
        ensures
            exists|hooked: &mut V|
                *hooked == *old(self) && *final(hooked) == *final(self) && #[trigger] call_ensures(
                    <V as Visitor>::visit_link_destination,
                    (hooked, node),
                    (),
                ),
    {
        Visitor::visit_link_destination(self, node)
    }

    fn exit_link_destination(&mut self, node: &TextOrPlaceholder)
        ensures
            exists|hooked: &mut V|
                *hooked == *old(self) && *final(hooked) == *final(self) && #[trigger] call_ensures(
                    <V as Visitor>::exit_link_destination,
                    (hooked, node),
                    (),
                ),
    {
        Visitor::exit_link_destination(self, node)
    }

    fn visit_paragraph(&mut self, node: &Paragraph)
        ensures
            exists|hooked: &mut V|
                *hooked == *old(self) && *final(hooked) == *final(self) && #[trigger] call_ensures(
                    <V as Visitor>::visit_paragraph,
                    (hooked, node),
                    (),
                ),
    {
        Visitor::visit_paragraph(self, node)
    }

    fn exit_paragraph(&mut self, node: &Paragraph)
        ensures
            exists|hooked: &mut V|
                *hooked == *old(self) && *final(hooked) == *final(self) && #[trigger] call_ensures(
                    <V as Visitor>::exit_paragraph,
                    (hooked, node),
                    (),
                ),
    {
        Visitor::exit_paragraph(self, node)
    }

    fn visit_strikethrough(&mut self, node: &Strikethrough)
        ensures
            exists|hooked: &mut V|
                *hooked == *old(self) && *final(hooked) == *final(self) && #[trigger] call_ensures(
                    <V as Visitor>::visit_strikethrough,
                    (hooked, node),
                    (),
                ),
    {
        Visitor::visit_strikethrough(self, node)
    }

    fn exit_strikethrough(&mut self, node: &Strikethrough)
        ensures
            exists|hooked: &mut V|
                *hooked == *old(self) && *final(hooked) == *final(self) && #[trigger] call_ensures(
                    <V as Visitor>::exit_strikethrough,
                    (hooked, node),
                    (),
                ),
    {
        Visitor::exit_strikethrough(self, node)
    }

    fn visit_strong(&mut self, node: &Strong)
        ensures
            exists|hooked: &mut V|
                *hooked == *old(self) && *final(hooked) == *final(self) && #[trigger] call_ensures(
                    <V as Visitor>::visit_strong,
                    (hooked, node),
                    (),
                ),
    {
        Visitor::visit_strong(self, node)
    }

    fn exit_strong(&mut self, node: &Strong)
        ensures
            exists|hooked: &mut V|
                *hooked == *old(self) && *final(hooked) == *final(self) && #[trigger] call_ensures(
                    <V as Visitor>::exit_strong,
                    (hooked, node),
                    (),
                ),
    {
        Visitor::exit_strong(self, node)
    }

    fn visit_text_or_placeholder(&mut self, node: &TextOrPlaceholder)
        ensures
            exists|hooked: &mut V|
                *hooked == *old(self) && *final(hooked) == *final(self) && #[trigger] call_ensures(
                    <V as Visitor>::visit_text_or_placeholder,
                    (hooked, node),
                    (),
                ),
    {
        Visitor::visit_text_or_placeholder(self, node)
    }

    fn exit_text_or_placeholder(&mut self, node: &TextOrPlaceholder)
        ensures
            exists|hooked: &mut V|
                *hooked == *old(self) && *final(hooked) == *final(self) && #[trigger] call_ensures(
                    <V as Visitor>::exit_text_or_placeholder,
                    (hooked, node),
                    (),
                ),
    {
        Visitor::exit_text_or_placeholder(self, node)
    }

    fn visit_thematic_break(&mut self)
        ensures
            exists|hooked: &mut V|
                *hooked == *old(self) && *final(hooked) == *final(self) && #[trigger] call_ensures(
                    <V as Visitor>::visit_thematic_break,
                    (hooked,),
                    (),
                ),
    {
        Visitor::visit_thematic_break(self)
    }

    fn exit_thematic_break(&mut self)
        ensures
            exists|hooked: &mut V|
                *hooked == *old(self) && *final(hooked) == *final(self) && #[trigger] call_ensures(
                    <V as Visitor>::exit_thematic_break,
                    (hooked,),
                    (),
                ),
    {
        Visitor::exit_thematic_break(self)
    }

    fn visit_hard_line_break(&mut self)
        ensures
            exists|hooked: &mut V|
                *hooked == *old(self) && *final(hooked) == *final(self) && #[trigger] call_ensures(
                    <V as Visitor>::visit_hard_line_break,
                    (hooked,),
                    (),
                ),
    {
        Visitor::visit_hard_line_break(self)
    }

    fn exit_hard_line_break(&mut self)
        ensures
            exists|hooked: &mut V|
                *hooked == *old(self) && *final(hooked) == *final(self) && #[trigger] call_ensures(
                    <V as Visitor>::exit_hard_line_break,
                    (hooked,),
                    (),
                ),
    {
        Visitor::exit_hard_line_break(self)
    }

    fn visit_icu_pound(&mut self)
        ensures
            exists|hooked: &mut V|
                *hooked == *old(self) && *final(hooked) == *final(self) && #[trigger] call_ensures(
                    <V as Visitor>::visit_icu_pound,
                    (hooked,),
                    (),
                ),
    {
        Visitor::visit_icu_pound(self)
    }

    fn exit_icu_pound(&mut self)
        ensures
            exists|hooked: &mut V|
                *hooked == *old(self) && *final(hooked) == *final(self) && #[trigger] call_ensures(
                    <V as Visitor>::exit_icu_pound,
                    (hooked,),
                    (),
                ),
    {
        Visitor::exit_icu_pound(self)
    }

    fn visit_text(&mut self, node: &String)
        ensures
            exists|hooked: &mut V|
                *hooked == *old(self) && *final(hooked) == *final(self) && #[trigger] call_ensures(
                    <V as Visitor>::visit_text,
                    (hooked, node),
                    (),
                ),
    {
        Visitor::visit_text(self, node)
    }

    fn exit_text(&mut self, node: &String)
        ensures
            exists|hooked: &mut V|
                *hooked == *old(self) && *final(hooked) == *final(self) && #[trigger] call_ensures(
                    <V as Visitor>::exit_text,
                    (hooked, node),
                    (),
                ),
    {
        Visitor::exit_text(self, node)
    }
}

/// Walks `document` once, depth first, calling the hooks of `visitor` on the
/// way.
pub fn visit_with_mut<V: Listener>(visitor: &mut V, document: &Document)
    ensures
        receives(*old(visitor), document_events(*document), *final(visitor)),
{
    Traversal::traverse_document(visitor, document);
}

/// The traversal engine: one routine per node kind, none of which keeps any
/// state of its own.
pub struct Traversal;

impl Traversal {
    /// Walks `nodes` in sequence order, each through `traverse_func`, which
    /// has to deliver the events of the node it is given.
    pub fn traverse_children<V: Listener, N: Walk, F>(
        visitor: &mut V,
        nodes: &Vec<N>,
        mut traverse_func: F,
    ) where F: FnMut(&mut V, &N) -> ()
        requires
            forall|v: &mut V, i: int|
                0 <= i < nodes.len() ==> call_requires(traverse_func, (v, &nodes[i])),
            forall|v: &mut V, node: &N|
                call_ensures(traverse_func, (v, node), ()) ==> receives(
                    *v,
                    node.events(),
                    *final(v),
                ),
        ensures
            receives(*old(visitor), children_events(nodes@), *final(visitor)),
    {
        let ghost pre = *visitor;
        let mut i: usize = 0;
        while i < nodes.len()
            invariant
                i <= nodes.len(),
                forall|v: &mut V, i: int|
                    0 <= i < nodes.len() ==> call_requires(traverse_func, (v, &nodes[i])),
                forall|v: &mut V, node: &N|
                    call_ensures(traverse_func, (v, node), ()) ==> receives(
                        *v,
                        node.events(),
                        *final(v),
                    ),
                receives(pre, children_events(nodes@.take(i as int)), *visitor),
            decreases nodes.len() - i,
        {
            let ghost before = *visitor;
            traverse_func(visitor, &nodes[i]);
            proof {
                let done = nodes@.take(i as int);
                let next = nodes@.take(i + 1);
                assert(next.drop_last() =~= done);
                assert(next.last() == nodes@[i as int]);
                receives_concat(
                    pre,
                    children_events(done),
                    before,
                    nodes@[i as int].events(),
                    *visitor,
                );
            }
            i += 1;
        }
        proof {
            assert(nodes@.take(nodes.len() as int) =~= nodes@);
        }
    }

    /// Walks a run of inline nodes in sequence order.
    pub fn traverse_inline_children<V: Listener>(visitor: &mut V, children: &Vec<InlineContent>)
        ensures
            receives(*old(visitor), inlines_events(children@), *final(visitor)),
        decreases children, 3int,
    {
        let ghost pre = *visitor;
        let mut i: usize = 0;
        while i < children.len()
            invariant
                i <= children.len(),
                receives(pre, inlines_events(children@.take(i as int)), *visitor),
            decreases children.len() - i,
        {
            let ghost before = *visitor;
            Self::traverse_inline_content(visitor, &children[i]);
            proof {
                let done = children@.take(i as int);
                let next = children@.take(i + 1);
                assert(next.drop_last() =~= done);
                assert(next.last() == children@[i as int]);
                receives_concat(
                    pre,
                    inlines_events(done),
                    before,
                    inline_events(children@[i as int]),
                    *visitor,
                );
            }
            i += 1;
        }
        proof {
            assert(children@.take(children.len() as int) =~= children@);
        }
    }

    /// Walks the arms of a plural or a select in declared order.
    pub fn traverse_icu_plural_arms<V: Listener>(visitor: &mut V, arms: &Vec<IcuPluralArm>)
        ensures
            receives(*old(visitor), arms_events(arms@), *final(visitor)),
        decreases arms, 1int,
    {
        let ghost pre = *visitor;
        let mut i: usize = 0;
        while i < arms.len()
            invariant
                i <= arms.len(),
                receives(pre, arms_events(arms@.take(i as int)), *visitor),
            decreases arms.len() - i,
        {
            let ghost before = *visitor;
            Self::traverse_icu_plural_arm(visitor, &arms[i]);
            proof {
                let done = arms@.take(i as int);
                let next = arms@.take(i + 1);
                assert(next.drop_last() =~= done);
                assert(next.last() == arms@[i as int]);
                receives_concat(
                    pre,
                    arms_events(done),
                    before,
                    icu_plural_arm_events(arms@[i as int]),
                    *visitor,
                );
            }
            i += 1;
        }
        proof {
            assert(arms@.take(arms.len() as int) =~= arms@);
        }
    }

    /// Walks a document: its enter, each block in sequence order, its exit.
    pub fn traverse_document<V: Listener>(visitor: &mut V, node: &Document)
        ensures
            receives(*old(visitor), document_events(*node), *final(visitor)),
    {
        let ghost pre = *visitor;
        visitor.visit_document(node);
        let ghost entered = *visitor;
        Self::traverse_children(visitor, node.blocks(), Self::traverse_block_node);
        let ghost walked = *visitor;
        visitor.exit_document(node);
        proof {
            children_events_of_blocks(node.blocks@);
            receives_bracket(
                pre,
                Node::Document(*node),
                entered,
                blocks_events(node.blocks@),
                walked,
                *visitor,
            );
        }
    }

    /// Walks a block: the generic block hooks around the walk of the kind that
    /// is present.
    pub fn traverse_block_node<V: Listener>(visitor: &mut V, node: &BlockNode)
        ensures
            receives(*old(visitor), block_events(*node), *final(visitor)),
        decreases node, 2int,
    {
        let ghost pre = *visitor;
        visitor.visit_block_node(node);
        let ghost entered = *visitor;
        match node {
            BlockNode::Paragraph(paragraph) => Self::traverse_paragraph(visitor, paragraph),
            BlockNode::Heading(heading) => Self::traverse_heading(visitor, heading),
            BlockNode::CodeBlock(code_block) => Self::traverse_code_block(visitor, code_block),
            BlockNode::ThematicBreak => {
                visitor.visit_thematic_break();
                let ghost inside = *visitor;
                visitor.exit_thematic_break();
                proof {
                    receives_leaf(entered, Node::ThematicBreak, inside, *visitor);
                }
            },
            BlockNode::InlineContent(inline_content) => {
                Self::traverse_inline_children(visitor, inline_content)
            },
        }
        let ghost walked = *visitor;
        visitor.exit_block_node(node);
        proof {
            receives_bracket(
                pre,
                Node::BlockNode(*node),
                entered,
                block_inner_events(*node),
                walked,
                *visitor,
            );
        }
    }

    /// Walks an inline node: the generic inline hooks around the walk of the
    /// kind that is present.
    pub fn traverse_inline_content<V: Listener>(visitor: &mut V, content: &InlineContent)
        ensures
            receives(*old(visitor), inline_events(*content), *final(visitor)),
        decreases content, 2int,
    {
        let ghost pre = *visitor;
        visitor.visit_inline_content(content);
        let ghost entered = *visitor;
        match content {
            InlineContent::Text(text) => Self::traverse_text(visitor, text),
            InlineContent::Emphasis(emphasis) => Self::traverse_emphasis(visitor, emphasis),
            InlineContent::Strong(strong) => Self::traverse_strong(visitor, strong),
            InlineContent::Link(link) => Self::traverse_link(visitor, link),
            InlineContent::CodeSpan(code_span) => Self::traverse_code_span(visitor, code_span),
            InlineContent::Hook(hook) => Self::traverse_hook(visitor, hook),
            InlineContent::Strikethrough(strikethrough) => {
                Self::traverse_strikethrough(visitor, strikethrough)
            },
            InlineContent::Icu(icu) => Self::traverse_icu(visitor, icu),
            InlineContent::IcuPound => {
                visitor.visit_icu_pound();
                let ghost inside = *visitor;
                visitor.exit_icu_pound();
                proof {
                    receives_leaf(entered, Node::IcuPound, inside, *visitor);
                }
            },
            InlineContent::HardLineBreak => {
                visitor.visit_hard_line_break();
                let ghost inside = *visitor;
                visitor.exit_hard_line_break();
                proof {
                    receives_leaf(entered, Node::HardLineBreak, inside, *visitor);
                }
            },
        }
        let ghost walked = *visitor;
        visitor.exit_inline_content(content);
        proof {
            receives_bracket(
                pre,
                Node::InlineContent(*content),
                entered,
                inline_inner_events(*content),
                walked,
                *visitor,
            );
        }
    }

    /// Walks an ICU expression: the generic ICU hooks around the walk of the
    /// kind that is present.
    pub fn traverse_icu<V: Listener>(visitor: &mut V, icu: &Icu)
        ensures
            receives(*old(visitor), icu_events(*icu), *final(visitor)),
        decreases icu, 2int,
    {
        let ghost pre = *visitor;
        visitor.visit_icu(icu);
        let ghost entered = *visitor;
        match icu {
            Icu::IcuVariable(variable) => Self::traverse_icu_variable(visitor, variable),
            Icu::IcuPlural(plural) => Self::traverse_icu_plural(visitor, plural),
            Icu::IcuSelect(select) => Self::traverse_icu_select(visitor, select),
            Icu::IcuDate(date) => Self::traverse_icu_date(visitor, date),
            Icu::IcuTime(time) => Self::traverse_icu_time(visitor, time),
            Icu::IcuNumber(number) => Self::traverse_icu_number(visitor, number),
        }
        let ghost walked = *visitor;
        visitor.exit_icu(icu);
        proof {
            receives_bracket(
                pre,
                Node::Icu(*icu),
                entered,
                icu_inner_events(*icu),
                walked,
                *visitor,
            );
        }
    }

    /// Walks the destination of a link: always entered and left, walked into
    /// only where it is a placeholder.
    pub fn traverse_link_destination<V: Listener>(visitor: &mut V, handler: &TextOrPlaceholder)
        ensures
            receives(*old(visitor), link_destination_events(*handler), *final(visitor)),
        decreases handler, 1int,
    {
        let ghost pre = *visitor;
        visitor.visit_link_destination(handler);
        let ghost entered = *visitor;
        // A literal destination is no visible content: only a placeholder is walked.
        match handler {
            TextOrPlaceholder::Placeholder(placeholder) => Self::traverse_icu(visitor, placeholder),
            TextOrPlaceholder::Text(_) => {},
        }
        let ghost walked = *visitor;
        visitor.exit_link_destination(handler);
        proof {
            receives_bracket(
                pre,
                Node::LinkDestination(*handler),
                entered,
                link_destination_inner_events(*handler),
                walked,
                *visitor,
            );
        }
    }

    /// Walks a paragraph: its enter, its content in sequence order, its exit.
    pub fn traverse_paragraph<V: Listener>(visitor: &mut V, node: &Paragraph)
        ensures
            receives(*old(visitor), paragraph_events(*node), *final(visitor)),
        decreases node, 0int,
    {
        let ghost pre = *visitor;
        visitor.visit_paragraph(node);
        let ghost entered = *visitor;
        Self::traverse_inline_children(visitor, node.content());
        let ghost walked = *visitor;
        visitor.exit_paragraph(node);
        proof {
            receives_bracket(
                pre,
                Node::Paragraph(*node),
                entered,
                inlines_events(node.content@),
                walked,
                *visitor,
            );
        }
    }

    /// Walks a heading: its enter, its content in sequence order, its exit.
    pub fn traverse_heading<V: Listener>(visitor: &mut V, heading: &Heading)
        ensures
            receives(*old(visitor), heading_events(*heading), *final(visitor)),
        decreases heading, 0int,
    {
        let ghost pre = *visitor;
        visitor.visit_heading(heading);
        let ghost entered = *visitor;
        Self::traverse_inline_children(visitor, heading.content());
        let ghost walked = *visitor;
        visitor.exit_heading(heading);
        proof {
            receives_bracket(
                pre,
                Node::Heading(*heading),
                entered,
                inlines_events(heading.content@),
                walked,
                *visitor,
            );
        }
    }

    /// Walks a code block: its enter, at once followed by its exit.
    pub fn traverse_code_block<V: Listener>(visitor: &mut V, code_block: &CodeBlock)
        ensures
            receives(*old(visitor), code_block_events(*code_block), *final(visitor)),
    {
        let ghost pre = *visitor;
        visitor.visit_code_block(code_block);
        let ghost entered = *visitor;
        visitor.exit_code_block(code_block);
        proof {
            receives_leaf(pre, Node::CodeBlock(*code_block), entered, *visitor);
        }
    }

    /// Walks a text: its enter, at once followed by its exit.
    pub fn traverse_text<V: Listener>(visitor: &mut V, text: &String)
        ensures
            receives(*old(visitor), text_events(*text), *final(visitor)),
    {
        let ghost pre = *visitor;
        visitor.visit_text(text);
        let ghost entered = *visitor;
        visitor.exit_text(text);
        proof {
            receives_leaf(pre, Node::Text(*text), entered, *visitor);
        }
    }

    /// Walks an emphasis: its enter, its content in sequence order, its exit.
    pub fn traverse_emphasis<V: Listener>(visitor: &mut V, emphasis: &Emphasis)
        ensures
            receives(*old(visitor), emphasis_events(*emphasis), *final(visitor)),
        decreases emphasis, 0int,
    {
        let ghost pre = *visitor;
        visitor.visit_emphasis(emphasis);
        let ghost entered = *visitor;
        Self::traverse_inline_children(visitor, emphasis.content());
        let ghost walked = *visitor;
        visitor.exit_emphasis(emphasis);
        proof {
            receives_bracket(
                pre,
                Node::Emphasis(*emphasis),
                entered,
                inlines_events(emphasis.content@),
                walked,
                *visitor,
            );
        }
    }

    /// Walks a strong emphasis: its enter, its content in sequence order, its
    /// exit.
    pub fn traverse_strong<V: Listener>(visitor: &mut V, strong: &Strong)
        ensures
            receives(*old(visitor), strong_events(*strong), *final(visitor)),
        decreases strong, 0int,
    {
        let ghost pre = *visitor;
        visitor.visit_strong(strong);
        let ghost entered = *visitor;
        Self::traverse_inline_children(visitor, strong.content());
        let ghost walked = *visitor;
        visitor.exit_strong(strong);
        proof {
            receives_bracket(
                pre,
                Node::Strong(*strong),
                entered,
                inlines_events(strong.content@),
                walked,
                *visitor,
            );
        }
    }

    /// Walks a strikethrough: its enter, its content in sequence order, its
    /// exit.
    pub fn traverse_strikethrough<V: Listener>(visitor: &mut V, strikethrough: &Strikethrough)
        ensures
            receives(*old(visitor), strikethrough_events(*strikethrough), *final(visitor)),
        decreases strikethrough, 0int,
    {
        let ghost pre = *visitor;
        visitor.visit_strikethrough(strikethrough);
        let ghost entered = *visitor;
        Self::traverse_inline_children(visitor, strikethrough.content());
        let ghost walked = *visitor;
        visitor.exit_strikethrough(strikethrough);
        proof {
            receives_bracket(
                pre,
                Node::Strikethrough(*strikethrough),
                entered,
                inlines_events(strikethrough.content@),
                walked,
                *visitor,
            );
        }
    }

    /// Walks a link: its enter, its label in sequence order, its destination,
    /// its exit.
    pub fn traverse_link<V: Listener>(visitor: &mut V, link: &Link)
        ensures
            receives(*old(visitor), link_events(*link), *final(visitor)),
        decreases link, 2int,
    {
        let ghost pre = *visitor;
        visitor.visit_link(link);
        let ghost entered = *visitor;
        Self::traverse_inline_children(visitor, link.label());
        let ghost labelled = *visitor;
        Self::traverse_link_destination(visitor, link.destination());
        let ghost walked = *visitor;
        visitor.exit_link(link);
        proof {
            receives_concat(
                entered,
                inlines_events(link.label@),
                labelled,
                link_destination_events(link.destination),
                walked,
            );
            receives_bracket(
                pre,
                Node::Link(*link),
                entered,
                inlines_events(link.label@) + link_destination_events(link.destination),
                walked,
                *visitor,
            );
        }
    }

    /// Walks a hook: its enter, its content in sequence order, its exit.
    pub fn traverse_hook<V: Listener>(visitor: &mut V, hook: &Hook)
        ensures
            receives(*old(visitor), hook_events(*hook), *final(visitor)),
        decreases hook, 0int,
    {
        let ghost pre = *visitor;
        visitor.visit_hook(hook);
        let ghost entered = *visitor;
        Self::traverse_inline_children(visitor, hook.content());
        let ghost walked = *visitor;
        visitor.exit_hook(hook);
        proof {
            receives_bracket(
                pre,
                Node::Hook(*hook),
                entered,
                inlines_events(hook.content@),
                walked,
                *visitor,
            );
        }
    }

    /// Walks a code span: its enter, at once followed by its exit.
    pub fn traverse_code_span<V: Listener>(visitor: &mut V, code_span: &CodeSpan)
        ensures
            receives(*old(visitor), code_span_events(*code_span), *final(visitor)),
    {
        let ghost pre = *visitor;
        visitor.visit_code_span(code_span);
        let ghost entered = *visitor;
        visitor.exit_code_span(code_span);
        proof {
            receives_leaf(pre, Node::CodeSpan(*code_span), entered, *visitor);
        }
    }

    /// Walks a variable: its enter, at once followed by its exit.
    pub fn traverse_icu_variable<V: Listener>(visitor: &mut V, variable: &IcuVariable)
        ensures
            receives(*old(visitor), icu_variable_events(*variable), *final(visitor)),
    {
        let ghost pre = *visitor;
        visitor.visit_icu_variable(variable);
        let ghost entered = *visitor;
        visitor.exit_icu_variable(variable);
        proof {
            receives_leaf(pre, Node::IcuVariable(*variable), entered, *visitor);
        }
    }

    /// Walks a plural: its enter, its variable, its arms in declared order,
    /// its exit.
    pub fn traverse_icu_plural<V: Listener>(visitor: &mut V, plural: &IcuPlural)
        ensures
            receives(*old(visitor), icu_plural_events(*plural), *final(visitor)),
        decreases plural, 0int,
    {
        let ghost pre = *visitor;
        visitor.visit_icu_plural(plural);
        let ghost entered = *visitor;
        Self::traverse_icu_variable(visitor, plural.variable());
        let ghost named = *visitor;
        Self::traverse_icu_plural_arms(visitor, plural.arms());
        let ghost walked = *visitor;
        visitor.exit_icu_plural(plural);
        proof {
            receives_concat(
                entered,
                icu_variable_events(plural.variable),
                named,
                arms_events(plural.arms@),
                walked,
            );
            receives_bracket(
                pre,
                Node::IcuPlural(*plural),
                entered,
                icu_variable_events(plural.variable) + arms_events(plural.arms@),
                walked,
                *visitor,
            );
        }
    }

    /// Walks an arm: its enter, its content in sequence order, its exit.
    pub fn traverse_icu_plural_arm<V: Listener>(visitor: &mut V, arm: &IcuPluralArm)
        ensures
            receives(*old(visitor), icu_plural_arm_events(*arm), *final(visitor)),
        decreases arm, 0int,
    {
        let ghost pre = *visitor;
        visitor.visit_icu_plural_arm(arm);
        let ghost entered = *visitor;
        Self::traverse_inline_children(visitor, arm.content());
        let ghost walked = *visitor;
        visitor.exit_icu_plural_arm(arm);
        proof {
            receives_bracket(
                pre,
                Node::IcuPluralArm(*arm),
                entered,
                inlines_events(arm.content@),
                walked,
                *visitor,
            );
        }
    }

    /// Walks a select: its enter, its variable, its arms in declared order,
    /// its exit.
    pub fn traverse_icu_select<V: Listener>(visitor: &mut V, select: &IcuSelect)
        ensures
            receives(*old(visitor), icu_select_events(*select), *final(visitor)),
        decreases select, 0int,
    {
        let ghost pre = *visitor;
        visitor.visit_icu_select(select);
        let ghost entered = *visitor;
        Self::traverse_icu_variable(visitor, select.variable());
        let ghost named = *visitor;
        Self::traverse_icu_plural_arms(visitor, select.arms());
        let ghost walked = *visitor;
        visitor.exit_icu_select(select);
        proof {
            receives_concat(
                entered,
                icu_variable_events(select.variable),
                named,
                arms_events(select.arms@),
                walked,
            );
            receives_bracket(
                pre,
                Node::IcuSelect(*select),
                entered,
                icu_variable_events(select.variable) + arms_events(select.arms@),
                walked,
                *visitor,
            );
        }
    }

    /// Walks a date: its enter, its variable, its style where it has one, its
    /// exit.
    pub fn traverse_icu_date<V: Listener>(visitor: &mut V, date: &IcuDate)
        ensures
            receives(*old(visitor), icu_date_events(*date), *final(visitor)),
    {
        let ghost pre = *visitor;
        visitor.visit_icu_date(date);
        let ghost entered = *visitor;
        Self::traverse_icu_variable(visitor, date.variable());
        let ghost named = *visitor;
        if let Some(style) = date.style.as_ref() {
            Self::traverse_icu_date_time_style(visitor, style);
        }
        let ghost walked = *visitor;
        visitor.exit_icu_date(date);
        proof {
            receives_concat(
                entered,
                icu_variable_events(date.variable),
                named,
                date_time_style_events(date.style),
                walked,
            );
            receives_bracket(
                pre,
                Node::IcuDate(*date),
                entered,
                icu_variable_events(date.variable) + date_time_style_events(date.style),
                walked,
                *visitor,
            );
        }
    }

    /// Walks a date or time style: its enter, at once followed by its exit.
    pub fn traverse_icu_date_time_style<V: Listener>(visitor: &mut V, style: &IcuDateTimeStyle)
        ensures
            receives(*old(visitor), icu_date_time_style_events(*style), *final(visitor)),
    {
        let ghost pre = *visitor;
        visitor.visit_icu_date_time_style(style);
        let ghost entered = *visitor;
        visitor.exit_icu_date_time_style(style);
        proof {
            receives_leaf(pre, Node::IcuDateTimeStyle(*style), entered, *visitor);
        }
    }

    /// Walks a time: its enter, its variable, its style where it has one, its
    /// exit.
    pub fn traverse_icu_time<V: Listener>(visitor: &mut V, time: &IcuTime)
        ensures
            receives(*old(visitor), icu_time_events(*time), *final(visitor)),
    {
        let ghost pre = *visitor;
        visitor.visit_icu_time(time);
        let ghost entered = *visitor;
        Self::traverse_icu_variable(visitor, time.variable());
        let ghost named = *visitor;
        if let Some(style) = time.style.as_ref() {
            Self::traverse_icu_date_time_style(visitor, style);
        }
        let ghost walked = *visitor;
        visitor.exit_icu_time(time);
        proof {
            receives_concat(
                entered,
                icu_variable_events(time.variable),
                named,
                date_time_style_events(time.style),
                walked,
            );
            receives_bracket(
                pre,
                Node::IcuTime(*time),
                entered,
                icu_variable_events(time.variable) + date_time_style_events(time.style),
                walked,
                *visitor,
            );
        }
    }

    /// Walks a number: its enter, its style where it has one, its exit.
    pub fn traverse_icu_number<V: Listener>(visitor: &mut V, number: &IcuNumber)
        ensures
            receives(*old(visitor), icu_number_events(*number), *final(visitor)),
    {
        let ghost pre = *visitor;
        visitor.visit_icu_number(number);
        let ghost entered = *visitor;
        if let Some(style) = number.style.as_ref() {
            Self::traverse_icu_number_style(visitor, style);
        }
        let ghost walked = *visitor;
        visitor.exit_icu_number(number);
        proof {
            receives_bracket(
                pre,
                Node::IcuNumber(*number),
                entered,
                number_style_events(number.style),
                walked,
                *visitor,
            );
        }
    }

    /// Walks a number style: its enter, at once followed by its exit.
    pub fn traverse_icu_number_style<V: Listener>(visitor: &mut V, style: &IcuNumberStyle)
        ensures
            receives(*old(visitor), icu_number_style_events(*style), *final(visitor)),
    {
        let ghost pre = *visitor;
        visitor.visit_icu_number_style(style);
        let ghost entered = *visitor;
        visitor.exit_icu_number_style(style);
        proof {
            receives_leaf(pre, Node::IcuNumberStyle(*style), entered, *visitor);
        }
    }
}

} // verus!
