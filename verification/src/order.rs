//! What the canonical order promises about particular shapes of tree.

use crate::ast::{Document, IcuPlural, IcuPluralArm, IcuSelect, IcuVariable, TextOrPlaceholder};
use crate::events::{
    arms_events, blocks_events, bracket, document_events, icu_events, icu_inner_events,
    icu_plural_arm_events, icu_plural_events, icu_select_events, icu_variable_events,
    inlines_events, leaf, link_destination_events, Event, Node,
};
use crate::nesting::{
    counts_of_concat, counts_of_one, depth, matched_arms, matched_icu_inner, matched_inlines,
    matched_is_nested, nested,
};
use vstd::prelude::*;

verus! {

/// How many nodes are open when the event at `index` arrives.
pub open spec fn level_at(events: Seq<Event>, index: int) -> int {
    depth(events.take(index))
}

/// Whether `event` belongs to the generic ICU hook pair.
pub open spec fn is_icu_event(event: Event) -> bool {
    match event {
        Event::Enter(node) => node is Icu,
        Event::Exit(node) => node is Icu,
    }
}

/// The walk of a document without blocks is the document's enter followed at
/// once by its exit: no block hook is called in between.
pub proof fn empty_document_has_two_events(document: Document)
    requires
        document.blocks@.len() == 0,
    ensures
        document_events(document) == seq![
            Event::Enter(Node::Document(document)),
            Event::Exit(Node::Document(document)),
        ],
{
    assert(blocks_events(document.blocks@) =~= Seq::<Event>::empty());
    assert(document_events(document) =~= seq![
        Event::Enter(Node::Document(document)),
        Event::Exit(Node::Document(document)),
    ]);
}

/// A destination that is a literal string is entered and left and nothing
/// more: no ICU hook is called for it.
pub proof fn literal_destination_is_not_walked(destination: TextOrPlaceholder)
    requires
        destination is Text,
    ensures
        link_destination_events(destination) == leaf(Node::LinkDestination(destination)),
        forall|i: int|
            0 <= i < link_destination_events(destination).len() ==> !is_icu_event(
                #[trigger] link_destination_events(destination)[i],
            ),
{
    assert(link_destination_events(destination) =~= leaf(Node::LinkDestination(destination)));
}

/// A destination that is a placeholder is walked into once: its expression is
/// entered right after the destination and left right before it, and no
/// other ICU hook is called with only the destination open.
pub proof fn placeholder_destination_is_walked_once(destination: TextOrPlaceholder)
    requires
        destination is Placeholder,
    ensures
        ({
            let icu = destination->Placeholder_0;
            let events = link_destination_events(destination);
            &&& events == bracket(Node::LinkDestination(destination), icu_events(icu))
            &&& events.len() >= 4
            &&& events[1] == Event::Enter(Node::Icu(icu))
            &&& events[events.len() - 2] == Event::Exit(Node::Icu(icu))
            &&& forall|i: int|
                0 <= i < events.len() && events[i] is Enter && is_icu_event(events[i]) && level_at(
                    events,
                    i,
                ) == 1 ==> i == 1
            &&& forall|i: int|
                0 <= i < events.len() && events[i] is Exit && is_icu_event(events[i]) && level_at(
                    events,
                    i + 1,
                ) == 1 ==> i == events.len() - 2
        }),
{
    let icu = destination->Placeholder_0;
    let events = link_destination_events(destination);
    let inner = icu_inner_events(icu);
    let head = seq![Event::Enter(Node::LinkDestination(destination)), Event::Enter(Node::Icu(icu))];
    matched_icu_inner(icu);
    matched_is_nested(inner);
    assert(events =~= head + inner + seq![
        Event::Exit(Node::Icu(icu)),
        Event::Exit(Node::LinkDestination(destination)),
    ]);
    counts_of_one(Event::Enter(Node::LinkDestination(destination)));
    counts_of_one(Event::Enter(Node::Icu(icu)));
    counts_of_concat(
        seq![Event::Enter(Node::LinkDestination(destination))],
        seq![Event::Enter(Node::Icu(icu))],
    );
    assert(seq![Event::Enter(Node::LinkDestination(destination))] + seq![
        Event::Enter(Node::Icu(icu)),
    ] =~= head);
    assert forall|i: int| 2 <= i <= inner.len() + 2 implies level_at(events, i) == 2 + depth(
        #[trigger] inner.take(i - 2),
    ) by {
        assert(events.take(i) =~= head + inner.take(i - 2));
        counts_of_concat(head, inner.take(i - 2));
    }
    assert forall|i: int|
        0 <= i < events.len() && events[i] is Enter && is_icu_event(events[i]) && level_at(
            events,
            i,
        ) == 1 implies i == 1 by {
        if 2 <= i < inner.len() + 2 {
            assert(level_at(events, i) == 2 + depth(inner.take(i - 2)));
        }
    }
    assert forall|i: int|
        0 <= i < events.len() && events[i] is Exit && is_icu_event(events[i]) && level_at(
            events,
            i + 1,
        ) == 1 implies i == events.len() - 2 by {
        if 2 <= i < inner.len() + 2 {
            assert(level_at(events, i + 1) == 2 + depth(inner.take(i + 1 - 2)));
        }
    }
}

/// The walk of a run of arms is the walk of its first part followed by the
/// walk of the rest.
pub proof fn arms_events_of_concat(first: Seq<IcuPluralArm>, second: Seq<IcuPluralArm>)
    ensures
        arms_events(first + second) == arms_events(first) + arms_events(second),
    decreases second.len(),
{
    if second.len() == 0 {
        assert(first + second =~= first);
        assert(arms_events(first) + arms_events(second) =~= arms_events(first));
    } else {
        arms_events_of_concat(first, second.drop_last());
        assert((first + second).drop_last() =~= first + second.drop_last());
        assert((first + second).last() == second.last());
        assert((arms_events(first) + arms_events(second.drop_last())) + icu_plural_arm_events(
            second.last(),
        ) =~= arms_events(first) + (arms_events(second.drop_last()) + icu_plural_arm_events(
            second.last(),
        )));
    }
}

/// Where, among the events of a run of arms, the arm at `index` is entered:
/// after the whole walk of every arm declared before it.
pub open spec fn arm_offset(arms: Seq<IcuPluralArm>, index: int) -> int {
    arms_events(arms.take(index)).len() as int
}

/// Each arm of a run is entered at its offset, with no arm before it still
/// open, and an arm declared later is entered later.
pub proof fn arms_are_entered_in_declared_order(arms: Seq<IcuPluralArm>, index: int)
    requires
        0 <= index < arms.len(),
    ensures
        0 <= arm_offset(arms, index) < arms_events(arms).len(),
        arms_events(arms)[arm_offset(arms, index)] == Event::Enter(
            Node::IcuPluralArm(arms[index]),
        ),
        depth(arms_events(arms).take(arm_offset(arms, index))) == 0,
        forall|earlier: int|
            0 <= earlier < index ==> arm_offset(arms, earlier) < arm_offset(arms, index),
{
    let before = arms.take(index);
    let upto = arms.take(index + 1);
    let after = arms.skip(index + 1);
    let own = icu_plural_arm_events(arms[index]);
    assert(upto.drop_last() =~= before);
    assert(upto.last() == arms[index]);
    assert(upto + after =~= arms);
    arms_events_of_concat(upto, after);
    assert(arms_events(upto) == arms_events(before) + own);
    assert(own[0] == Event::Enter(Node::IcuPluralArm(arms[index])));
    assert(arms_events(arms).take(arm_offset(arms, index)) =~= arms_events(before));
    matched_arms(before);
    matched_is_nested(arms_events(before));
    assert forall|earlier: int| 0 <= earlier < index implies arm_offset(arms, earlier)
        < arm_offset(arms, index) by {
        let head = arms.take(earlier + 1);
        let tail = before.skip(earlier + 1);
        assert(head + tail =~= before);
        arms_events_of_concat(head, tail);
        assert(head.drop_last() =~= arms.take(earlier));
        assert(head.last() == arms[earlier]);
        assert(icu_plural_arm_events(arms[earlier]).len() >= 2);
    }
}

/// In the walk of a plural the variable is entered and left first, and only
/// then the arms, each at its turn in declared order with nothing but the
/// plural open.
pub proof fn plural_walks_variable_then_arms(plural: IcuPlural, index: int)
    requires
        0 <= index < plural.arms@.len(),
    ensures
        ({
            let events = icu_plural_events(plural);
            let at = 3 + arm_offset(plural.arms@, index);
            &&& events[1] == Event::Enter(Node::IcuVariable(plural.variable))
            &&& events[2] == Event::Exit(Node::IcuVariable(plural.variable))
            &&& 2 < at < events.len()
            &&& events[at] == Event::Enter(Node::IcuPluralArm(plural.arms@[index]))
            &&& level_at(events, at) == 1
            &&& forall|earlier: int|
                0 <= earlier < index ==> arm_offset(plural.arms@, earlier) < arm_offset(
                    plural.arms@,
                    index,
                )
        }),
{
    variable_then_arms(Node::IcuPlural(plural), plural.variable, plural.arms@, index);
}

/// In the walk of a select the variable is entered and left first, and only
/// then the arms, each at its turn in declared order with nothing but the
/// select open.
pub proof fn select_walks_variable_then_arms(select: IcuSelect, index: int)
    requires
        0 <= index < select.arms@.len(),
    ensures
        ({
            let events = icu_select_events(select);
            let at = 3 + arm_offset(select.arms@, index);
            &&& events[1] == Event::Enter(Node::IcuVariable(select.variable))
            &&& events[2] == Event::Exit(Node::IcuVariable(select.variable))
            &&& 2 < at < events.len()
            &&& events[at] == Event::Enter(Node::IcuPluralArm(select.arms@[index]))
            &&& level_at(events, at) == 1
            &&& forall|earlier: int|
                0 <= earlier < index ==> arm_offset(select.arms@, earlier) < arm_offset(
                    select.arms@,
                    index,
                )
        }),
{
    variable_then_arms(Node::IcuSelect(select), select.variable, select.arms@, index);
}

/// What a plural and a select have in common: a node that brackets the walk
/// of a variable followed by the walk of arms.
proof fn variable_then_arms(
    node: Node,
    variable: IcuVariable,
    arms: Seq<IcuPluralArm>,
    index: int,
)
    requires
        0 <= index < arms.len(),
    ensures
        ({
            let events = bracket(node, icu_variable_events(variable) + arms_events(arms));
            let at = 3 + arm_offset(arms, index);
            &&& events[1] == Event::Enter(Node::IcuVariable(variable))
            &&& events[2] == Event::Exit(Node::IcuVariable(variable))
            &&& 2 < at < events.len()
            &&& events[at] == Event::Enter(Node::IcuPluralArm(arms[index]))
            &&& level_at(events, at) == 1
            &&& forall|earlier: int|
                0 <= earlier < index ==> arm_offset(arms, earlier) < arm_offset(arms, index)
        }),
{
    let events = bracket(node, icu_variable_events(variable) + arms_events(arms));
    let head = seq![
        Event::Enter(node),
        Event::Enter(Node::IcuVariable(variable)),
        Event::Exit(Node::IcuVariable(variable)),
    ];
    let offset = arm_offset(arms, index);
    arms_are_entered_in_declared_order(arms, index);
    assert(events =~= head + arms_events(arms) + seq![Event::Exit(node)]);
    assert(events.take(3 + offset) =~= head + arms_events(arms).take(offset));
    counts_of_concat(head, arms_events(arms).take(offset));
    counts_of_one(Event::Enter(node));
    counts_of_one(Event::Enter(Node::IcuVariable(variable)));
    counts_of_one(Event::Exit(Node::IcuVariable(variable)));
    let two = seq![Event::Enter(node)] + seq![Event::Enter(Node::IcuVariable(variable))];
    counts_of_concat(seq![Event::Enter(node)], seq![Event::Enter(Node::IcuVariable(variable))]);
    counts_of_concat(two, seq![Event::Exit(Node::IcuVariable(variable))]);
    assert(two + seq![Event::Exit(Node::IcuVariable(variable))] =~= head);
}

/// Between its enter and its exit a node is open: after at least one and not
/// all of the events of a bracket, at least one node is open.
pub proof fn bracket_is_open_inside(node: Node, inner: Seq<Event>, count: int)
    requires
        nested(inner),
        1 <= count <= inner.len() + 1,
    ensures
        depth(bracket(node, inner).take(count)) >= 1,
{
    let enter = seq![Event::Enter(node)];
    let part = inner.take(count - 1);
    assert(bracket(node, inner).take(count) =~= enter + part);
    counts_of_one(Event::Enter(node));
    counts_of_concat(enter, part);
}

/// Among the events of a run of arms, no arm is open exactly where an arm of
/// the run is entered: every such place is the offset of a declared arm.
pub proof fn arms_are_entered_nowhere_else(arms: Seq<IcuPluralArm>, at: int)
    requires
        0 <= at < arms_events(arms).len(),
        depth(arms_events(arms).take(at)) == 0,
    ensures
        exists|index: int| 0 <= index < arms.len() && at == arm_offset(arms, index),
    decreases arms.len(),
{
    if arms.len() > 0 {
        let before = arms.drop_last();
        let own = icu_plural_arm_events(arms.last());
        let last = arms.len() - 1;
        assert(arms.take(last) =~= before);
        if at < arms_events(before).len() {
            assert(arms_events(arms).take(at) =~= arms_events(before).take(at));
            arms_are_entered_nowhere_else(before, at);
            let index = choose|index: int|
                0 <= index < before.len() && at == arm_offset(before, index);
            assert(before.take(index) =~= arms.take(index));
            assert(0 <= index < arms.len() && at == arm_offset(arms, index));
        } else {
            let count = at - arms_events(before).len();
            assert(arms_events(arms).take(at) =~= arms_events(before) + own.take(count));
            counts_of_concat(arms_events(before), own.take(count));
            matched_arms(before);
            matched_is_nested(arms_events(before));
            if count >= 1 {
                matched_inlines(arms.last().content@);
                matched_is_nested(inlines_events(arms.last().content@));
                bracket_is_open_inside(
                    Node::IcuPluralArm(arms.last()),
                    inlines_events(arms.last().content@),
                    count,
                );
            }
            assert(0 <= last < arms.len() && at == arm_offset(arms, last));
        }
    }
}

/// In the walk of a plural, an arm that is entered with nothing but the plural
/// open is one of the declared arms at its turn: no other arm hook is called
/// at that level.
pub proof fn plural_enters_only_its_arms(plural: IcuPlural, at: int)
    requires
        0 <= at < icu_plural_events(plural).len(),
        icu_plural_events(plural)[at] is Enter,
        icu_plural_events(plural)[at]->Enter_0 is IcuPluralArm,
        level_at(icu_plural_events(plural), at) == 1,
    ensures
        exists|index: int|
            0 <= index < plural.arms@.len() && at == 3 + arm_offset(plural.arms@, index),
{
    only_arms_after_variable(Node::IcuPlural(plural), plural.variable, plural.arms@, at);
}

/// In the walk of a select, an arm that is entered with nothing but the select
/// open is one of the declared arms at its turn: no other arm hook is called
/// at that level.
pub proof fn select_enters_only_its_arms(select: IcuSelect, at: int)
    requires
        0 <= at < icu_select_events(select).len(),
        icu_select_events(select)[at] is Enter,
        icu_select_events(select)[at]->Enter_0 is IcuPluralArm,
        level_at(icu_select_events(select), at) == 1,
    ensures
        exists|index: int|
            0 <= index < select.arms@.len() && at == 3 + arm_offset(select.arms@, index),
{
    only_arms_after_variable(Node::IcuSelect(select), select.variable, select.arms@, at);
}

proof fn only_arms_after_variable(
    node: Node,
    variable: IcuVariable,
    arms: Seq<IcuPluralArm>,
    at: int,
)
    requires
        ({
            let events = bracket(node, icu_variable_events(variable) + arms_events(arms));
            &&& 0 <= at < events.len()
            &&& events[at] is Enter
            &&& events[at]->Enter_0 is IcuPluralArm
            &&& level_at(events, at) == 1
        }),
    ensures
        exists|index: int| 0 <= index < arms.len() && at == 3 + arm_offset(arms, index),
{
    let events = bracket(node, icu_variable_events(variable) + arms_events(arms));
    let head = seq![
        Event::Enter(node),
        Event::Enter(Node::IcuVariable(variable)),
        Event::Exit(Node::IcuVariable(variable)),
    ];
    assert(events =~= head + arms_events(arms) + seq![Event::Exit(node)]);
    assert(3 <= at < 3 + arms_events(arms).len());
    let inside = at - 3;
    assert(events.take(at) =~= head + arms_events(arms).take(inside));
    counts_of_concat(head, arms_events(arms).take(inside));
    counts_of_one(Event::Enter(node));
    counts_of_one(Event::Enter(Node::IcuVariable(variable)));
    counts_of_one(Event::Exit(Node::IcuVariable(variable)));
    let two = seq![Event::Enter(node)] + seq![Event::Enter(Node::IcuVariable(variable))];
    counts_of_concat(seq![Event::Enter(node)], seq![Event::Enter(Node::IcuVariable(variable))]);
    counts_of_concat(two, seq![Event::Exit(Node::IcuVariable(variable))]);
    assert(two + seq![Event::Exit(Node::IcuVariable(variable))] =~= head);
    arms_are_entered_nowhere_else(arms, inside);
    let index = choose|index: int| 0 <= index < arms.len() && inside == arm_offset(arms, index);
    assert(0 <= index < arms.len() && at == 3 + arm_offset(arms, index));
}

} // verus!
