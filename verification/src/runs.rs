//! Runs of the reconciliation machine over many events, and what holds of the
//! writes that a run asks for.

use crate::annotator::marker_text;
use crate::reconciler::{
    lemma_transition_well_formed, lemma_write_only_when_out_of_step, severity_of, transition,
    ActionView, EventView, MachineView, Phase, Severity, StepView,
};
use crate::synchronizer::{outcome_of, AttributeView, Outcome};
use vstd::prelude::*;

verus! {

/// The machine fed a sequence of events, one after the other: the state it
/// ends in and the steps it took.
pub open spec fn run(state: MachineView, events: Seq<EventView>) -> (MachineView, Seq<StepView>)
    decreases events.len(),
{
    if events.len() == 0 {
        (state, Seq::empty())
    } else {
        let (next, step) = transition(state, events[0]);
        let (last, steps) = run(next, events.drop_first());
        (last, seq![step] + steps)
    }
}

/// The machine is at work on the target groups of its current service.
pub open spec fn on_target_groups(state: MachineView) -> bool {
    state.phase == Phase::Describing || state.phase == Phase::Writing
}

/// The target group that a step asks to write to, if it asks for a write.
pub open spec fn written_by(step: StepView) -> Seq<Seq<char>> {
    match step.action {
        ActionView::WriteAttribute { target_group, attribute } => seq![target_group],
        _ => Seq::empty(),
    }
}

/// The target groups that the machine asks to write to, in order, from this
/// state on and for as long as it stays with its current service.
pub open spec fn writes_for_service(state: MachineView, events: Seq<EventView>) -> Seq<Seq<char>>
    decreases events.len(),
{
    if events.len() == 0 {
        Seq::empty()
    } else {
        let (next, step) = transition(state, events[0]);
        if on_target_groups(next) && next.pending.len() == state.pending.len() {
            written_by(step) + writes_for_service(next, events.drop_first())
        } else {
            written_by(step)
        }
    }
}

/// The first list can be had from the second by leaving entries out: its
/// entries occur in the second list in the same order, each at a place of its
/// own.
pub open spec fn embeds(part: Seq<Seq<char>>, whole: Seq<Seq<char>>) -> bool
    decreases whole.len(),
{
    if part.len() == 0 {
        true
    } else if whole.len() == 0 {
        false
    } else if part[0] == whole[0] {
        embeds(part.drop_first(), whole.drop_first())
    } else {
        embeds(part, whole.drop_first())
    }
}

/// What it means to be embedded: there are places in the whole, in ascending
/// order and no two alike, at which the entries of the part stand.
pub proof fn lemma_embedded_has_places(part: Seq<Seq<char>>, whole: Seq<Seq<char>>) -> (places:
    Seq<int>)
    requires
        embeds(part, whole),
    ensures
        places.len() == part.len(),
        forall|i: int|
            0 <= i < places.len() ==> 0 <= #[trigger] places[i] < whole.len() && whole[places[i]]
                == part[i],
        forall|i: int, j: int|
            0 <= i < j < places.len() ==> #[trigger] places[i] < #[trigger] places[j],
    decreases whole.len(),
{
    if part.len() == 0 {
        Seq::empty()
    } else if part[0] == whole[0] {
        let rest = lemma_embedded_has_places(part.drop_first(), whole.drop_first());
        let places = seq![0int] + rest.map_values(|place: int| place + 1);
        assert forall|i: int| 0 <= i < places.len() implies 0 <= #[trigger] places[i]
            < whole.len() && whole[places[i]] == part[i] by {
            if i > 0 {
                assert(places[i] == rest[i - 1] + 1);
                assert(whole.drop_first()[rest[i - 1]] == part.drop_first()[i - 1]);
            }
        }
        assert forall|i: int, j: int| 0 <= i < j < places.len() implies #[trigger] places[i]
            < #[trigger] places[j] by {
            assert(places[j] == rest[j - 1] + 1);
            if i > 0 {
                assert(places[i] == rest[i - 1] + 1);
            }
        }
        places
    } else {
        let rest = lemma_embedded_has_places(part, whole.drop_first());
        let places = rest.map_values(|place: int| place + 1);
        assert forall|i: int| 0 <= i < places.len() implies 0 <= #[trigger] places[i]
            < whole.len() && whole[places[i]] == part[i] by {
            assert(whole.drop_first()[rest[i]] == part[i]);
        }
        places
    }
}

/// A list that can be had by leaving entries out is no longer than the whole.
pub proof fn lemma_embedded_is_no_longer(part: Seq<Seq<char>>, whole: Seq<Seq<char>>)
    requires
        embeds(part, whole),
    ensures
        part.len() <= whole.len(),
    decreases whole.len(),
{
    if part.len() > 0 && whole.len() > 0 {
        if part[0] == whole[0] {
            lemma_embedded_is_no_longer(part.drop_first(), whole.drop_first());
        } else {
            lemma_embedded_is_no_longer(part, whole.drop_first());
        }
    }
}

/// Leaving out the first entry of a list that is embedded keeps it embedded.
proof fn lemma_embeds_without_first(part: Seq<Seq<char>>, whole: Seq<Seq<char>>)
    requires
        embeds(part, whole),
        part.len() > 0,
    ensures
        embeds(part.drop_first(), whole),
    decreases whole.len(), 1int,
{
    if part[0] == whole[0] {
        lemma_embeds_in_longer(part.drop_first(), whole);
    } else {
        lemma_embeds_without_first(part, whole.drop_first());
        lemma_embeds_in_longer(part.drop_first(), whole);
    }
}

/// What is embedded in a list without its first entry is embedded in the list.
proof fn lemma_embeds_in_longer(part: Seq<Seq<char>>, whole: Seq<Seq<char>>)
    requires
        whole.len() > 0,
        embeds(part, whole.drop_first()),
    ensures
        embeds(part, whole),
    decreases whole.len(), 0int,
{
    if part.len() > 0 && part[0] == whole[0] {
        lemma_embeds_without_first(part, whole.drop_first());
    }
}

/// In a pass, each target group of a service is written to at most once.
/// Whatever events arrive while the machine works on the target groups of a
/// service, the writes it asks for go to target groups of that service that
/// are not finished, in their order, each to a place of its own in the list;
/// while a write is under way, no further write goes to its target group.
pub proof fn lemma_one_write_per_target_group(state: MachineView, events: Seq<EventView>)
    requires
        state.well_formed(),
        on_target_groups(state),
    ensures
        state.phase == Phase::Describing ==> embeds(
            writes_for_service(state, events),
            state.groups,
        ),
        state.phase == Phase::Writing ==> embeds(
            writes_for_service(state, events),
            state.groups.drop_first(),
        ),
        writes_for_service(state, events).len() <= state.groups.len(),
    decreases events.len(),
{
    let writes = writes_for_service(state, events);
    if events.len() > 0 {
        let (next, step) = transition(state, events[0]);
        let rest = events.drop_first();
        if on_target_groups(next) && next.pending.len() == state.pending.len() {
            lemma_transition_well_formed(state, events[0]);
            lemma_one_write_per_target_group(next, rest);
            let later = writes_for_service(next, rest);
            if step.action is WriteAttribute {
                lemma_write_only_when_out_of_step(state, events[0]);
                assert(writes =~= seq![state.groups[0]] + later);
                assert(writes.drop_first() =~= later);
            } else {
                assert(writes =~= later);
                assert(next.phase == Phase::Describing);
                assert(next.groups == state.groups.drop_first());
                if state.phase == Phase::Describing {
                    lemma_embeds_in_longer(later, state.groups);
                }
            }
        } else {
            if step.action is WriteAttribute {
                lemma_write_only_when_out_of_step(state, events[0]);
            }
            assert(writes =~= Seq::<Seq<char>>::empty());
        }
    }
    if state.phase == Phase::Describing {
        lemma_embedded_is_no_longer(writes, state.groups);
    } else {
        lemma_embedded_is_no_longer(writes, state.groups.drop_first());
    }
}

/// What arrives for one target group when every call succeeds: its listing,
/// and after that the word that the write went through, if the listing called
/// for a write.
pub open spec fn answers_for_target_group(
    enable: bool,
    listing: Option<Seq<AttributeView>>,
) -> Seq<EventView> {
    match outcome_of(enable, listing) {
        Outcome::Modified => seq![EventView::Described(listing), EventView::Written],
        Outcome::Unchanged => seq![EventView::Described(listing)],
    }
}

/// What arrives while the machine works through target groups with these
/// listings, one after the other, and every call succeeds.
pub open spec fn answers(enable: bool, listings: Seq<Option<Seq<AttributeView>>>) -> Seq<EventView>
    decreases listings.len(),
{
    if listings.len() == 0 {
        Seq::empty()
    } else {
        answers_for_target_group(enable, listings[0]) + answers(enable, listings.drop_first())
    }
}

/// The step reports no failure.
pub open spec fn untroubled(step: StepView) -> bool {
    match step.report {
        Some(report) => severity_of(report) != Severity::Error,
        None => true,
    }
}

/// A service whose calls all succeed ends its turn with the patch that records
/// what was done. From the first of its target groups on, the machine works
/// through all of them without reporting a failure, and its last step asks to
/// patch that service with the marker of the state asked for: `*` after
/// enabling, the empty text after disabling.
pub proof fn lemma_service_ends_with_patch(
    state: MachineView,
    listings: Seq<Option<Seq<AttributeView>>>,
)
    requires
        state.well_formed(),
        state.phase == Phase::Describing,
        listings.len() == state.groups.len(),
    ensures
        ({
            let task = state.pending[0];
            let (last, steps) = run(state, answers(task.enable, listings));
            &&& last == (MachineView {
                phase: Phase::Annotating,
                pending: state.pending,
                groups: Seq::empty(),
            })
            &&& steps.len() > 0
            &&& steps.last().action == (ActionView::PatchService {
                namespace: task.namespace,
                name: task.name,
                marker: marker_text(task.enable),
            })
            &&& forall|i: int| 0 <= i < steps.len() ==> untroubled(#[trigger] steps[i])
        }),
    decreases listings.len(),
{
    let task = state.pending[0];
    let events = answers(task.enable, listings);
    let later = answers(task.enable, listings.drop_first());
    let described = EventView::Described(listings[0]);
    let (listed, first) = transition(state, described);
    assert(state.groups.drop_first().len() == 0 ==> state.groups.drop_first() =~= Seq::empty());
    match outcome_of(task.enable, listings[0]) {
        Outcome::Modified => {
            let (done, second) = transition(listed, EventView::Written);
            assert(events =~= seq![described, EventView::Written] + later);
            assert(events.drop_first() =~= seq![EventView::Written] + later);
            assert(events.drop_first().drop_first() =~= later);
            let (last, steps) = run(done, later);
            assert(run(listed, events.drop_first()) == (last, seq![second] + steps));
            assert(run(state, events) == (last, seq![first] + (seq![second] + steps)));
            if listings.len() > 1 {
                lemma_service_ends_with_patch(done, listings.drop_first());
            } else {
                assert(later =~= Seq::empty());
            }
        },
        Outcome::Unchanged => {
            assert(events =~= seq![described] + later);
            assert(events.drop_first() =~= later);
            let (last, steps) = run(listed, later);
            assert(run(state, events) == (last, seq![first] + steps));
            if listings.len() > 1 {
                lemma_service_ends_with_patch(listed, listings.drop_first());
            } else {
                assert(later =~= Seq::empty());
            }
        },
    }
}

} // verus!
