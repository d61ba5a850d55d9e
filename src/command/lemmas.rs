use vstd::prelude::*;

use crate::command::cli::{
    fields_complete, fields_view, outcome_matches, step, AppMode, FormView, InputEvent, Outcome,
};
use crate::command::data::catalog;
use crate::command::display::{display_of, DisplayModel};

verus! {

/// The state after a sequence of events, applied in order.
pub open spec fn run(s: FormView, evs: Seq<InputEvent>) -> FormView
    decreases evs.len(),
{
    if evs.len() == 0 {
        s
    } else {
        run(step(s, evs[0]), evs.drop_first())
    }
}

/// The value a field holds after a sequence of edits: typing appends the
/// character, backspace removes the last one if there is one.
pub open spec fn edited(v: Seq<char>, evs: Seq<InputEvent>) -> Seq<char>
    decreases evs.len(),
{
    if evs.len() == 0 {
        v
    } else {
        let next = match evs[0] {
            InputEvent::TextInput(c) => v.push(c),
            InputEvent::Backspace => if v.len() > 0 {
                v.drop_last()
            } else {
                v
            },
            _ => v,
        };
        edited(next, evs.drop_first())
    }
}

pub open spec fn is_navigation(ev: InputEvent) -> bool {
    ev == InputEvent::MoveUp || ev == InputEvent::MoveDown
}

pub open spec fn is_edit(ev: InputEvent) -> bool {
    ev is TextInput || ev == InputEvent::Backspace
}

/// Moving up and down through the provider list never leaves it: the
/// cursor saturates at both ends and the form stays in provider selection.
pub proof fn lemma_provider_cursor_in_bounds(s: FormView, evs: Seq<InputEvent>)
    requires
        s.wf(),
        s.mode == AppMode::SelectingProvider,
        forall|i: int| 0 <= i < evs.len() ==> is_navigation(#[trigger] evs[i]),
    ensures
        run(s, evs).wf(),
        run(s, evs).mode == AppMode::SelectingProvider,
        0 <= run(s, evs).provider_index < run(s, evs).providers.len(),
        run(s, evs).providers == s.providers,
    decreases evs.len(),
{
    if evs.len() > 0 {
        let t = step(s, evs[0]);
        assert forall|i: int| 0 <= i < evs.drop_first().len() implies is_navigation(
            #[trigger] evs.drop_first()[i],
        ) by {
            assert(evs.drop_first()[i] == evs[i + 1]);
        }
        lemma_provider_cursor_in_bounds(t, evs.drop_first());
    }
}

/// Confirming a provider opens exactly its catalog fields, in order, each
/// with an empty value, with the focus on the first one.
pub proof fn lemma_confirm_provider_fields(s: FormView)
    requires
        s.wf(),
        s.mode == AppMode::SelectingProvider,
    ensures
        ({
            let p = s.providers[s.provider_index];
            let t = step(s, InputEvent::Confirm);
            &&& t.wf()
            &&& t.mode == AppMode::FillingFields
            &&& t.selected == Some(p)
            &&& t.focus == 0
            &&& t.fields.len() == catalog(p).len()
            &&& forall|i: int|
                0 <= i < t.fields.len() ==> #[trigger] t.fields[i] == (
                    catalog(p)[i],
                    Seq::<char>::empty(),
                )
        }),
{
    let p = s.providers[s.provider_index];
    assert(catalog(p).len() > 0);
}

/// Typing and backspacing on the focused field leaves it holding the net
/// effect of those edits in order; the other fields, the focus and the mode
/// are untouched.
pub proof fn lemma_edits_accumulate(s: FormView, evs: Seq<InputEvent>)
    requires
        s.wf(),
        s.mode == AppMode::FillingFields,
        forall|i: int| 0 <= i < evs.len() ==> is_edit(#[trigger] evs[i]),
    ensures
        run(s, evs).wf(),
        run(s, evs).mode == AppMode::FillingFields,
        run(s, evs).focus == s.focus,
        run(s, evs).fields.len() == s.fields.len(),
        run(s, evs).fields[s.focus].0 == s.fields[s.focus].0,
        run(s, evs).fields[s.focus].1 == edited(s.fields[s.focus].1, evs),
        forall|j: int|
            0 <= j < s.fields.len() && j != s.focus ==> #[trigger] run(s, evs).fields[j]
                == s.fields[j],
    decreases evs.len(),
{
    if evs.len() > 0 {
        let t = step(s, evs[0]);
        assert forall|i: int| 0 <= i < evs.drop_first().len() implies is_edit(
            #[trigger] evs.drop_first()[i],
        ) by {
            assert(evs.drop_first()[i] == evs[i + 1]);
        }
        assert(t.wf());
        lemma_edits_accumulate(t, evs.drop_first());
    }
}

/// Cancel during field entry goes back to provider selection and discards
/// every field, whatever they held.
pub proof fn lemma_cancel_resets(s: FormView)
    requires
        s.wf(),
        s.mode == AppMode::FillingFields,
    ensures
        step(s, InputEvent::Cancel).wf(),
        step(s, InputEvent::Cancel).mode == AppMode::SelectingProvider,
        step(s, InputEvent::Cancel).fields.len() == 0,
        step(s, InputEvent::Cancel).selected is None,
        step(s, InputEvent::Cancel).providers == s.providers,
{
}

/// Confirm during field entry submits iff every value is non-empty once
/// trimmed; a submission carries the selected provider and the fields as
/// they are, as many as the provider's catalog lists, and the form itself
/// does not change either way.
pub proof fn lemma_confirm_submits_iff_complete(s: FormView, o: Outcome)
    requires
        s.wf(),
        s.mode == AppMode::FillingFields,
        outcome_matches(o, s, InputEvent::Confirm),
    ensures
        o is Submitted <==> fields_complete(s.fields),
        !fields_complete(s.fields) ==> o is Incomplete,
        o matches Outcome::Submitted(p, f) ==> Some(p) == s.selected && fields_view(f@)
            == s.fields,
        o matches Outcome::Submitted(p, f) ==> f@.len() == catalog(p).len(),
        step(s, InputEvent::Confirm) == s,
{
    if let Outcome::Submitted(p, f) = o {
        assert(fields_view(f@).len() == f@.len());
    }
}

/// Projecting an unchanged state twice gives equal displays.
pub proof fn lemma_project_pure(s: FormView, first: DisplayModel, second: DisplayModel)
    requires
        first@ == display_of(s),
        second@ == display_of(s),
    ensures
        first@ == second@,
{
}

} // verus!
