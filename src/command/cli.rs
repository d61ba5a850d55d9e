use vstd::prelude::*;

use crate::command::data::{catalog, field_labels, Provider};
use crate::text::{pop_char, push_char, trim, trim_of};

verus! {

/// The two modes of the form.
#[derive(Debug, Clone, Copy, PartialEq, Eq, Structural)]
pub enum AppMode {
    SelectingProvider,
    FillingFields,
}

impl Default for AppMode {
    fn default() -> (r: Self)
        ensures
            r == AppMode::SelectingProvider,
    {
        AppMode::SelectingProvider
    }
}

/// One input event read from the terminal.
#[derive(Debug, Clone, Copy, PartialEq, Eq, Structural)]
pub enum InputEvent {
    MoveUp,
    MoveDown,
    Confirm,
    Cancel,
    Quit,
    TextInput(char),
    Backspace,
}

/// What the caller of `handle_event` is to do next.
#[derive(Debug)]
pub enum Outcome {
    /// Keep reading events.
    Continue,
    /// The user asked to leave; the session ends.
    Quit,
    /// Confirm was refused: some field is blank after trimming.
    Incomplete,
    /// The form is complete: hand this provider and these fields to the upload.
    Submitted(Provider, Vec<(String, String)>),
}

/// Labelled field values, as sequences of characters.
pub type FieldsView = Seq<(Seq<char>, Seq<char>)>;

/// The abstract state of a form session.
pub struct FormView {
    pub mode: AppMode,
    pub providers: Seq<Provider>,
    pub provider_index: int,
    pub selected: Option<Provider>,
    pub fields: FieldsView,
    pub focus: int,
}

/// The interactive form: provider selection, then entry of that provider's fields.
pub struct AppState {
    pub mode: AppMode,
    pub available_providers: Vec<Provider>,
    pub selected_provider_index: usize,
    pub selected_provider: Option<Provider>,
    pub input_fields: Vec<(String, String)>,
    pub selected_input_index: usize,
}

pub open spec fn fields_view(v: Seq<(String, String)>) -> FieldsView {
    v.map_values(|f: (String, String)| (f.0@, f.1@))
}

impl View for AppState {
    type V = FormView;

    open spec fn view(&self) -> FormView {
        FormView {
            mode: self.mode,
            providers: self.available_providers@,
            provider_index: self.selected_provider_index as int,
            selected: self.selected_provider,
            fields: fields_view(self.input_fields@),
            focus: self.selected_input_index as int,
        }
    }
}

/// The fields of `p`, in catalog order, all with empty values.
pub open spec fn empty_fields(p: Provider) -> FieldsView {
    catalog(p).map_values(|l: Seq<char>| (l, Seq::<char>::empty()))
}

/// Every field value is non-empty once trimmed.
pub open spec fn fields_complete(fields: FieldsView) -> bool {
    forall|i: int| 0 <= i < fields.len() ==> #[trigger] trim_of(fields[i].1).len() > 0
}

impl FormView {
    /// A reachable state: a valid provider cursor, no fields while selecting,
    /// and the selected provider's catalog fields with a valid focus while filling.
    pub open spec fn wf(self) -> bool {
        &&& self.providers.len() > 0
        &&& 0 <= self.provider_index < self.providers.len()
        &&& (self.selected is None <==> self.mode == AppMode::SelectingProvider)
        &&& self.mode == AppMode::SelectingProvider ==> self.fields.len() == 0 && self.focus == 0
        &&& self.mode == AppMode::FillingFields ==> {
            &&& self.fields.len() == catalog(self.selected->0).len()
            &&& (forall|i: int|
                0 <= i < self.fields.len() ==> #[trigger] self.fields[i].0 == catalog(
                    self.selected->0,
                )[i])
            &&& 0 <= self.focus < self.fields.len()
        }
    }

    /// The state with the focused field's value replaced by `v`.
    pub open spec fn with_focused_value(self, v: Seq<char>) -> FormView {
        FormView {
            fields: self.fields.update(self.focus, (self.fields[self.focus].0, v)),
            ..self
        }
    }
}

/// A new session over `providers`, selecting the first one.
pub open spec fn initial(providers: Seq<Provider>) -> FormView {
    FormView {
        mode: AppMode::SelectingProvider,
        providers,
        provider_index: 0,
        selected: None,
        fields: Seq::empty(),
        focus: 0,
    }
}

/// The state after one event.
pub open spec fn step(s: FormView, ev: InputEvent) -> FormView {
    match s.mode {
        AppMode::SelectingProvider => match ev {
            InputEvent::MoveDown => if s.provider_index + 1 < s.providers.len() {
                FormView { provider_index: s.provider_index + 1, ..s }
            } else {
                s
            },
            InputEvent::MoveUp => if s.provider_index > 0 {
                FormView { provider_index: s.provider_index - 1, ..s }
            } else {
                s
            },
            InputEvent::Confirm => {
                let p = s.providers[s.provider_index];
                FormView {
                    mode: AppMode::FillingFields,
                    selected: Some(p),
                    fields: empty_fields(p),
                    focus: 0,
                    ..s
                }
            },
            _ => s,
        },
        AppMode::FillingFields => match ev {
            InputEvent::Cancel => FormView {
                mode: AppMode::SelectingProvider,
                selected: None,
                fields: Seq::empty(),
                focus: 0,
                ..s
            },
            InputEvent::MoveDown => if s.focus + 1 < s.fields.len() {
                FormView { focus: s.focus + 1, ..s }
            } else {
                s
            },
            InputEvent::MoveUp => if s.focus > 0 {
                FormView { focus: s.focus - 1, ..s }
            } else {
                s
            },
            InputEvent::TextInput(c) => if 0 <= s.focus < s.fields.len() {
                s.with_focused_value(s.fields[s.focus].1.push(c))
            } else {
                s
            },
            InputEvent::Backspace => if 0 <= s.focus < s.fields.len() && s.fields[s.focus].1.len()
                > 0 {
                s.with_focused_value(s.fields[s.focus].1.drop_last())
            } else {
                s
            },
            _ => s,
        },
    }
}

/// What `handle_event` returns for `ev` in state `s`.
pub open spec fn outcome_matches(o: Outcome, s: FormView, ev: InputEvent) -> bool {
    if ev == InputEvent::Quit {
        o is Quit
    } else if s.mode == AppMode::FillingFields && ev == InputEvent::Confirm {
        if fields_complete(s.fields) {
            o matches Outcome::Submitted(p, f) && Some(p) == s.selected && fields_view(f@)
                == s.fields
        } else {
            o is Incomplete
        }
    } else {
        o is Continue
    }
}

/// Fills the form's fields from the catalog entry of the selected provider,
/// all values empty, and moves the focus to the first field. Without a
/// selected provider the fields are left as they are.
pub fn set_fields_for_providers(app: &mut AppState)
    ensures
        final(app).mode == old(app).mode,
        final(app).available_providers == old(app).available_providers,
        final(app).selected_provider_index == old(app).selected_provider_index,
        final(app).selected_provider == old(app).selected_provider,
        final(app).selected_input_index == 0,
        old(app).selected_provider matches Some(p) ==> fields_view(final(app).input_fields@)
            == empty_fields(p),
        old(app).selected_provider is None ==> final(app).input_fields == old(app).input_fields,
{
    match app.selected_provider {
        Some(p) => {
            let labels = field_labels(p);
            let mut fields: Vec<(String, String)> = Vec::new();
            let mut i: usize = 0;
            while i < labels.len()
                invariant
                    i <= labels@.len(),
                    fields@.len() == i,
                    labels@.len() == catalog(p).len(),
                    forall|k: int| 0 <= k < labels@.len() ==> #[trigger] labels@[k]@ == catalog(
                        p,
                    )[k],
                    fields_view(fields@) =~= empty_fields(p).take(i as int),
                decreases labels@.len() - i,
            {
                let label = labels[i].clone();
                let value = String::new();
                fields.push((label, value));
                proof {
                    assert(fields_view(fields@)[i as int] == empty_fields(p)[i as int]);
                }
                i += 1;
            }
            assert(empty_fields(p).take(i as int) =~= empty_fields(p));
            app.input_fields = fields;
        },
        None => {},
    }
    app.selected_input_index = 0;
}

impl AppState {
    /// A new session over `available_providers`, with the first one highlighted.
    pub fn new(available_providers: Vec<Provider>) -> (r: AppState)
        requires
            available_providers@.len() > 0,
        ensures
            r@ == initial(available_providers@),
            r@.wf(),
    {
        let r = AppState {
            mode: AppMode::SelectingProvider,
            available_providers,
            selected_provider_index: 0,
            selected_provider: None,
            input_fields: Vec::new(),
            selected_input_index: 0,
        };
        assert(fields_view(r.input_fields@) =~= Seq::empty());
        r
    }

    /// Applies one event to the form and says whether the session goes on.
    pub fn handle_event(&mut self, ev: InputEvent) -> (r: Outcome)
        requires
            old(self)@.wf(),
        ensures
            final(self)@ == step(old(self)@, ev),
            final(self)@.wf(),
            outcome_matches(r, old(self)@, ev),
    {
        if let InputEvent::Quit = ev {
            return Outcome::Quit;
        }
        match self.mode {
            AppMode::SelectingProvider => {
                match ev {
                    InputEvent::MoveDown => {
                        if self.selected_provider_index < self.available_providers.len() - 1 {
                            self.selected_provider_index += 1;
                        }
                    },
                    InputEvent::MoveUp => {
                        if self.selected_provider_index > 0 {
                            self.selected_provider_index -= 1;
                        }
                    },
                    InputEvent::Confirm => {
                        self.select_provider();
                    },
                    _ => {},
                }
                Outcome::Continue
            },
            AppMode::FillingFields => {
                match ev {
                    InputEvent::Cancel => {
                        self.cancel();
                        Outcome::Continue
                    },
                    InputEvent::MoveDown => {
                        if self.selected_input_index + 1 < self.input_fields.len() {
                            self.selected_input_index += 1;
                        }
                        Outcome::Continue
                    },
                    InputEvent::MoveUp => {
                        if self.selected_input_index > 0 {
                            self.selected_input_index -= 1;
                        }
                        Outcome::Continue
                    },
                    InputEvent::TextInput(c) => {
                        self.type_char(c);
                        Outcome::Continue
                    },
                    InputEvent::Backspace => {
                        self.backspace();
                        Outcome::Continue
                    },
                    InputEvent::Confirm => {
                        let complete = all_filled(&self.input_fields);
                        self.submit(complete)
                    },
                    _ => Outcome::Continue,
                }
            },
        }
    }

    /// Confirms the highlighted provider and opens its fields.
    fn select_provider(&mut self)
        requires
            old(self)@.wf(),
            old(self).mode == AppMode::SelectingProvider,
        ensures
            final(self)@ == step(old(self)@, InputEvent::Confirm),
    {
        self.selected_provider = Some(self.available_providers[self.selected_provider_index]);
        set_fields_for_providers(self);
        self.mode = AppMode::FillingFields;
    }

    /// Goes back to provider selection, discarding every field.
    fn cancel(&mut self)
        requires
            old(self)@.wf(),
            old(self).mode == AppMode::FillingFields,
        ensures
            final(self)@ == step(old(self)@, InputEvent::Cancel),
    {
        self.mode = AppMode::SelectingProvider;
        self.selected_provider = None;
        self.input_fields.clear();
        self.selected_input_index = 0;
        assert(fields_view(self.input_fields@) =~= Seq::empty());
    }

    /// Appends `c` to the focused field.
    fn type_char(&mut self, c: char)
        requires
            old(self)@.wf(),
            old(self).mode == AppMode::FillingFields,
        ensures
            final(self)@ == step(old(self)@, InputEvent::TextInput(c)),
    {
        let i = self.selected_input_index;
        if i < self.input_fields.len() {
            push_char(&mut self.input_fields[i].1, c);
            assert(fields_view(self.input_fields@) =~= step(
                old(self)@,
                InputEvent::TextInput(c),
            ).fields);
        }
    }

    /// Removes the last character of the focused field, if it has one.
    fn backspace(&mut self)
        requires
            old(self)@.wf(),
            old(self).mode == AppMode::FillingFields,
        ensures
            final(self)@ == step(old(self)@, InputEvent::Backspace),
    {
        let i = self.selected_input_index;
        if i < self.input_fields.len() {
            pop_char(&mut self.input_fields[i].1);
            assert(fields_view(self.input_fields@) =~= step(
                old(self)@,
                InputEvent::Backspace,
            ).fields);
        }
    }

    /// Finishes a Confirm in field entry, given whether every field is filled:
    /// hands out the provider and a copy of the fields when `complete`, and
    /// reports the form incomplete otherwise. The form is left as it is.
    pub fn submit(&self, complete: bool) -> (r: Outcome)
        requires
            self@.wf(),
            self.mode == AppMode::FillingFields,
        ensures
            complete ==> (r matches Outcome::Submitted(p, f) && Some(p) == self.selected_provider
                && fields_view(f@) == self@.fields),
            !complete ==> r is Incomplete,
    {
        if complete {
            match self.selected_provider {
                Some(p) => Outcome::Submitted(p, copy_fields(&self.input_fields)),
                None => Outcome::Incomplete,
            }
        } else {
            Outcome::Incomplete
        }
    }
}

/// Whether every field value is non-empty once leading and trailing
/// whitespace is removed.
pub fn all_filled(fields: &Vec<(String, String)>) -> (r: bool)
    ensures
        r == fields_complete(fields_view(fields@)),
{
    let mut i: usize = 0;
    while i < fields.len()
        invariant
            i <= fields@.len(),
            forall|k: int| 0 <= k < i ==> #[trigger] trim_of(fields@[k].1@).len() > 0,
        decreases fields@.len() - i,
    {
        if trim(fields[i].1.as_str()).is_empty() {
            assert(fields_view(fields@)[i as int].1 == fields@[i as int].1@);
            return false;
        }
        i += 1;
    }
    assert forall|k: int| 0 <= k < fields_view(fields@).len() implies #[trigger] trim_of(
        fields_view(fields@)[k].1,
    ).len() > 0 by {
        assert(fields_view(fields@)[k].1 == fields@[k].1@);
    }
    true
}

/// A copy of labelled field values.
fn copy_fields(fields: &Vec<(String, String)>) -> (r: Vec<(String, String)>)
    ensures
        fields_view(r@) == fields_view(fields@),
{
    let mut r: Vec<(String, String)> = Vec::new();
    let mut i: usize = 0;
    while i < fields.len()
        invariant
            i <= fields@.len(),
            r@.len() == i,
            fields_view(r@) =~= fields_view(fields@).take(i as int),
        decreases fields@.len() - i,
    {
        let label = fields[i].0.clone();
        let value = fields[i].1.clone();
        r.push((label, value));
        proof {
            assert(fields_view(r@)[i as int] == fields_view(fields@)[i as int]);
        }
        i += 1;
    }
    assert(fields_view(fields@).take(i as int) =~= fields_view(fields@));
    r
}

} // verus!
