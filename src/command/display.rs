use vstd::prelude::*;

use crate::command::cli::{AppMode, AppState, FormView};
use crate::command::data::Provider;
use crate::text::{lower_of, lowercase};

verus! {

/// One provider in the selection list.
#[derive(Debug, Clone, PartialEq, Eq)]
pub struct ProviderLine {
    pub label: String,
    pub highlighted: bool,
}

/// One field of the form as it is to be drawn.
#[derive(Debug, Clone, PartialEq, Eq)]
pub struct FieldLine {
    pub label: String,
    pub display_value: String,
    pub focused: bool,
    pub empty: bool,
}

/// What the terminal draws for one state of the form. While a provider is
/// being selected `fields` is empty; while fields are filled `providers` is.
#[derive(Debug, Clone, PartialEq, Eq)]
pub struct DisplayModel {
    pub title: String,
    pub providers: Vec<ProviderLine>,
    pub fields: Vec<FieldLine>,
    pub hint: String,
}

/// The abstract content of a `DisplayModel`.
pub struct DisplayView {
    pub title: Seq<char>,
    pub providers: Seq<(Seq<char>, bool)>,
    pub fields: Seq<(Seq<char>, Seq<char>, bool, bool)>,
    pub hint: Seq<char>,
}

impl View for ProviderLine {
    type V = (Seq<char>, bool);

    open spec fn view(&self) -> (Seq<char>, bool) {
        (self.label@, self.highlighted)
    }
}

impl View for FieldLine {
    type V = (Seq<char>, Seq<char>, bool, bool);

    open spec fn view(&self) -> (Seq<char>, Seq<char>, bool, bool) {
        (self.label@, self.display_value@, self.focused, self.empty)
    }
}

impl View for DisplayModel {
    type V = DisplayView;

    open spec fn view(&self) -> DisplayView {
        DisplayView {
            title: self.title@,
            providers: self.providers@.map_values(|l: ProviderLine| l@),
            fields: self.fields@.map_values(|l: FieldLine| l@),
            hint: self.hint@,
        }
    }
}

pub open spec fn provider_name(p: Provider) -> Seq<char> {
    match p {
        Provider::AWS => "AWS S3"@,
        Provider::GoogleDrive => "Google Drive"@,
        Provider::Dropbox => "Dropbox"@,
    }
}

pub open spec fn heading(p: Option<Provider>) -> Seq<char> {
    match p {
        Some(Provider::AWS) => "Configure AWS S3 Settings"@,
        Some(Provider::GoogleDrive) => "Configure Google Drive Settings"@,
        Some(Provider::Dropbox) => "Configure Dropbox Settings"@,
        None => "Configure Settings"@,
    }
}

/// What a field shows: its value, or a prompt built from its lowered label
/// while the value is empty.
pub open spec fn shown_value(value: Seq<char>, lowered_label: Seq<char>) -> Seq<char> {
    if value.len() == 0 {
        "Enter "@ + lowered_label
    } else {
        value
    }
}

pub open spec fn provider_line(s: FormView, i: int) -> (Seq<char>, bool) {
    (provider_name(s.providers[i]), i == s.provider_index)
}

pub open spec fn field_line(s: FormView, i: int) -> (Seq<char>, Seq<char>, bool, bool) {
    let (label, value) = s.fields[i];
    (label, shown_value(value, lower_of(label)), i == s.focus, value.len() == 0)
}

/// The display of a form state.
pub open spec fn display_of(s: FormView) -> DisplayView {
    match s.mode {
        AppMode::SelectingProvider => DisplayView {
            title: "Select a Cloud Storage Provider"@,
            providers: Seq::new(s.providers.len(), |i: int| provider_line(s, i)),
            fields: Seq::empty(),
            hint: "Use ↑↓ to navigate, Enter to select, 'q' to quit"@,
        },
        AppMode::FillingFields => DisplayView {
            title: heading(s.selected),
            providers: Seq::empty(),
            fields: Seq::new(s.fields.len(), |i: int| field_line(s, i)),
            hint: "Use ↑↓ to navigate fields, type to input, Enter to submit, Esc to go back, 'q' to quit"@,
        },
    }
}

/// The name shown for `p` in the selection list.
pub fn provider_label(p: Provider) -> (r: String)
    ensures
        r@ == provider_name(p),
{
    match p {
        Provider::AWS => String::from_str("AWS S3"),
        Provider::GoogleDrive => String::from_str("Google Drive"),
        Provider::Dropbox => String::from_str("Dropbox"),
    }
}

/// The title of the field entry screen for `p`.
pub fn title_for(p: Option<Provider>) -> (r: String)
    ensures
        r@ == heading(p),
{
    match p {
        Some(Provider::AWS) => String::from_str("Configure AWS S3 Settings"),
        Some(Provider::GoogleDrive) => String::from_str("Configure Google Drive Settings"),
        Some(Provider::Dropbox) => String::from_str("Configure Dropbox Settings"),
        None => String::from_str("Configure Settings"),
    }
}

/// The text shown in a field: `value` itself, or "Enter " followed by the
/// lowered label while `value` is empty.
pub fn display_value(value: &str, lowered_label: &str) -> (r: String)
    ensures
        r@ == shown_value(value@, lowered_label@),
{
    if value.is_empty() {
        String::from_str("Enter ").concat(lowered_label)
    } else {
        String::from_str(value)
    }
}

/// Computes what to draw for the current state of the form. It reads the
/// state only, and changes nothing.
pub fn project(app: &AppState) -> (r: DisplayModel)
    ensures
        r@ == display_of(app@),
{
    match app.mode {
        AppMode::SelectingProvider => {
            let mut providers: Vec<ProviderLine> = Vec::new();
            let mut i: usize = 0;
            while i < app.available_providers.len()
                invariant
                    app.mode == AppMode::SelectingProvider,
                    i <= app.available_providers@.len(),
                    providers@.len() == i,
                    forall|k: int| 0 <= k < i ==> #[trigger] providers@[k]@ == provider_line(app@, k),
                decreases app.available_providers@.len() - i,
            {
                let line = ProviderLine {
                    label: provider_label(app.available_providers[i]),
                    highlighted: i == app.selected_provider_index,
                };
                providers.push(line);
                i += 1;
            }
            let r = DisplayModel {
                title: String::from_str("Select a Cloud Storage Provider"),
                providers,
                fields: Vec::new(),
                hint: String::from_str("Use ↑↓ to navigate, Enter to select, 'q' to quit"),
            };
            assert(r@.providers =~= display_of(app@).providers);
            assert(r@.fields =~= display_of(app@).fields);
            r
        },
        AppMode::FillingFields => {
            let mut fields: Vec<FieldLine> = Vec::new();
            let mut i: usize = 0;
            while i < app.input_fields.len()
                invariant
                    app.mode == AppMode::FillingFields,
                    i <= app.input_fields@.len(),
                    fields@.len() == i,
                    forall|k: int| 0 <= k < i ==> #[trigger] fields@[k]@ == field_line(app@, k),
                decreases app.input_fields@.len() - i,
            {
                let label = app.input_fields[i].0.as_str();
                let value = app.input_fields[i].1.as_str();
                let lowered = lowercase(label);
                let line = FieldLine {
                    label: String::from_str(label),
                    display_value: display_value(value, lowered.as_str()),
                    focused: i == app.selected_input_index,
                    empty: value.is_empty(),
                };
                fields.push(line);
                assert(fields@[i as int]@ == field_line(app@, i as int));
                i += 1;
            }
            let r = DisplayModel {
                title: title_for(app.selected_provider),
                providers: Vec::new(),
                fields,
                hint: String::from_str(
                    "Use ↑↓ to navigate fields, type to input, Enter to submit, Esc to go back, 'q' to quit",
                ),
            };
            assert(r@.providers =~= display_of(app@).providers);
            assert(r@.fields =~= display_of(app@).fields);
            r
        },
    }
}

} // verus!
