use vstd::prelude::*;
use crate::clock::is_date_label;
use crate::clock::today_label;
use crate::config::check_fields;
use crate::config::first_missing;
use crate::config::settings_of;
use crate::config::ConfigFields;
use crate::config::FieldTexts;
use crate::config::StorageConfig;
use crate::config::StorageSettings;
use crate::identifier::draw_identifier;
use crate::identifier::is_identifier_text;
use crate::outcome::ErrorKind;
use crate::outcome::Outcome;
use crate::outcome::OutcomeTexts;
use crate::paths::document_title;
use crate::paths::local_page_path;
use crate::text::text_of;
use crate::paths::title_of_path;
use crate::render::render;
use crate::render::rendered;
use crate::storage::public_url;
use crate::storage::public_url_text;
use crate::storage::upload_for;
use crate::storage::upload_request;
use crate::storage::UploadRequest;
use crate::storage::UploadTexts;
use crate::target::resolve_with;
use crate::target::PublishTarget;
use crate::template::page_text;
use crate::template::wrap;

verus! {

/// What the operator asked for: the markup file, whether the page stays on local
/// disk, and the settings path if one is known.
#[derive(Clone, Debug, PartialEq, Eq)]
pub struct Invocation {
    pub source_path: String,
    pub local_output: bool,
    pub config_path: Option<String>,
}

/// An invocation as texts.
pub struct InvocationTexts {
    pub source_path: Seq<char>,
    pub local_output: bool,
    pub config_path: Option<Seq<char>>,
}

impl View for Invocation {
    type V = InvocationTexts;

    open spec fn view(&self) -> InvocationTexts {
        InvocationTexts {
            source_path: self.source_path@,
            local_output: self.local_output,
            config_path: text_of(self.config_path),
        }
    }
}

/// Where a run stands: what it is waiting to hear from its driver.
#[derive(Clone, Debug, PartialEq, Eq)]
pub enum State {
    /// Nothing was done yet.
    Start,
    /// Waiting to hear whether a file is at the settings path.
    ConfigProbe { path: String },
    /// Waiting for the fields of the settings file.
    ConfigLoad,
    /// Waiting for the markup text.
    SourceRead { config: StorageConfig },
    /// Waiting to hear whether a file is at the output path.
    OutputProbe { path: String, page: String },
    /// Waiting for the end of the local write.
    LocalWrite { path: String },
    /// Waiting for the end of the upload.
    Upload { url: String },
    /// The run has ended.
    Finished,
}

/// A state as texts.
pub enum StateTexts {
    Start,
    ConfigProbe { path: Seq<char> },
    ConfigLoad,
    SourceRead { config: StorageSettings },
    OutputProbe { path: Seq<char>, page: Seq<char> },
    LocalWrite { path: Seq<char> },
    Upload { url: Seq<char> },
    Finished,
}

impl View for State {
    type V = StateTexts;

    open spec fn view(&self) -> StateTexts {
        match *self {
            State::Start => StateTexts::Start,
            State::ConfigProbe { path } => StateTexts::ConfigProbe { path: path@ },
            State::ConfigLoad => StateTexts::ConfigLoad,
            State::SourceRead { config } => StateTexts::SourceRead { config: config@ },
            State::OutputProbe { path, page } => StateTexts::OutputProbe {
                path: path@,
                page: page@,
            },
            State::LocalWrite { path } => StateTexts::LocalWrite { path: path@ },
            State::Upload { url } => StateTexts::Upload { url: url@ },
            State::Finished => StateTexts::Finished,
        }
    }
}

/// What the driver reports after it has done what it was asked to do.
#[derive(Clone, Debug, PartialEq, Eq)]
pub enum Event {
    /// The run begins.
    Started,
    /// Whether a file is at the probed path.
    Probed { exists: bool },
    /// The settings file was read; these are the fields found.
    ConfigLoaded { fields: ConfigFields },
    /// The settings file could not be read as settings.
    ConfigUnreadable { detail: String },
    /// The markup file was read.
    SourceLoaded { markup: String },
    /// The markup file could not be read.
    SourceUnreadable { detail: String },
    /// The write or the upload went through.
    Stored,
    /// The write or the upload failed.
    StoreFailed { detail: String },
}

/// An event as texts.
pub enum EventTexts {
    Started,
    Probed { exists: bool },
    ConfigLoaded { fields: FieldTexts },
    ConfigUnreadable { detail: Seq<char> },
    SourceLoaded { markup: Seq<char> },
    SourceUnreadable { detail: Seq<char> },
    Stored,
    StoreFailed { detail: Seq<char> },
}

impl View for Event {
    type V = EventTexts;

    open spec fn view(&self) -> EventTexts {
        match *self {
            Event::Started => EventTexts::Started,
            Event::Probed { exists } => EventTexts::Probed { exists },
            Event::ConfigLoaded { fields } => EventTexts::ConfigLoaded { fields: fields@ },
            Event::ConfigUnreadable { detail } => EventTexts::ConfigUnreadable { detail: detail@ },
            Event::SourceLoaded { markup } => EventTexts::SourceLoaded { markup: markup@ },
            Event::SourceUnreadable { detail } => EventTexts::SourceUnreadable { detail: detail@ },
            Event::Stored => EventTexts::Stored,
            Event::StoreFailed { detail } => EventTexts::StoreFailed { detail: detail@ },
        }
    }
}

/// What the driver is asked to do next.
#[derive(Clone, Debug, PartialEq, Eq)]
pub enum Action {
    /// Find out whether a file is at the settings path.
    ProbeConfig { path: String },
    /// Read the fields of the settings file.
    LoadConfig { path: String },
    /// Read the markup file.
    ReadSource { path: String },
    /// Find out whether a file is at the output path.
    ProbeOutput { path: String },
    /// Write the page to the output path.
    WriteFile { path: String, content: String },
    /// Send the one upload.
    Upload { request: UploadRequest },
    /// Tell the operator the outcome and stop.
    Finish { outcome: Outcome },
}

/// An action as texts.
pub enum ActionTexts {
    ProbeConfig { path: Seq<char> },
    LoadConfig { path: Seq<char> },
    ReadSource { path: Seq<char> },
    ProbeOutput { path: Seq<char> },
    WriteFile { path: Seq<char>, content: Seq<char> },
    Upload { request: UploadTexts },
    Finish { outcome: OutcomeTexts },
}

impl View for Action {
    type V = ActionTexts;

    open spec fn view(&self) -> ActionTexts {
        match *self {
            Action::ProbeConfig { path } => ActionTexts::ProbeConfig { path: path@ },
            Action::LoadConfig { path } => ActionTexts::LoadConfig { path: path@ },
            Action::ReadSource { path } => ActionTexts::ReadSource { path: path@ },
            Action::ProbeOutput { path } => ActionTexts::ProbeOutput { path: path@ },
            Action::WriteFile { path, content } => ActionTexts::WriteFile {
                path: path@,
                content: content@,
            },
            Action::Upload { request } => ActionTexts::Upload { request: request@ },
            Action::Finish { outcome } => ActionTexts::Finish { outcome: outcome@ },
        }
    }
}

/// The end of a run in failure.
pub open spec fn failure(kind: ErrorKind, detail: Seq<char>) -> (StateTexts, ActionTexts) {
    (StateTexts::Finished, ActionTexts::Finish { outcome: OutcomeTexts::Failed { kind, detail } })
}

/// The end of a run with the given outcome.
pub open spec fn finish(outcome: OutcomeTexts) -> (StateTexts, ActionTexts) {
    (StateTexts::Finished, ActionTexts::Finish { outcome })
}

/// What the operator reads where a required setting is absent.
pub open spec fn missing_field_text(key: Seq<char>) -> Seq<char> {
    "missing field `"@ + key + "`"@
}

/// The page for a source path, its markup and a date label.
pub open spec fn page_of(source_path: Seq<char>, markup: Seq<char>, date_label: Seq<char>) -> Seq<
    char,
> {
    page_text(title_of_path(source_path), date_label, rendered(markup))
}

/// Whether this step renders the page, and so reads the date.
pub open spec fn renders(state: StateTexts, event: EventTexts) -> bool {
    state is SourceRead && event is SourceLoaded
}

/// What the rendering step may have drawn: the label of some date and, where the
/// page is to be uploaded, the text of some identifier.
pub open spec fn is_drawn(invocation: InvocationTexts, date_label: Seq<char>, id: Seq<char>) -> bool {
    is_date_label(date_label) && (invocation.local_output || is_identifier_text(id))
}

/// The rule of the run: the next state and the next action, for an invocation, the
/// state the run is in, what the driver reported, and the date label and identifier
/// to use where the step renders and publishes.
pub open spec fn step_rule(
    invocation: InvocationTexts,
    state: StateTexts,
    event: EventTexts,
    date_label: Seq<char>,
    id: Seq<char>,
) -> (StateTexts, ActionTexts) {
    match (state, event) {
        (StateTexts::Start, EventTexts::Started) => match invocation.config_path {
            Some(path) => (StateTexts::ConfigProbe { path }, ActionTexts::ProbeConfig { path }),
            None => failure(
                ErrorKind::ConfigurationNotFound,
                "Could not determine config file path"@,
            ),
        },
        (StateTexts::ConfigProbe { path }, EventTexts::Probed { exists }) => if exists {
            (StateTexts::ConfigLoad, ActionTexts::LoadConfig { path })
        } else {
            failure(ErrorKind::ConfigurationNotFound, "Config file not found at "@ + path)
        },
        (StateTexts::ConfigLoad, EventTexts::ConfigLoaded { fields }) => match first_missing(
            fields,
        ) {
            Some(field) => failure(
                ErrorKind::ConfigurationInvalid,
                missing_field_text(field.key()),
            ),
            None => (
                StateTexts::SourceRead { config: settings_of(fields) },
                ActionTexts::ReadSource { path: invocation.source_path },
            ),
        },
        (StateTexts::ConfigLoad, EventTexts::ConfigUnreadable { detail }) => failure(
            ErrorKind::ConfigurationInvalid,
            detail,
        ),
        (StateTexts::SourceRead { config }, EventTexts::SourceLoaded { markup }) => {
            let page = page_of(invocation.source_path, markup, date_label);
            if invocation.local_output {
                let path = local_page_path(invocation.source_path);
                (StateTexts::OutputProbe { path, page }, ActionTexts::ProbeOutput { path })
            } else {
                (
                    StateTexts::Upload { url: public_url_text(config.domain, id) },
                    ActionTexts::Upload { request: upload_for(config, id, page) },
                )
            }
        },
        (StateTexts::SourceRead { config }, EventTexts::SourceUnreadable { detail }) => failure(
            ErrorKind::SourceUnreadable,
            detail,
        ),
        (StateTexts::OutputProbe { path, page }, EventTexts::Probed { exists }) => if exists {
            finish(OutcomeTexts::AlreadyExists { path })
        } else {
            (StateTexts::LocalWrite { path }, ActionTexts::WriteFile { path, content: page })
        },
        (StateTexts::LocalWrite { path }, EventTexts::Stored) => finish(
            OutcomeTexts::Created { path },
        ),
        (StateTexts::LocalWrite { path }, EventTexts::StoreFailed { detail }) => failure(
            ErrorKind::LocalWriteFailed,
            detail,
        ),
        (StateTexts::Upload { url }, EventTexts::Stored) => finish(OutcomeTexts::Uploaded { url }),
        (StateTexts::Upload { url }, EventTexts::StoreFailed { detail }) => failure(
            ErrorKind::RemoteUploadFailed,
            detail,
        ),
        _ => failure(ErrorKind::UnexpectedEvent, "Unexpected event"@),
    }
}

fn fail(kind: ErrorKind, detail: String) -> (next: (State, Action))
    ensures
        (next.0@, next.1@) == failure(kind, detail@),
{
    (State::Finished, Action::Finish { outcome: Outcome::Failed { kind, detail } })
}

fn end(outcome: Outcome) -> (next: (State, Action))
    ensures
        (next.0@, next.1@) == finish(outcome@),
{
    (State::Finished, Action::Finish { outcome })
}

/// Renders the markup and wraps it in the page of the document at `source_path`.
pub fn compose_page(source_path: &str, markup: &str, date_label: &str) -> (page: String)
    ensures
        page@ == page_of(source_path@, markup@, date_label@),
{
    let title = document_title(source_path);
    let fragment = render(markup);
    wrap(title.as_str(), date_label, fragment.as_str())
}

/// One step of a run, with the date label and the identifier given: follows the rule
/// exactly. The two are used only by the step that renders the page, the identifier
/// only where the page is uploaded.
pub fn step_with(
    invocation: &Invocation,
    state: State,
    event: Event,
    date_label: &str,
    id: &str,
) -> (next: (State, Action))
    ensures
        (next.0@, next.1@) == step_rule(invocation@, state@, event@, date_label@, id@),
{
    match (state, event) {
        (State::Start, Event::Started) => match &invocation.config_path {
            Some(path) => (
                State::ConfigProbe { path: path.clone() },
                Action::ProbeConfig { path: path.clone() },
            ),
            None => fail(
                ErrorKind::ConfigurationNotFound,
                String::from_str("Could not determine config file path"),
            ),
        },
        (State::ConfigProbe { path }, Event::Probed { exists }) => {
            if exists {
                (State::ConfigLoad, Action::LoadConfig { path })
            } else {
                let mut detail = String::from_str("Config file not found at ");
                detail.append(path.as_str());
                fail(ErrorKind::ConfigurationNotFound, detail)
            }
        },
        (State::ConfigLoad, Event::ConfigLoaded { fields }) => match check_fields(fields) {
            Err(field) => {
                let mut detail = String::from_str("missing field `");
                detail.append(field.name());
                detail.append("`");
                fail(ErrorKind::ConfigurationInvalid, detail)
            },
            Ok(config) => (
                State::SourceRead { config },
                Action::ReadSource { path: invocation.source_path.clone() },
            ),
        },
        (State::ConfigLoad, Event::ConfigUnreadable { detail }) => fail(
            ErrorKind::ConfigurationInvalid,
            detail,
        ),
        (State::SourceRead { config }, Event::SourceLoaded { markup }) => {
            let source_path = invocation.source_path.as_str();
            let page = compose_page(source_path, markup.as_str(), date_label);
            match resolve_with(invocation.local_output, source_path, &config, id) {
                PublishTarget::Local { path } => (
                    State::OutputProbe { path: path.clone(), page },
                    Action::ProbeOutput { path },
                ),
                PublishTarget::Remote { bucket, key, domain, id } => {
                    let url = public_url(domain.as_str(), id.as_str());
                    let request = upload_request(&config, id.as_str(), page);
                    (State::Upload { url }, Action::Upload { request })
                },
            }
        },
        (State::SourceRead { config }, Event::SourceUnreadable { detail }) => fail(
            ErrorKind::SourceUnreadable,
            detail,
        ),
        (State::OutputProbe { path, page }, Event::Probed { exists }) => {
            if exists {
                end(Outcome::AlreadyExists { path })
            } else {
                (
                    State::LocalWrite { path: path.clone() },
                    Action::WriteFile { path, content: page },
                )
            }
        },
        (State::LocalWrite { path }, Event::Stored) => end(Outcome::Created { path }),
        (State::LocalWrite { path }, Event::StoreFailed { detail }) => fail(
            ErrorKind::LocalWriteFailed,
            detail,
        ),
        (State::Upload { url }, Event::Stored) => end(Outcome::Uploaded { url }),
        (State::Upload { url }, Event::StoreFailed { detail }) => fail(
            ErrorKind::RemoteUploadFailed,
            detail,
        ),
        _ => fail(ErrorKind::UnexpectedEvent, String::from_str("Unexpected event")),
    }
}

/// One step of a run. The step that renders the page reads today's date, and draws a
/// fresh identifier where the page is to be uploaded; every other step is fixed by
/// the rule alone.
pub fn step(invocation: &Invocation, state: State, event: Event) -> (next: (State, Action))
    ensures
        !renders(state@, event@) ==> (next.0@, next.1@) == step_rule(
            invocation@,
            state@,
            event@,
            Seq::<char>::empty(),
            Seq::<char>::empty(),
        ),
        renders(state@, event@) ==> exists|date_label: Seq<char>, id: Seq<char>|
            is_drawn(invocation@, date_label, id) && (next.0@, next.1@) == step_rule(
                invocation@,
                state@,
                event@,
                date_label,
                id,
            ),
{
    let rendering = match (&state, &event) {
        (State::SourceRead { .. }, Event::SourceLoaded { .. }) => true,
        _ => false,
    };
    if rendering {
        let date_label = today_label();
        let id = if invocation.local_output {
            String::new()
        } else {
            draw_identifier()
        };
        let ghost before = (state@, event@);
        let next = step_with(invocation, state, event, date_label.as_str(), id.as_str());
        assert(is_drawn(invocation@, date_label@, id@) && (next.0@, next.1@) == step_rule(
            invocation@,
            before.0,
            before.1,
            date_label@,
            id@,
        ));
        next
    } else {
        step_with(invocation, state, event, "", "")
    }
}

} // verus!
