use vstd::prelude::*;
use crate::config::first_missing;
use crate::config::ConfigField;
use crate::config::FieldTexts;
use crate::outcome::ErrorKind;
use crate::outcome::OutcomeTexts;
use crate::paths::path_file_name;
use crate::paths::stem_of_name;
use crate::paths::FALLBACK_TITLE;
use crate::pipeline::failure;
use crate::pipeline::finish;
use crate::pipeline::missing_field_text;
use crate::pipeline::step_rule;
use crate::pipeline::ActionTexts;
use crate::pipeline::EventTexts;
use crate::pipeline::InvocationTexts;
use crate::pipeline::page_of;
use crate::pipeline::StateTexts;
use crate::render::rendered;
use crate::template::lemma_title_element;
use crate::template::BODY_OPEN;
use crate::template::DATE_CLOSE;
use crate::template::HEAD_OPEN;
use crate::template::PAGE_CLOSE;
use crate::template::TITLE_CLOSE;
use crate::template::TITLE_OPEN;

verus! {

/// The title that a page shows for a source path: the stem of the path's file name,
/// or the fallback where the path names no file.
pub open spec fn shown_title(source_path: Seq<char>) -> Seq<char> {
    match path_file_name(source_path) {
        Some(name) => stem_of_name(name),
        None => FALLBACK_TITLE@,
    }
}

/// The title element of a document's page holds the shown title of its source path
/// and nothing else; date label and fragment follow verbatim in the body.
pub proof fn lemma_page_title(source_path: Seq<char>, markup: Seq<char>, date_label: Seq<char>)
    ensures
        page_of(source_path, markup, date_label) == HEAD_OPEN@ + TITLE_OPEN@ + shown_title(
            source_path,
        ) + TITLE_CLOSE@ + (BODY_OPEN@ + date_label + DATE_CLOSE@ + rendered(markup)
            + PAGE_CLOSE@),
{
    lemma_title_element(shown_title(source_path), date_label, rendered(markup));
}

/// Whether an action puts the page somewhere: a write to disk or an upload.
pub open spec fn stores(action: ActionTexts) -> bool {
    action is WriteFile || action is Upload
}

/// The actions of a run that is in `state` and hears `events` in order.
pub open spec fn actions_of(
    invocation: InvocationTexts,
    state: StateTexts,
    events: Seq<EventTexts>,
    date_label: Seq<char>,
    id: Seq<char>,
) -> Seq<ActionTexts>
    decreases events.len(),
{
    if events.len() == 0 {
        Seq::empty()
    } else {
        let next = step_rule(invocation, state, events[0], date_label, id);
        seq![next.1] + actions_of(invocation, next.0, events.drop_first(), date_label, id)
    }
}

/// Whether every settings file that the events report lacks a required field.
pub open spec fn settings_always_incomplete(events: Seq<EventTexts>) -> bool {
    forall|i: int|
        0 <= i < events.len() ==> match #[trigger] events[i] {
            EventTexts::ConfigLoaded { fields } => first_missing(fields) is Some,
            _ => true,
        }
}

/// The files on disk after the driver has performed an action: a write puts the
/// content at the path, every other action leaves the disk alone.
pub open spec fn files_after(files: Map<Seq<char>, Seq<char>>, action: ActionTexts) -> Map<
    Seq<char>,
    Seq<char>,
> {
    match action {
        ActionTexts::WriteFile { path, content } => files.insert(path, content),
        _ => files,
    }
}

/// A run ends exactly when it tells the outcome: the next state is the final one if
/// and only if the action is to finish, and the final state is never left.
pub proof fn lemma_one_outcome(
    invocation: InvocationTexts,
    state: StateTexts,
    event: EventTexts,
    date_label: Seq<char>,
    id: Seq<char>,
)
    ensures
        step_rule(invocation, state, event, date_label, id).0 is Finished <==> step_rule(
            invocation,
            state,
            event,
            date_label,
            id,
        ).1 is Finish,
        state is Finished ==> step_rule(invocation, state, event, date_label, id).0 is Finished,
{
}

/// A settings file without a required field ends the run at once, as invalid
/// settings, naming the first absent field.
pub proof fn lemma_missing_field_is_invalid(
    invocation: InvocationTexts,
    fields: FieldTexts,
    date_label: Seq<char>,
    id: Seq<char>,
)
    requires
        first_missing(fields) is Some,
    ensures
        step_rule(
            invocation,
            StateTexts::ConfigLoad,
            EventTexts::ConfigLoaded { fields },
            date_label,
            id,
        ) == failure(
            ErrorKind::ConfigurationInvalid,
            missing_field_text(first_missing(fields)->0.key()),
        ),
        fields.domain is Some && fields.bucket is None ==> first_missing(fields) == Some(
            ConfigField::Bucket,
        ),
{
}

/// Nothing is stored before the settings are complete: a run in which every settings
/// file lacks a field never writes a file and never uploads, whatever else the driver
/// reports and in whatever order.
pub proof fn lemma_invalid_settings_store_nothing(
    invocation: InvocationTexts,
    events: Seq<EventTexts>,
    date_label: Seq<char>,
    id: Seq<char>,
)
    requires
        settings_always_incomplete(events),
    ensures
        forall|i: int|
            0 <= i < actions_of(invocation, StateTexts::Start, events, date_label, id).len()
                ==> !stores(
                #[trigger] actions_of(invocation, StateTexts::Start, events, date_label, id)[i],
            ),
{
    lemma_no_store_before_settings(invocation, StateTexts::Start, events, date_label, id);
}

/// Whether a run has not got its settings yet, or has ended.
pub open spec fn without_settings(state: StateTexts) -> bool {
    state is Start || state is ConfigProbe || state is ConfigLoad || state is Finished
}

/// The same, from every state in which the settings are not known yet.
pub proof fn lemma_no_store_before_settings(
    invocation: InvocationTexts,
    state: StateTexts,
    events: Seq<EventTexts>,
    date_label: Seq<char>,
    id: Seq<char>,
)
    requires
        without_settings(state),
        settings_always_incomplete(events),
    ensures
        forall|i: int|
            0 <= i < actions_of(invocation, state, events, date_label, id).len() ==> !stores(
                #[trigger] actions_of(invocation, state, events, date_label, id)[i],
            ),
    decreases events.len(),
{
    if events.len() > 0 {
        let next = step_rule(invocation, state, events[0], date_label, id);
        let rest = events.drop_first();
        assert(events[0] is ConfigLoaded ==> first_missing(events[0]->ConfigLoaded_fields) is Some);
        assert(without_settings(next.0));
        assert(!stores(next.1));
        assert forall|i: int| 0 <= i < rest.len() implies match #[trigger] rest[i] {
            EventTexts::ConfigLoaded { fields } => first_missing(fields) is Some,
            _ => true,
        } by {
            assert(rest[i] == events[i + 1]);
        }
        lemma_no_store_before_settings(invocation, next.0, rest, date_label, id);
        let all = actions_of(invocation, state, events, date_label, id);
        let tail = actions_of(invocation, next.0, rest, date_label, id);
        assert(all == seq![next.1] + tail);
        assert forall|i: int| 0 <= i < all.len() implies !stores(#[trigger] all[i]) by {
            if i > 0 {
                assert(all[i] == tail[i - 1]);
            }
        }
    } else {
        assert(actions_of(invocation, state, events, date_label, id).len() == 0);
    }
}

/// A page is written only in answer to a probe that found no file at the output
/// path, and then to that path and with the page that was rendered for it.
pub proof fn lemma_write_only_where_absent(
    invocation: InvocationTexts,
    state: StateTexts,
    event: EventTexts,
    date_label: Seq<char>,
    id: Seq<char>,
)
    requires
        step_rule(invocation, state, event, date_label, id).1 is WriteFile,
    ensures
        state is OutputProbe,
        event == (EventTexts::Probed { exists: false }),
        step_rule(invocation, state, event, date_label, id).1 == (ActionTexts::WriteFile {
            path: state->OutputProbe_path,
            content: state->OutputProbe_page,
        }),
{
}

/// Whether a run has stored its page, or has ended.
pub open spec fn settled(state: StateTexts) -> bool {
    state is LocalWrite || state is Upload || state is Finished
}

/// Once the page is stored, or the run has ended, nothing more is stored.
pub proof fn lemma_no_store_once_settled(
    invocation: InvocationTexts,
    state: StateTexts,
    events: Seq<EventTexts>,
    date_label: Seq<char>,
    id: Seq<char>,
)
    requires
        settled(state),
    ensures
        forall|i: int|
            0 <= i < actions_of(invocation, state, events, date_label, id).len() ==> !stores(
                #[trigger] actions_of(invocation, state, events, date_label, id)[i],
            ),
    decreases events.len(),
{
    if events.len() > 0 {
        let next = step_rule(invocation, state, events[0], date_label, id);
        let rest = events.drop_first();
        assert(next.0 is Finished);
        lemma_no_store_once_settled(invocation, next.0, rest, date_label, id);
        let all = actions_of(invocation, state, events, date_label, id);
        let tail = actions_of(invocation, next.0, rest, date_label, id);
        assert(all == seq![next.1] + tail);
        assert forall|i: int| 0 <= i < all.len() implies !stores(#[trigger] all[i]) by {
            if i > 0 {
                assert(all[i] == tail[i - 1]);
            }
        }
    } else {
        assert(actions_of(invocation, state, events, date_label, id).len() == 0);
    }
}

/// A run stores its page at most once: among the actions of a run, from whatever
/// state and whatever the driver reports, no two are a write or an upload.
pub proof fn lemma_at_most_one_store(
    invocation: InvocationTexts,
    state: StateTexts,
    events: Seq<EventTexts>,
    date_label: Seq<char>,
    id: Seq<char>,
)
    ensures
        forall|i: int, j: int|
            0 <= i < j < actions_of(invocation, state, events, date_label, id).len() ==> !(stores(
                #[trigger] actions_of(invocation, state, events, date_label, id)[i],
            ) && stores(#[trigger] actions_of(invocation, state, events, date_label, id)[j])),
    decreases events.len(),
{
    if events.len() > 0 {
        let next = step_rule(invocation, state, events[0], date_label, id);
        let rest = events.drop_first();
        let all = actions_of(invocation, state, events, date_label, id);
        let tail = actions_of(invocation, next.0, rest, date_label, id);
        assert(all == seq![next.1] + tail);
        lemma_at_most_one_store(invocation, next.0, rest, date_label, id);
        if stores(next.1) {
            assert(settled(next.0));
            lemma_no_store_once_settled(invocation, next.0, rest, date_label, id);
        }
        assert forall|i: int, j: int| 0 <= i < j < all.len() implies !(stores(#[trigger] all[i])
            && stores(#[trigger] all[j])) by {
            assert(all[j] == tail[j - 1]);
            if i > 0 {
                assert(all[i] == tail[i - 1]);
            }
        }
    } else {
        assert(actions_of(invocation, state, events, date_label, id).len() == 0);
    }
}

/// Local output never overwrites. Where the first run finds no file at the output
/// path and writes its page, a second run that probes the same path finds the file,
/// writes nothing, reports that the file exists already, and the file still holds
/// the first run's page.
pub proof fn lemma_second_local_run_overwrites_nothing(
    invocation: InvocationTexts,
    files: Map<Seq<char>, Seq<char>>,
    path: Seq<char>,
    first_page: Seq<char>,
    second_page: Seq<char>,
    date_label: Seq<char>,
    id: Seq<char>,
)
    requires
        !files.contains_key(path),
    ensures
        ({
            let first = step_rule(
                invocation,
                StateTexts::OutputProbe { path, page: first_page },
                EventTexts::Probed { exists: files.contains_key(path) },
                date_label,
                id,
            );
            let written = files_after(files, first.1);
            let second = step_rule(
                invocation,
                StateTexts::OutputProbe { path, page: second_page },
                EventTexts::Probed { exists: written.contains_key(path) },
                date_label,
                id,
            );
            &&& first.1 == (ActionTexts::WriteFile { path, content: first_page })
            &&& written[path] == first_page
            &&& second == finish(OutcomeTexts::AlreadyExists { path })
            &&& files_after(written, second.1) == written
        }),
{
}

/// Whatever is at the output path is left alone: with a file there, the step
/// finishes with the existing path and asks for no write.
pub proof fn lemma_existing_output_is_kept(
    invocation: InvocationTexts,
    path: Seq<char>,
    page: Seq<char>,
    date_label: Seq<char>,
    id: Seq<char>,
)
    ensures
        step_rule(
            invocation,
            StateTexts::OutputProbe { path, page },
            EventTexts::Probed { exists: true },
            date_label,
            id,
        ) == finish(OutcomeTexts::AlreadyExists { path }),
{
}

} // verus!
