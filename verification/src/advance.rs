//! One step of the session for whatever it is waiting for: the answer of
//! the worker, the choice of the user, or the view that was being built.

use crate::create::{
    packed_file_created_replied,
    packed_file_created_reply,
    packed_file_exists_replied,
    packed_file_exists_reply,
};
use crate::mymod::{
    delete_my_mod_reply,
    my_mod_deleted_replied,
    new_my_mod_replied,
    new_my_mod_reply,
};
use crate::open::{open_packfile_replied, open_packfile_reply};
use crate::packed_file_view::{view_constructed, view_was_constructed};
use crate::packedfile_text::{
    check_syntax_replied,
    check_syntax_reply,
    text_change_replied,
    text_change_reply,
};
use crate::protocol::Response;
use crate::save::{
    save_destination_chosen,
    save_destination_replied,
    save_destination_reply,
    save_destination_was_chosen,
    save_packfile_as_replied,
    save_packfile_as_reply,
    save_packfile_replied,
    save_packfile_reply,
};
use crate::session::{Pending, PendingView, Session};
use crate::ui::{Step, StepView};
use vstd::pervasive::unreached;
use vstd::prelude::*;
use vstd::string::*;

verus! {

/// What a session that waits can go on with.
#[derive(Debug, PartialEq, Eq)]
pub enum Event {
    /// A response of the worker has come.
    Reply(Response),
    /// The user has chosen where to save, or chosen not to.
    DestinationChosen(Option<Vec<String>>),
    /// The view was built, or its builder gave up for this reason.
    ViewConstructed(Result<(), String>),
}

/// The kind of event that a session waits for.
#[derive(Clone, Copy, PartialEq, Eq, Structural, Debug)]
pub enum Expected {
    /// None: no operation is under way.
    Nothing,
    /// A response of the worker.
    Reply,
    /// The choice of the place to save to.
    DestinationChoice,
    /// The end of the building of a view.
    ViewConstruction,
}

/// What is known of the disk when an event is taken: whether the place of
/// the document is a file, the data folder configured for the selected game
/// and whether it exists, and whether a folder of MyMods is configured and
/// exists.
#[derive(Debug, PartialEq, Eq)]
pub struct DiskFacts {
    pub save_path_is_file: bool,
    pub game_data_path: Option<Vec<String>>,
    pub game_data_path_is_dir: bool,
    pub mymods_base_path_is_dir: Option<bool>,
}

/// The kind of event that the operation under way waits for.
pub open spec fn expected_by(pending: PendingView) -> Expected {
    match pending {
        PendingView::Nothing => Expected::Nothing,
        PendingView::SaveDestinationChoice => Expected::DestinationChoice,
        PendingView::ViewConstruction { .. } => Expected::ViewConstruction,
        _ => Expected::Reply,
    }
}

/// The event is of the kind that the operation under way waits for, and a
/// place to save to has a file name.
pub open spec fn fits(pending: PendingView, event: Event) -> bool {
    match event {
        Event::Reply(_) => expected_by(pending) == Expected::Reply,
        Event::DestinationChosen(choice) => expected_by(pending) == Expected::DestinationChoice && (
        choice matches Some(path) ==> path.len() >= 1),
        Event::ViewConstructed(_) => expected_by(pending) == Expected::ViewConstruction,
    }
}

/// What an event does to a session that waited for it: what the operation
/// under way lays down for it.
pub open spec fn advanced(
    before: Session,
    event: Event,
    facts: DiskFacts,
    after: Session,
    step: StepView,
) -> bool {
    match event {
        Event::DestinationChosen(choice) => save_destination_was_chosen(
            before,
            choice.deep_view(),
            after,
            step,
        ),
        Event::ViewConstructed(built) => view_was_constructed(before, built, after, step),
        Event::Reply(response) => match before.pending_view() {
            PendingView::OpenPackFile { .. } => open_packfile_replied(
                before,
                response.deep_view(),
                after,
                step,
            ),
            PendingView::SavePackFile => save_packfile_replied(
                before,
                response.deep_view(),
                after,
                step,
            ),
            PendingView::SavePackFileAs => save_packfile_as_replied(
                before,
                response.deep_view(),
                facts.save_path_is_file,
                facts.game_data_path.deep_view(),
                facts.game_data_path_is_dir,
                after,
                step,
            ),
            PendingView::SaveDestination { .. } => save_destination_replied(
                before,
                response.deep_view(),
                after,
                step,
            ),
            PendingView::PackedFileExists { .. } => packed_file_exists_replied(
                before,
                response.deep_view(),
                after,
                step,
            ),
            PendingView::CreatePackedFile { .. } => packed_file_created_replied(
                before,
                response.deep_view(),
                after,
                step,
            ),
            PendingView::CheckScript => check_syntax_replied(
                before,
                response.deep_view(),
                after,
                step,
            ),
            PendingView::TextChange { .. } => text_change_replied(
                before,
                response.deep_view(),
                after,
                step,
            ),
            PendingView::DeleteMyMod { .. } => my_mod_deleted_replied(
                before,
                response.deep_view(),
                after,
                step,
            ),
            _ => new_my_mod_replied(
                before,
                response.deep_view(),
                facts.mymods_base_path_is_dir,
                after,
                step,
            ),
        },
    }
}

/// The kind of event that the session waits for.
pub fn expected_event(session: &Session) -> (expected: Expected)
    ensures
        expected == expected_by(session.pending_view()),
{
    match &session.pending {
        Pending::Nothing => Expected::Nothing,
        Pending::SaveDestinationChoice => Expected::DestinationChoice,
        Pending::ViewConstruction { .. } => Expected::ViewConstruction,
        _ => Expected::Reply,
    }
}

/// Takes the event that the session waited for, and goes on with the
/// operation under way.
pub fn advance(session: &mut Session, event: Event, facts: DiskFacts) -> (step: Step)
    requires
        old(session).wf(),
        fits(old(session).pending_view(), event),
    ensures
        final(session).wf(),
        advanced(*old(session), event, facts, *final(session), step.deep_view()),
{
    match event {
        Event::DestinationChosen(choice) => save_destination_chosen(session, choice),
        Event::ViewConstructed(built) => view_constructed(session, built),
        Event::Reply(response) => {
            match expected_reply(session) {
                ReplyTo::OpenPackFile => open_packfile_reply(session, response),
                ReplyTo::SavePackFile => save_packfile_reply(session, response),
                ReplyTo::SavePackFileAs => save_packfile_as_reply(
                    session,
                    response,
                    facts.save_path_is_file,
                    facts.game_data_path,
                    facts.game_data_path_is_dir,
                ),
                ReplyTo::SaveDestination => save_destination_reply(session, response),
                ReplyTo::PackedFileExists => packed_file_exists_reply(session, response),
                ReplyTo::CreatePackedFile => packed_file_created_reply(session, response),
                ReplyTo::CheckScript => check_syntax_reply(session, response),
                ReplyTo::TextChange => text_change_reply(session, response),
                ReplyTo::DeleteMyMod => delete_my_mod_reply(session, response),
                ReplyTo::NewMyMod => new_my_mod_reply(
                    session,
                    response,
                    facts.mymods_base_path_is_dir,
                ),
            }
        },
    }
}

/// The operation that a response goes to.
enum ReplyTo {
    OpenPackFile,
    SavePackFile,
    SavePackFileAs,
    SaveDestination,
    PackedFileExists,
    CreatePackedFile,
    CheckScript,
    TextChange,
    DeleteMyMod,
    NewMyMod,
}

/// The operation that a response goes to.
fn expected_reply(session: &Session) -> (to: ReplyTo)
    requires
        expected_by(session.pending_view()) == Expected::Reply,
    ensures
        match to {
            ReplyTo::OpenPackFile => session.pending_view() is OpenPackFile,
            ReplyTo::SavePackFile => session.pending_view() is SavePackFile,
            ReplyTo::SavePackFileAs => session.pending_view() is SavePackFileAs,
            ReplyTo::SaveDestination => session.pending_view() is SaveDestination,
            ReplyTo::PackedFileExists => session.pending_view() is PackedFileExists,
            ReplyTo::CreatePackedFile => session.pending_view() is CreatePackedFile,
            ReplyTo::CheckScript => session.pending_view() is CheckScript,
            ReplyTo::TextChange => session.pending_view() is TextChange,
            ReplyTo::DeleteMyMod => session.pending_view() is DeleteMyMod,
            ReplyTo::NewMyMod => session.pending_view() is NewMyMod || session.pending_view()
                is NewMyModSaveAs || session.pending_view() is NewMyModSave,
        },
{
    match &session.pending {
        Pending::OpenPackFile { .. } => ReplyTo::OpenPackFile,
        Pending::SavePackFile => ReplyTo::SavePackFile,
        Pending::SavePackFileAs => ReplyTo::SavePackFileAs,
        Pending::SaveDestination { .. } => ReplyTo::SaveDestination,
        Pending::PackedFileExists { .. } => ReplyTo::PackedFileExists,
        Pending::CreatePackedFile { .. } => ReplyTo::CreatePackedFile,
        Pending::CheckScript => ReplyTo::CheckScript,
        Pending::TextChange { .. } => ReplyTo::TextChange,
        Pending::DeleteMyMod { .. } => ReplyTo::DeleteMyMod,
        Pending::NewMyMod { .. } => ReplyTo::NewMyMod,
        Pending::NewMyModSaveAs { .. } => ReplyTo::NewMyMod,
        Pending::NewMyModSave { .. } => ReplyTo::NewMyMod,
        _ => unreached(),
    }
}

} // verus!
