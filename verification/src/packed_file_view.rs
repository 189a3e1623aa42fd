//! Opening an entry in a view: which entry, whether it may be opened, which
//! kind of view is built for it, and what follows once the view is built or
//! has failed to build. Closing a view.

use crate::archive_path::clone_path;
use crate::create::{idle_step, is_idle_step, is_refused_step, refused_step};
use crate::error::{ErrorKind, ErrorKindView};
use crate::session::{Pending, PendingView, Session};
use crate::ui::{
    no_actions,
    push_action,
    Control,
    DecodeablePackedFileType,
    Outcome,
    OutcomeView,
    Step,
    StepView,
    TreePathType,
    TreePathTypeView,
    UiAction,
    UiActionView,
};
use crate::view_registry::open_elsewhere;
use vstd::pervasive::unreached;
use vstd::prelude::*;
use vstd::string::*;

verus! {

/// The step that empties the view area: every view is destroyed and the
/// tips are shown. The rest of the session is as before.
pub open spec fn is_purge_step(before: Session, after: Session, step: StepView) -> bool {
    &&& step.outcome == OutcomeView::Done
    &&& step.actions == seq![UiActionView::PurgeAllViews, UiActionView::DisplayHelpTips]
    &&& after.open_views() == Map::<i32, Seq<Seq<char>>>::empty()
    &&& after.mode_view() == before.mode_view()
    &&& after.selected_game() == before.selected_game()
    &&& after.cached_states() == before.cached_states()
    &&& after.unsaved() == before.unsaved()
    &&& after.remembers() == before.remembers()
    &&& after.document_view() == before.document_view()
    &&& after.pending_view() is Nothing
    &&& !after.faulted()
}

/// What the request to open the selected entry in the slot `view_position`
/// does.
///
/// Nothing while the tree is locked, and nothing unless one item is
/// selected. An entry that another slot shows is refused. For an entry of a
/// kind that has views, the view of that kind is asked for. For any other
/// item the view area is emptied.
pub open spec fn open_packedfile_started(
    before: Session,
    is_folder_tree_view_locked: bool,
    selected_items: Seq<TreePathTypeView>,
    packed_file_type: DecodeablePackedFileType,
    view_position: i32,
    after: Session,
    step: StepView,
) -> bool {
    if is_folder_tree_view_locked || selected_items.len() != 1 {
        is_idle_step(before, after, step)
    } else {
        match selected_items[0] {
            TreePathTypeView::File(path) => if open_elsewhere(
                before.open_views(),
                path,
                view_position,
            ) {
                is_refused_step(
                    before,
                    ErrorKindView::PackedFileIsOpenInAnotherView,
                    after,
                    step,
                )
            } else if packed_file_type == DecodeablePackedFileType::Unknown {
                is_purge_step(before, after, step)
            } else {
                &&& step.outcome == OutcomeView::Waiting
                &&& step.actions == seq![UiActionView::BuildView(packed_file_type, path)]
                &&& after.same_data(&before)
                &&& after.pending_view() == PendingView::ViewConstruction {
                    kind: packed_file_type,
                    path,
                    slot: view_position,
                }
                &&& !after.faulted()
            },
            _ => is_purge_step(before, after, step),
        }
    }
}

/// The error for a view of this kind that could not be built, with the
/// reason that its builder gave.
pub open spec fn decode_error(kind: DecodeablePackedFileType, message: Seq<char>) -> ErrorKindView {
    match kind {
        DecodeablePackedFileType::Loc => ErrorKindView::LocDecode(message),
        DecodeablePackedFileType::DB => ErrorKindView::DBTableDecode(message),
        DecodeablePackedFileType::Text => ErrorKindView::TextDecode(message),
        DecodeablePackedFileType::RigidModel => ErrorKindView::RigidModelDecode(message),
        DecodeablePackedFileType::Image => ErrorKindView::ImageDecode(message),
        DecodeablePackedFileType::Unknown => ErrorKindView::Generic(message),
    }
}

/// The requests that put a view that was built into its slot: the view that
/// was there is destroyed first; while a table is open no other game can be
/// selected.
pub open spec fn view_built_actions(kind: DecodeablePackedFileType, slot: i32) -> Seq<
    UiActionView,
> {
    let placed = seq![UiActionView::PurgeView(slot), UiActionView::InsertView(slot)];
    if kind == DecodeablePackedFileType::DB {
        placed.push(UiActionView::SetEnabled(Control::GameSelectedGroup, false))
    } else {
        placed
    }
}

/// What the end of the building of a view does.
///
/// Failed: the error of that kind of view is handed back, and no view is
/// registered. Built: the slot shows the entry, in place of what it showed;
/// should another slot show the entry by now, the view is refused instead.
pub open spec fn view_was_constructed(
    before: Session,
    built: Result<(), String>,
    after: Session,
    step: StepView,
) -> bool {
    let kind = before.pending_view()->ViewConstruction_kind;
    let path = before.pending_view()->ViewConstruction_path;
    let slot = before.pending_view()->ViewConstruction_slot;
    match built {
        Err(message) => is_refused_step(before, decode_error(kind, message@), after, step),
        Ok(_) => if open_elsewhere(before.open_views(), path, slot) {
            is_refused_step(before, ErrorKindView::PackedFileIsOpenInAnotherView, after, step)
        } else {
            &&& step.outcome == OutcomeView::Done
            &&& step.actions == view_built_actions(kind, slot)
            &&& after.open_views() == before.open_views().insert(slot, path)
            &&& after.mode_view() == before.mode_view()
            &&& after.selected_game() == before.selected_game()
            &&& after.cached_states() == before.cached_states()
            &&& after.unsaved() == before.unsaved()
            &&& after.remembers() == before.remembers()
            &&& after.document_view() == before.document_view()
    &&& after.document_view() == before.document_view()
            &&& after.pending_view() is Nothing
            &&& !after.faulted()
        },
    }
}

/// The requests that follow the closing of the view in `slot`: the view is
/// destroyed, and the tips are shown where no view is left.
pub open spec fn view_closed_actions(slot: i32, none_left: bool) -> Seq<UiActionView> {
    if none_left {
        seq![UiActionView::PurgeView(slot), UiActionView::DisplayHelpTips]
    } else {
        seq![UiActionView::PurgeView(slot)]
    }
}

/// Destroys every view and shows the tips.
pub fn purge_them_all(session: &mut Session) -> (step: Step)
    requires
        old(session).is_ready(),
    ensures
        final(session).wf(),
        is_purge_step(*old(session), *final(session), step.deep_view()),
{
    let _ = session.registry.close_all();
    let mut actions = no_actions();
    push_action(&mut actions, UiAction::PurgeAllViews);
    push_action(&mut actions, UiAction::DisplayHelpTips);
    assert(actions.deep_view() =~= seq![
        UiActionView::PurgeAllViews,
        UiActionView::DisplayHelpTips,
    ]);
    Step { actions, outcome: Outcome::Done }
}

/// Starts the opening of the selected entry in the slot `view_position`.
/// `selected_items` are the items selected in the tree, and
/// `packed_file_type` is the kind of view that the selected entry has.
pub fn open_packedfile(
    session: &mut Session,
    is_folder_tree_view_locked: bool,
    selected_items: &Vec<TreePathType>,
    packed_file_type: DecodeablePackedFileType,
    view_position: i32,
) -> (step: Step)
    requires
        old(session).is_ready(),
    ensures
        final(session).wf(),
        open_packedfile_started(
            *old(session),
            is_folder_tree_view_locked,
            selected_items.deep_view(),
            packed_file_type,
            view_position,
            *final(session),
            step.deep_view(),
        ),
{
    if is_folder_tree_view_locked || selected_items.len() != 1 {
        return idle_step();
    }
    assert(selected_items.deep_view()[0] == selected_items[0].deep_view());
    match &selected_items[0] {
        TreePathType::File(path) => {
            if session.registry.is_open_elsewhere(path, view_position) {
                return refused_step(ErrorKind::PackedFileIsOpenInAnotherView);
            }
            match packed_file_type {
                DecodeablePackedFileType::Unknown => purge_them_all(session),
                _ => {
                    session.pending = Pending::ViewConstruction {
                        kind: packed_file_type,
                        path: clone_path(path),
                        slot: view_position,
                    };
                    let mut actions = no_actions();
                    push_action(
                        &mut actions,
                        UiAction::BuildView(packed_file_type, clone_path(path)),
                    );
                    assert(actions.deep_view() =~= seq![
                        UiActionView::BuildView(packed_file_type, path.deep_view()),
                    ]);
                    Step { actions, outcome: Outcome::Waiting }
                },
            }
        },
        _ => purge_them_all(session),
    }
}

/// Takes the end of the building of a view: `Ok` where it was built, else
/// the reason that its builder gave.
pub fn view_constructed(session: &mut Session, built: Result<(), String>) -> (step: Step)
    requires
        old(session).wf(),
        old(session).pending_view() is ViewConstruction,
    ensures
        final(session).wf(),
        view_was_constructed(*old(session), built, *final(session), step.deep_view()),
{
    let mut pending = Pending::Nothing;
    std::mem::swap(&mut session.pending, &mut pending);
    let (kind, path, slot) = match pending {
        Pending::ViewConstruction { kind, path, slot } => (kind, path, slot),
        _ => unreached(),
    };
    match built {
        Err(message) => {
            let error = match kind {
                DecodeablePackedFileType::Loc => ErrorKind::LocDecode(message),
                DecodeablePackedFileType::DB => ErrorKind::DBTableDecode(message),
                DecodeablePackedFileType::Text => ErrorKind::TextDecode(message),
                DecodeablePackedFileType::RigidModel => ErrorKind::RigidModelDecode(message),
                DecodeablePackedFileType::Image => ErrorKind::ImageDecode(message),
                DecodeablePackedFileType::Unknown => unreached(),
            };
            refused_step(error)
        },
        Ok(_) => {
            match session.registry.open_view(path, slot) {
                Err(_) => refused_step(ErrorKind::PackedFileIsOpenInAnotherView),
                Ok(_) => {
                    let mut actions = no_actions();
                    push_action(&mut actions, UiAction::PurgeView(slot));
                    push_action(&mut actions, UiAction::InsertView(slot));
                    match kind {
                        DecodeablePackedFileType::DB => {
                            push_action(
                                &mut actions,
                                UiAction::SetEnabled(Control::GameSelectedGroup, false),
                            );
                        },
                        _ => {},
                    }
                    assert(actions.deep_view() =~= view_built_actions(kind, slot));
                    Step { actions, outcome: Outcome::Done }
                },
            }
        },
    }
}

/// Closes the view in `slot`. Where no view is left the tips are shown.
pub fn close_view(session: &mut Session, slot: i32) -> (actions: Vec<UiAction>)
    requires
        old(session).wf(),
    ensures
        final(session).wf(),
        final(session).open_views() == old(session).open_views().remove(slot),
        actions.deep_view() == view_closed_actions(
            slot,
            final(session).open_views() == Map::<i32, Seq<Seq<char>>>::empty(),
        ),
        final(session).mode_view() == old(session).mode_view(),
        final(session).selected_game() == old(session).selected_game(),
        final(session).cached_states() == old(session).cached_states(),
        final(session).unsaved() == old(session).unsaved(),
        final(session).remembers() == old(session).remembers(),
        final(session).document_view() == old(session).document_view(),
        final(session).pending_view() == old(session).pending_view(),
        final(session).faulted() == old(session).faulted(),
{
    let _ = session.registry.close_view(slot);
    let mut actions = no_actions();
    push_action(&mut actions, UiAction::PurgeView(slot));
    if session.registry.is_empty() {
        push_action(&mut actions, UiAction::DisplayHelpTips);
    }
    actions
}

/// A view that failed to build leaves the registry as it was.
pub proof fn lemma_failed_view_is_not_registered(
    before: Session,
    message: String,
    after: Session,
    step: StepView,
)
    requires
        before.pending_view() is ViewConstruction,
        view_was_constructed(before, Err(message), after, step),
    ensures
        after.open_views() == before.open_views(),
        step.actions.len() == 0,
{
}

/// Opening an entry never makes two slots show the same path.
pub proof fn lemma_opened_view_is_the_only_one(
    before: Session,
    built: Result<(), String>,
    after: Session,
    step: StepView,
)
    requires
        before.pending_view() is ViewConstruction,
        view_was_constructed(before, built, after, step),
        crate::view_registry::one_view_per_path(before.open_views()),
    ensures
        crate::view_registry::one_view_per_path(after.open_views()),
{
    let path = before.pending_view()->ViewConstruction_path;
    let slot = before.pending_view()->ViewConstruction_slot;
    if built is Ok && !open_elsewhere(before.open_views(), path, slot) {
        crate::view_registry::lemma_call_keeps_one_view_per_path(
            before.open_views(),
            crate::view_registry::RegistryCall::OpenView { path, slot },
        );
    }
}

} // verus!
