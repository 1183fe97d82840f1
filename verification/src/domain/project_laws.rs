//! Properties of the project model that relate several operations.

use vstd::prelude::*;

use crate::domain::project::{
    archive_outcome, cancel_outcome, complete_outcome, create_outcome, date_range_outcome,
    is_canonical_uuid,
    is_normalized, is_normalized_opt, is_well_formed, optional_text_outcome, parse_status,
    parse_type, pause_outcome, reconstitute_outcome, restore_outcome, resume_outcome,
    soft_delete_outcome, status_text, type_text, update_outcome, NewProjectView, ProjectChanges, ProjectErrorView,
    ProjectStatus, ProjectType, ProjectView,
};
use crate::text::{lemma_trim_idempotent, opt_view, trim};

verus! {

/// Every status is read back from its persisted text, and a text that reads
/// as a status is that status's text.
pub proof fn law_status_text_round_trip(status: ProjectStatus, value: Seq<char>)
    ensures
        parse_status(status_text(status)) == Some(status),
        parse_status(value) == Some(status) ==> status_text(status) == value,
{
    reveal_strlit("active");
    reveal_strlit("paused");
    reveal_strlit("completed");
    reveal_strlit("archived");
    reveal_strlit("cancelled");
    assert("active"@.len() == 6);
    assert("paused"@.len() == 6);
    assert("completed"@.len() == 9);
    assert("archived"@.len() == 8);
    assert("cancelled"@.len() == 9);
    assert("active"@ != "paused"@) by { assert("active"@[0] != "paused"@[0]); }
    assert("completed"@ != "cancelled"@) by { assert("completed"@[1] != "cancelled"@[1]); }
    match status {
        ProjectStatus::Active => {},
        ProjectStatus::Paused => {},
        ProjectStatus::Completed => {},
        ProjectStatus::Archived => {},
        ProjectStatus::Cancelled => {},
    }
}

/// Every project type is read back from its persisted text, and a text that
/// reads as a type is that type's text.
pub proof fn law_type_text_round_trip(project_type: ProjectType, value: Seq<char>)
    ensures
        parse_type(type_text(project_type)) == Some(project_type),
        parse_type(value) == Some(project_type) ==> type_text(project_type) == value,
{
    reveal_strlit("custom");
    reveal_strlit("learning");
    reveal_strlit("certification");
    reveal_strlit("reading");
    reveal_strlit("software");
    reveal_strlit("fitness");
    reveal_strlit("administrative");
    assert("custom"@.len() == 6);
    assert("learning"@.len() == 8);
    assert("certification"@.len() == 13);
    assert("reading"@.len() == 7);
    assert("software"@.len() == 8);
    assert("fitness"@.len() == 7);
    assert("administrative"@.len() == 14);
    assert("learning"@ != "software"@) by { assert("learning"@[0] != "software"@[0]); }
    assert("reading"@ != "fitness"@) by { assert("reading"@[0] != "fitness"@[0]); }
    match project_type {
        ProjectType::Custom => {},
        ProjectType::Learning => {},
        ProjectType::Certification => {},
        ProjectType::Reading => {},
        ProjectType::Software => {},
        ProjectType::Fitness => {},
        ProjectType::Administrative => {},
    }
}

proof fn lemma_normalized_opt_is_kept(o: Option<Seq<char>>)
    requires
        is_normalized_opt(o),
    ensures
        optional_text_outcome(o) == o,
{
}

/// A new project is active, well formed, last updated when it was created,
/// and neither archived nor deleted.
pub proof fn law_created_projects_are_active(input: NewProjectView)
    requires
        create_outcome(input) is Ok,
    ensures
        is_well_formed(create_outcome(input)->Ok_0),
        create_outcome(input)->Ok_0.status == ProjectStatus::Active,
        create_outcome(input)->Ok_0.updated_at == create_outcome(input)->Ok_0.created_at,
        create_outcome(input)->Ok_0.archived_at is None,
        create_outcome(input)->Ok_0.deleted_at is None,
{
    let p = create_outcome(input)->Ok_0;
    lemma_trim_idempotent(input.name);
    lemma_trim_idempotent(input.created_at);
    lemma_trim_idempotent(input.settings_json);
    if let Some(v) = input.description {
        lemma_trim_idempotent(v);
    }
    if let Some(v) = input.start_date {
        lemma_trim_idempotent(v);
    }
    if let Some(v) = input.target_date {
        lemma_trim_idempotent(v);
    }
    if let Some(v) = input.color {
        lemma_trim_idempotent(v);
    }
    if let Some(v) = input.icon {
        lemma_trim_idempotent(v);
    }
    if let Some(v) = input.objective {
        lemma_trim_idempotent(v);
    }
}

/// Storing a project and reading its fields back rebuilds the same project:
/// reconstitution accepts every well-formed project unchanged.
pub proof fn law_reconstitute_round_trip(p: ProjectView)
    requires
        is_well_formed(p),
    ensures
        reconstitute_outcome(p) == Ok::<ProjectView, ProjectErrorView>(p),
{
    lemma_normalized_opt_is_kept(p.description);
    lemma_normalized_opt_is_kept(p.start_date);
    lemma_normalized_opt_is_kept(p.target_date);
    lemma_normalized_opt_is_kept(p.color);
    lemma_normalized_opt_is_kept(p.icon);
    lemma_normalized_opt_is_kept(p.objective);
    lemma_normalized_opt_is_kept(p.archived_at);
    lemma_normalized_opt_is_kept(p.deleted_at);
    assert(reconstitute_outcome(p)->Ok_0 =~= p);
}

/// A soft-deleted project refuses every change with `ProjectDeleted`.
pub proof fn law_deleted_projects_are_immutable(
    p: ProjectView,
    changes: ProjectChanges,
    at: Seq<char>,
)
    requires
        p.deleted_at is Some,
    ensures
        update_outcome(p, changes, at) == Err::<ProjectView, ProjectErrorView>(
            ProjectErrorView::ProjectDeleted,
        ),
        pause_outcome(p, at) == Err::<ProjectView, ProjectErrorView>(
            ProjectErrorView::ProjectDeleted,
        ),
        resume_outcome(p, at) == Err::<ProjectView, ProjectErrorView>(
            ProjectErrorView::ProjectDeleted,
        ),
        complete_outcome(p, at) == Err::<ProjectView, ProjectErrorView>(
            ProjectErrorView::ProjectDeleted,
        ),
        cancel_outcome(p, at) == Err::<ProjectView, ProjectErrorView>(
            ProjectErrorView::ProjectDeleted,
        ),
        archive_outcome(p, at) == Err::<ProjectView, ProjectErrorView>(
            ProjectErrorView::ProjectDeleted,
        ),
        restore_outcome(p, at) == Err::<ProjectView, ProjectErrorView>(
            ProjectErrorView::ProjectDeleted,
        ),
        soft_delete_outcome(p, at) == Err::<ProjectView, ProjectErrorView>(
            ProjectErrorView::ProjectDeleted,
        ),
{
}

/// Archiving a project and restoring it brings back the same project data,
/// now `active`, with no archive time and the restore time as last update.
pub proof fn law_archive_then_restore(p: ProjectView, archived: Seq<char>, restored: Seq<char>)
    requires
        is_well_formed(p),
        archive_outcome(p, archived) is Ok,
        trim(restored).len() > 0,
    ensures
        restore_outcome(archive_outcome(p, archived)->Ok_0, restored) == Ok::<
            ProjectView,
            ProjectErrorView,
        >(
            ProjectView {
                status: ProjectStatus::Active,
                archived_at: None,
                updated_at: trim(restored),
                ..p
            },
        ),
{
    let q = archive_outcome(p, archived)->Ok_0;
    assert(restore_outcome(q, restored)->Ok_0 =~= ProjectView {
        status: ProjectStatus::Active,
        archived_at: None,
        updated_at: trim(restored),
        ..p
    });
}

/// Pausing an active project and resuming it gives back the same project,
/// with the resume time as last update.
pub proof fn law_pause_then_resume(p: ProjectView, paused: Seq<char>, resumed: Seq<char>)
    requires
        is_well_formed(p),
        pause_outcome(p, paused) is Ok,
        trim(resumed).len() > 0,
    ensures
        resume_outcome(pause_outcome(p, paused)->Ok_0, resumed) == Ok::<
            ProjectView,
            ProjectErrorView,
        >(ProjectView { updated_at: trim(resumed), ..p }),
{
    let q = pause_outcome(p, paused)->Ok_0;
    assert(seq![ProjectStatus::Active].contains(p.status));
    assert(p.status == ProjectStatus::Active);
    assert(seq![ProjectStatus::Paused][0] == ProjectStatus::Paused);
    assert(resume_outcome(q, resumed)->Ok_0 =~= ProjectView { updated_at: trim(resumed), ..p });
}

/// Completed and cancelled projects cannot be paused, resumed, completed or
/// cancelled; only archiving remains open to them.
pub proof fn law_finished_projects_stay_finished(p: ProjectView, at: Seq<char>)
    requires
        p.status == ProjectStatus::Completed || p.status == ProjectStatus::Cancelled,
    ensures
        pause_outcome(p, at) is Err,
        resume_outcome(p, at) is Err,
        complete_outcome(p, at) is Err,
        cancel_outcome(p, at) is Err,
{
    assert(!seq![ProjectStatus::Active].contains(p.status)) by {
        assert(seq![ProjectStatus::Active][0] == ProjectStatus::Active);
    }
    assert(!seq![ProjectStatus::Paused].contains(p.status)) by {
        assert(seq![ProjectStatus::Paused][0] == ProjectStatus::Paused);
    }
    assert(!seq![ProjectStatus::Active, ProjectStatus::Paused].contains(p.status)) by {
        let s = seq![ProjectStatus::Active, ProjectStatus::Paused];
        assert(s[0] == ProjectStatus::Active && s[1] == ProjectStatus::Paused);
    }
}

/// An update that changes nothing only records the update time.
pub proof fn law_empty_update_only_touches_updated_at(p: ProjectView, at: Seq<char>)
    requires
        is_well_formed(p),
        p.deleted_at is None,
        trim(at).len() > 0,
    ensures
        update_outcome(
            p,
            ProjectChanges {
                name: None,
                description: None,
                project_type: None,
                start_date: None,
                target_date: None,
                priority: None,
                color: None,
                icon: None,
                objective: None,
                settings_json: None,
            },
            at,
        ) == Ok::<ProjectView, ProjectErrorView>(ProjectView { updated_at: trim(at), ..p }),
{
    let c = ProjectChanges {
        name: None,
        description: None,
        project_type: None,
        start_date: None,
        target_date: None,
        priority: None,
        color: None,
        icon: None,
        objective: None,
        settings_json: None,
    };
    assert(update_outcome(p, c, at)->Ok_0 =~= ProjectView { updated_at: trim(at), ..p });
}

/// A given optional text as the project keeps it: trimmed, and absent when
/// nothing is left.
pub open spec fn normalized_opt(given: Option<Seq<char>>) -> Option<Seq<char>> {
    match given {
        Some(v) => if trim(v).len() > 0 {
            Some(trim(v))
        } else {
            None
        },
        None => None,
    }
}

/// An optional field after a change: left as it was when the change is
/// absent, otherwise the new value as the project keeps it (`Some(None)`
/// clears the field).
pub open spec fn after_change(change: Option<Option<String>>, before: Option<Seq<char>>) -> Option<
    Seq<char>,
> {
    match change {
        Some(value) => normalized_opt(opt_view(value)),
        None => before,
    }
}

/// Creation keeps what it was given: the identifier, the type and the
/// priority as they are, every text trimmed (optional ones dropped when
/// blank); the project is active, last updated when it was created, neither
/// archived nor deleted.
pub proof fn law_creation_keeps_the_input(input: NewProjectView)
    requires
        create_outcome(input) is Ok,
    ensures
        ({
            let p = create_outcome(input)->Ok_0;
            &&& p.id == input.id
            &&& p.name == trim(input.name)
            &&& p.description == normalized_opt(input.description)
            &&& p.project_type == input.project_type
            &&& p.status == ProjectStatus::Active
            &&& p.start_date == normalized_opt(input.start_date)
            &&& p.target_date == normalized_opt(input.target_date)
            &&& p.priority == input.priority
            &&& p.color == normalized_opt(input.color)
            &&& p.icon == normalized_opt(input.icon)
            &&& p.objective == normalized_opt(input.objective)
            &&& p.settings_json == trim(input.settings_json)
            &&& p.created_at == trim(input.created_at)
            &&& p.updated_at == trim(input.created_at)
            &&& p.archived_at is None
            &&& p.deleted_at is None
        }),
{
}

/// Creation succeeds exactly when the identifier is a canonical UUID, the
/// name, the creation time and the settings are not blank, the priority is
/// 1 to 5, and the (normalised) dates form a valid range.
pub proof fn law_creation_succeeds_when_valid(input: NewProjectView)
    ensures
        create_outcome(input) is Ok <==> {
            &&& is_canonical_uuid(input.id)
            &&& trim(input.name).len() > 0
            &&& 1 <= input.priority <= 5
            &&& date_range_outcome(
                normalized_opt(input.start_date),
                normalized_opt(input.target_date),
            ) is Ok
            &&& trim(input.created_at).len() > 0
            &&& trim(input.settings_json).len() > 0
        },
{
}

/// An update applies every requested change and nothing else: each changed
/// field takes its new value (texts trimmed, blank optional texts cleared),
/// each other field keeps its value, the identity, status, creation,
/// archive and deletion times are kept, and the update time is recorded.
pub proof fn law_update_applies_the_changes(p: ProjectView, changes: ProjectChanges, at: Seq<char>)
    requires
        update_outcome(p, changes, at) is Ok,
    ensures
        ({
            let q = update_outcome(p, changes, at)->Ok_0;
            &&& q.id == p.id
            &&& q.name == (match changes.name {
                Some(n) => trim(n@),
                None => p.name,
            })
            &&& q.description == after_change(changes.description, p.description)
            &&& q.project_type == (match changes.project_type {
                Some(t) => t,
                None => p.project_type,
            })
            &&& q.status == p.status
            &&& q.start_date == after_change(changes.start_date, p.start_date)
            &&& q.target_date == after_change(changes.target_date, p.target_date)
            &&& q.priority == (match changes.priority {
                Some(v) => v,
                None => p.priority,
            })
            &&& q.color == after_change(changes.color, p.color)
            &&& q.icon == after_change(changes.icon, p.icon)
            &&& q.objective == after_change(changes.objective, p.objective)
            &&& q.settings_json == (match changes.settings_json {
                Some(v) => trim(v@),
                None => p.settings_json,
            })
            &&& q.created_at == p.created_at
            &&& q.updated_at == trim(at)
            &&& q.archived_at == p.archived_at
            &&& q.deleted_at == p.deleted_at
        }),
{
}

/// An update succeeds exactly when the project is not deleted, the update
/// time is not blank, a new name or settings text is not blank, and the
/// resulting priority (1 to 5) and dates are valid.
pub proof fn law_update_succeeds_when_valid(p: ProjectView, changes: ProjectChanges, at: Seq<char>)
    ensures
        update_outcome(p, changes, at) is Ok <==> {
            &&& p.deleted_at is None
            &&& trim(at).len() > 0
            &&& (changes.name matches Some(n) ==> trim(n@).len() > 0)
            &&& (changes.settings_json matches Some(v) ==> trim(v@).len() > 0)
            &&& 1 <= (match changes.priority {
                Some(v) => v,
                None => p.priority,
            }) <= 5
            &&& date_range_outcome(
                after_change(changes.start_date, p.start_date),
                after_change(changes.target_date, p.target_date),
            ) is Ok
        },
{
}

/// The lifecycle of a project that is not deleted. Pausing is allowed from
/// `active`, resuming from `paused`, completing and cancelling from `active`
/// and `paused`, archiving from every status but `archived`, restoring from
/// `archived` only (back to `active`). An allowed change with a non-blank
/// time sets the status, records the time as the last update, sets the
/// archive time when archiving and clears it otherwise, and keeps every
/// other field. A change to the current status is `AlreadyInStatus` (but a
/// restore of a non-archived project is an invalid transition to `active`);
/// any other refused change is an invalid transition; an allowed change at a
/// blank time is refused for its missing time.
pub proof fn law_lifecycle(p: ProjectView, at: Seq<char>)
    requires
        p.deleted_at is None,
    ensures
        ({
            let moved = |s: ProjectStatus|
                Ok::<ProjectView, ProjectErrorView>(
                    ProjectView { status: s, archived_at: None, updated_at: trim(at), ..p },
                );
            let no_time = Err::<ProjectView, ProjectErrorView>(
                ProjectErrorView::RequiredField("changed_at"@),
            );
            let invalid = |s: ProjectStatus|
                Err::<ProjectView, ProjectErrorView>(
                    ProjectErrorView::InvalidTransition { from: p.status, to: s },
                );
            let already = |s: ProjectStatus|
                Err::<ProjectView, ProjectErrorView>(ProjectErrorView::AlreadyInStatus(s));
            let timed = trim(at).len() > 0;
            let active = p.status == ProjectStatus::Active;
            let paused = p.status == ProjectStatus::Paused;
            let archived = p.status == ProjectStatus::Archived;
            &&& pause_outcome(p, at) == if paused {
                already(ProjectStatus::Paused)
            } else if !active {
                invalid(ProjectStatus::Paused)
            } else if timed {
                moved(ProjectStatus::Paused)
            } else {
                no_time
            }
            &&& resume_outcome(p, at) == if active {
                already(ProjectStatus::Active)
            } else if !paused {
                invalid(ProjectStatus::Active)
            } else if timed {
                moved(ProjectStatus::Active)
            } else {
                no_time
            }
            &&& complete_outcome(p, at) == if p.status == ProjectStatus::Completed {
                already(ProjectStatus::Completed)
            } else if !(active || paused) {
                invalid(ProjectStatus::Completed)
            } else if timed {
                moved(ProjectStatus::Completed)
            } else {
                no_time
            }
            &&& cancel_outcome(p, at) == if p.status == ProjectStatus::Cancelled {
                already(ProjectStatus::Cancelled)
            } else if !(active || paused) {
                invalid(ProjectStatus::Cancelled)
            } else if timed {
                moved(ProjectStatus::Cancelled)
            } else {
                no_time
            }
            &&& archive_outcome(p, at) == if archived {
                already(ProjectStatus::Archived)
            } else if timed {
                Ok::<ProjectView, ProjectErrorView>(
                    ProjectView {
                        status: ProjectStatus::Archived,
                        archived_at: Some(trim(at)),
                        updated_at: trim(at),
                        ..p
                    },
                )
            } else {
                no_time
            }
            &&& restore_outcome(p, at) == if !archived {
                invalid(ProjectStatus::Active)
            } else if timed {
                moved(ProjectStatus::Active)
            } else {
                no_time
            }
        }),
{
    let a = seq![ProjectStatus::Active];
    let b = seq![ProjectStatus::Paused];
    let ab = seq![ProjectStatus::Active, ProjectStatus::Paused];
    assert(a[0] == ProjectStatus::Active);
    assert(b[0] == ProjectStatus::Paused);
    assert(ab[0] == ProjectStatus::Active && ab[1] == ProjectStatus::Paused);
    assert(a.contains(p.status) <==> p.status == ProjectStatus::Active);
    assert(b.contains(p.status) <==> p.status == ProjectStatus::Paused);
    assert(ab.contains(p.status) <==> (p.status == ProjectStatus::Active || p.status
        == ProjectStatus::Paused));
}

/// Soft deletion of a project that is not deleted records the deletion time
/// as the deletion and last update time and keeps every other field; a blank
/// time is refused.
pub proof fn law_soft_delete(p: ProjectView, at: Seq<char>)
    requires
        p.deleted_at is None,
    ensures
        trim(at).len() > 0 ==> soft_delete_outcome(p, at) == Ok::<ProjectView, ProjectErrorView>(
            ProjectView { deleted_at: Some(trim(at)), updated_at: trim(at), ..p },
        ),
        trim(at).len() == 0 ==> soft_delete_outcome(p, at) == Err::<ProjectView, ProjectErrorView>(
            ProjectErrorView::RequiredField("deleted_at"@),
        ),
{
}

/// Reconstitution keeps the stored fields, texts trimmed and blank optional
/// texts dropped, the status and type as stored.
pub proof fn law_reconstitution_keeps_the_fields(f: ProjectView)
    requires
        reconstitute_outcome(f) is Ok,
    ensures
        ({
            let p = reconstitute_outcome(f)->Ok_0;
            &&& p.id == f.id
            &&& p.name == trim(f.name)
            &&& p.description == normalized_opt(f.description)
            &&& p.project_type == f.project_type
            &&& p.status == f.status
            &&& p.start_date == normalized_opt(f.start_date)
            &&& p.target_date == normalized_opt(f.target_date)
            &&& p.priority == f.priority
            &&& p.color == normalized_opt(f.color)
            &&& p.icon == normalized_opt(f.icon)
            &&& p.objective == normalized_opt(f.objective)
            &&& p.settings_json == trim(f.settings_json)
            &&& p.created_at == trim(f.created_at)
            &&& p.updated_at == trim(f.updated_at)
            &&& p.archived_at == normalized_opt(f.archived_at)
            &&& p.deleted_at == normalized_opt(f.deleted_at)
        }),
{
}

/// Reconstitution succeeds exactly when creation's checks pass on the
/// stored fields, the update time is not blank, and an archive time is
/// present exactly for an archived project.
pub proof fn law_reconstitution_succeeds_when_valid(f: ProjectView)
    ensures
        reconstitute_outcome(f) is Ok <==> {
            &&& is_canonical_uuid(f.id)
            &&& trim(f.name).len() > 0
            &&& 1 <= f.priority <= 5
            &&& date_range_outcome(normalized_opt(f.start_date), normalized_opt(f.target_date))
                is Ok
            &&& trim(f.created_at).len() > 0
            &&& trim(f.updated_at).len() > 0
            &&& trim(f.settings_json).len() > 0
            &&& (f.status == ProjectStatus::Archived <==> normalized_opt(f.archived_at) is Some)
        },
{
}

} // verus!
