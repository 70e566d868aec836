//! Properties that relate several operations of the tracker.

use crate::project::{is_new_task, is_v4_identifier, lemma_map_of_projects, map_of_projects};
use crate::project::{Project, ProjectData, ProjectTaskStatus, ProjectTaskType, StoreError};
use vstd::prelude::*;

verus! {

/// A project just created is found under the identifier that creation
/// returned, with the given name and description and no tasks.
pub proof fn lemma_created_project_is_found(
    before: ProjectData,
    after: ProjectData,
    id: u128,
    name: Seq<char>,
    description: Seq<char>,
)
    requires
        ProjectData::creates_project(before, after, id, name, description),
    ensures
        after.lookup(id) is Some,
        after.lookup(id)->Some_0.id == id,
        is_v4_identifier(id),
        after.lookup(id)->Some_0.name@ == name,
        after.lookup(id)->Some_0.description@ == description,
        after.lookup(id)->Some_0.tasks@ == Map::<u128, crate::project::ProjectTask>::empty(),
{
}

/// A task just created is found in its project under the identifier that
/// creation returned, in state todo and of the default kind.
pub proof fn lemma_created_task_is_todo(
    before: Project,
    after: Project,
    id: u128,
    name: Seq<char>,
    description: Seq<char>,
)
    requires
        Project::creates_task(before, after, id, name, description),
    ensures
        after.tasks@.contains_key(id),
        after.tasks@[id].status == ProjectTaskStatus::Todo,
        after.tasks@[id].type_ == ProjectTaskType::Default,
        is_v4_identifier(id),
        is_new_task(after.tasks@[id], id, name, description),
{
}

/// Removing a project just created succeeds, and afterwards the project is
/// no longer found.
pub proof fn lemma_destroy_created_project(
    d0: ProjectData,
    d1: ProjectData,
    d2: ProjectData,
    id: u128,
    name: Seq<char>,
    description: Seq<char>,
    r: Result<bool, StoreError>,
)
    requires
        ProjectData::creates_project(d0, d1, id, name, description),
        ProjectData::destroys_project(d1, d2, id, r),
    ensures
        r == Ok::<bool, StoreError>(true),
        d2.lookup(id) is None,
{
}

/// Removing a project that the collection does not hold fails and changes
/// nothing.
pub proof fn lemma_destroy_unknown_project(
    d0: ProjectData,
    d1: ProjectData,
    id: u128,
    r: Result<bool, StoreError>,
)
    requires
        d0.lookup(id) is None,
        ProjectData::destroys_project(d0, d1, id, r),
    ensures
        r == Err::<bool, StoreError>(StoreError::ProjectNotFound),
        d1@ == d0@,
{
    assert(d1@ =~= d0@);
}

/// Removing a task just created succeeds and takes it out of the project;
/// removing it a second time fails.
pub proof fn lemma_destroy_task_twice(
    p0: Project,
    p1: Project,
    p2: Project,
    p3: Project,
    id: u128,
    name: Seq<char>,
    description: Seq<char>,
    first: Result<bool, StoreError>,
    second: Result<bool, StoreError>,
)
    requires
        Project::creates_task(p0, p1, id, name, description),
        Project::destroys_task(p1, p2, id, first),
        Project::destroys_task(p2, p3, id, second),
    ensures
        first == Ok::<bool, StoreError>(true),
        !p2.tasks@.contains_key(id),
        second == Err::<bool, StoreError>(StoreError::TaskNotFound),
        p3.tasks@ == p2.tasks@,
{
    assert(p3.tasks@ =~= p2.tasks@);
}

/// Listing every project of a well-formed collection and building a
/// collection from that list gives back the same collection, whatever order
/// the list came in.
pub proof fn lemma_listing_rebuilds(d: ProjectData, s: Seq<Project>)
    requires
        d.wf(),
        d.lists_all(s),
    ensures
        map_of_projects(s) == d@,
{
    lemma_map_of_projects(s);
    let m = map_of_projects(s);
    assert forall|k: u128| #[trigger] d@.contains_key(k) implies m.contains_key(k) && m[k] == d@[k] by {
        let i = choose|i: int| 0 <= i < s.len() && s[i] == d@[k];
        assert(m.contains_key(s[i].id));
        let j = choose|j: int| 0 <= j < s.len() && s[j].id == k && m[k] == s[j];
        assert(d@.values().contains(s[j]));
        let k2 = choose|k2: u128| d@.contains_key(k2) && d@[k2] == s[j];
    }
    assert forall|k: u128| #[trigger] m.contains_key(k) implies d@.contains_key(k) by {
        let j = choose|j: int| 0 <= j < s.len() && s[j].id == k && m[k] == s[j];
        assert(d@.values().contains(s[j]));
        let k2 = choose|k2: u128| d@.contains_key(k2) && d@[k2] == s[j];
    }
    assert(m =~= d@);
}

} // verus!
