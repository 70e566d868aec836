use std::collections::HashMap;
use vstd::prelude::*;

verus! {

broadcast use vstd::std_specs::hash::group_hash_axioms;

/// `id` carries the marks of a random (version 4) UUID: version nibble 4 and
/// variant bits `10`.
pub open spec fn is_v4_identifier(id: u128) -> bool {
    id & 0xF000C000000000000000u128 == 0x40008000000000000000u128
}

/// Relies on uuid::Uuid::new_v4, read back with Uuid::as_u128: a fresh random
/// identifier whose version nibble is 4 and whose variant bits are `10`.
#[verifier::external_body]
fn new_identifier() -> (r: u128)
    ensures
        is_v4_identifier(r),
{
    uuid::Uuid::new_v4().as_u128()
}

/// The category of a task.
#[derive(Debug, Clone, Copy, PartialEq, Eq, Structural)]
pub enum ProjectTaskType {
    Default,
}

/// The workflow state of a task.
#[derive(Debug, Clone, Copy, PartialEq, Eq, Structural)]
pub enum ProjectTaskStatus {
    Default,
    Todo,
    InProgress,
    Complete,
}

/// The kind named by `s`, if `s` names one.
pub open spec fn task_type_of(s: Seq<char>) -> Option<ProjectTaskType> {
    if s == "default"@ {
        Some(ProjectTaskType::Default)
    } else {
        None
    }
}

/// The status named by `s`; any other text is the default status.
pub open spec fn task_status_of(s: Seq<char>) -> ProjectTaskStatus {
    if s == "todo"@ {
        ProjectTaskStatus::Todo
    } else if s == "in_progress"@ {
        ProjectTaskStatus::InProgress
    } else if s == "complete"@ {
        ProjectTaskStatus::Complete
    } else {
        ProjectTaskStatus::Default
    }
}

/// Whether `input` spells exactly `word`.
fn spells(input: &String, word: &str) -> (r: bool)
    ensures
        r == (input@ == word@),
{
    let w = word.to_owned();
    *input == w
}

impl ProjectTaskType {
    /// Reads a kind name; only `"default"` is known.
    pub fn from_str(input: &str) -> (r: Result<ProjectTaskType, ()>)
        ensures
            r is Ok <==> task_type_of(input@) is Some,
            r is Ok ==> task_type_of(input@) == Some(r->Ok_0),
    {
        let s = input.to_owned();
        if spells(&s, "default") {
            Ok(ProjectTaskType::Default)
        } else {
            Err(())
        }
    }
}

impl ProjectTaskStatus {
    /// Reads a status name. Never fails: unknown text gives the default status.
    pub fn from_str(input: &str) -> (r: Result<ProjectTaskStatus, ()>)
        ensures
            r == Ok::<ProjectTaskStatus, ()>(task_status_of(input@)),
    {
        let s = input.to_owned();
        if spells(&s, "todo") {
            Ok(ProjectTaskStatus::Todo)
        } else if spells(&s, "in_progress") {
            Ok(ProjectTaskStatus::InProgress)
        } else if spells(&s, "complete") {
            Ok(ProjectTaskStatus::Complete)
        } else {
            Ok(ProjectTaskStatus::Default)
        }
    }
}

impl std::str::FromStr for ProjectTaskType {
    type Err = ();

    fn from_str(input: &str) -> Result<ProjectTaskType, ()> {
        ProjectTaskType::from_str(input)
    }
}

impl std::str::FromStr for ProjectTaskStatus {
    type Err = ();

    fn from_str(input: &str) -> Result<ProjectTaskStatus, ()> {
        ProjectTaskStatus::from_str(input)
    }
}

/// Why an operation on the collection could not be carried out.
#[derive(Debug, Clone, Copy, PartialEq, Eq, Structural)]
pub enum StoreError {
    /// No project has the requested identifier.
    ProjectNotFound,
    /// The project holds no task with the requested identifier.
    TaskNotFound,
}

/// One unit of work inside a project.
#[derive(Debug, Clone, PartialEq)]
pub struct ProjectTask {
    pub id: u128,
    pub name: String,
    pub description: String,
    pub type_: ProjectTaskType,
    pub status: ProjectTaskStatus,
}

/// `t` is the task that task creation makes under identifier `id`.
pub open spec fn is_new_task(t: ProjectTask, id: u128, name: Seq<char>, description: Seq<char>) -> bool {
    &&& t.id == id
    &&& is_v4_identifier(id)
    &&& t.name@ == name
    &&& t.description@ == description
    &&& t.type_ == ProjectTaskType::Default
    &&& t.status == ProjectTaskStatus::Todo
}

impl ProjectTask {
    /// A task with a fresh identifier; an unknown kind falls back to the
    /// default kind, and the status is whatever the status name reads as.
    pub fn new(name: &str, description: &str, type_: &str, status: &str) -> (r: ProjectTask)
        ensures
            r.name@ == name@,
            r.description@ == description@,
            r.type_ == ProjectTaskType::Default,
            r.status == task_status_of(status@),
            is_v4_identifier(r.id),
    {
        let task_type = match ProjectTaskType::from_str(type_) {
            Ok(task_type) => task_type,
            Err(_) => ProjectTaskType::Default,
        };
        let task_status = match ProjectTaskStatus::from_str(status) {
            Ok(task_status) => task_status,
            Err(_) => ProjectTaskStatus::Todo,
        };
        ProjectTask {
            id: new_identifier(),
            name: name.to_owned(),
            description: description.to_owned(),
            type_: task_type,
            status: task_status,
        }
    }
}

/// A named project that owns its tasks, keyed by task identifier.
#[derive(Debug, Clone, PartialEq)]
pub struct Project {
    pub id: u128,
    pub name: String,
    pub description: String,
    pub tasks: HashMap<u128, ProjectTask>,
}

impl Project {
    /// Every task is stored under its own identifier.
    pub open spec fn wf(&self) -> bool {
        forall|k: u128| #[trigger] self.tasks@.contains_key(k) ==> self.tasks@[k].id == k
    }

    /// `self` carries the same identity, name and description as `other`.
    pub open spec fn same_header(&self, other: Project) -> bool {
        &&& self.id == other.id
        &&& self.name@ == other.name@
        &&& self.description@ == other.description@
    }

    /// `new` is `old` with a fresh task of identifier `id` added.
    pub open spec fn creates_task(
        old: Project,
        new: Project,
        id: u128,
        name: Seq<char>,
        description: Seq<char>,
    ) -> bool {
        &&& new.same_header(old)
        &&& is_new_task(new.tasks@[id], id, name, description)
        &&& new.tasks@ == old.tasks@.insert(id, new.tasks@[id])
    }

    /// `new` is `old` after a removal of task `id` that answered `r`.
    pub open spec fn destroys_task(old: Project, new: Project, id: u128, r: Result<bool, StoreError>) -> bool {
        &&& new.same_header(old)
        &&& new.tasks@ == old.tasks@.remove(id)
        &&& r == if old.tasks@.contains_key(id) {
            Ok::<bool, StoreError>(true)
        } else {
            Err::<bool, StoreError>(StoreError::TaskNotFound)
        }
    }

    /// A project with a fresh identifier and no tasks.
    pub fn new(name: &String, description: &String) -> (r: Project)
        ensures
            r.name@ == name@,
            r.description@ == description@,
            r.tasks@ == Map::<u128, ProjectTask>::empty(),
            r.wf(),
            is_v4_identifier(r.id),
    {
        Project {
            id: new_identifier(),
            name: name.clone(),
            description: description.clone(),
            tasks: HashMap::new(),
        }
    }

    /// Adds a task of the default kind in state todo and returns its identifier.
    pub fn create_task(&mut self, name: &String, description: &String) -> (r: u128)
        ensures
            Project::creates_task(*old(self), *final(self), r, name@, description@),
            old(self).wf() ==> final(self).wf(),
    {
        let task = ProjectTask::new(name.as_str(), description.as_str(), "default", "todo");
        proof {
            reveal_strlit("todo");
        }
        let task_id = task.id;
        self.tasks.insert(task_id, task);
        task_id
    }

    /// Removes the task with identifier `task_id`; fails when there is none.
    pub fn destroy_task(&mut self, task_id: &u128) -> (r: Result<bool, StoreError>)
        ensures
            Project::destroys_task(*old(self), *final(self), *task_id, r),
            old(self).wf() ==> final(self).wf(),
    {
        match self.tasks.remove(task_id) {
            Some(_) => Ok(true),
            None => Err(StoreError::TaskNotFound),
        }
    }
}

/// The whole collection of projects, keyed by project identifier.
#[derive(Debug, Clone)]
pub struct ProjectData {
    projects: HashMap<u128, Project>,
}

impl View for ProjectData {
    type V = Map<u128, Project>;

    closed spec fn view(&self) -> Map<u128, Project> {
        self.projects@
    }
}

/// The collection made from `s` by storing each project under its own
/// identifier, in order, so that a later project replaces an earlier one with
/// the same identifier.
pub open spec fn map_of_projects(s: Seq<Project>) -> Map<u128, Project>
    decreases s.len(),
{
    if s.len() == 0 {
        Map::empty()
    } else {
        map_of_projects(s.drop_last()).insert(s.last().id, s.last())
    }
}

/// `p` is the project that project creation makes under identifier `id`.
pub open spec fn is_new_project(p: Project, id: u128, name: Seq<char>, description: Seq<char>) -> bool {
    &&& p.id == id
    &&& is_v4_identifier(id)
    &&& p.name@ == name
    &&& p.description@ == description
    &&& p.tasks@ == Map::<u128, ProjectTask>::empty()
}

impl ProjectData {
    /// Every project is stored under its own identifier and is itself well formed.
    pub open spec fn wf(&self) -> bool {
        forall|k: u128| #[trigger] self@.contains_key(k) ==> self@[k].id == k && self@[k].wf()
    }

    /// The project stored under `id`, if any.
    pub open spec fn lookup(&self, id: u128) -> Option<Project> {
        if self@.contains_key(id) {
            Some(self@[id])
        } else {
            None
        }
    }

    /// `new` is `old` with a fresh project of identifier `id` added.
    pub open spec fn creates_project(
        old: ProjectData,
        new: ProjectData,
        id: u128,
        name: Seq<char>,
        description: Seq<char>,
    ) -> bool {
        &&& is_new_project(new@[id], id, name, description)
        &&& new@ == old@.insert(id, new@[id])
    }

    /// `new` is `old` after a removal of project `id` that answered `r`.
    pub open spec fn destroys_project(
        old: ProjectData,
        new: ProjectData,
        id: u128,
        r: Result<bool, StoreError>,
    ) -> bool {
        &&& new@ == old@.remove(id)
        &&& r == if old@.contains_key(id) {
            Ok::<bool, StoreError>(true)
        } else {
            Err::<bool, StoreError>(StoreError::ProjectNotFound)
        }
    }

    /// `s` holds every project of the collection, each once.
    pub open spec fn lists_all(&self, s: Seq<Project>) -> bool {
        &&& s.len() == self@.dom().len()
        &&& forall|i: int| 0 <= i < s.len() ==> self@.values().contains(#[trigger] s[i])
        &&& forall|k: u128| #[trigger] self@.contains_key(k) ==> exists|i: int|
            0 <= i < s.len() && s[i] == self@[k]
    }

    /// An empty collection.
    pub fn new() -> (r: ProjectData)
        ensures
            r@ == Map::<u128, Project>::empty(),
            r.wf(),
    {
        ProjectData { projects: HashMap::new() }
    }

    /// Adds a project with no tasks and returns its identifier.
    pub fn create_project(&mut self, name: &String, description: &String) -> (r: u128)
        ensures
            ProjectData::creates_project(*old(self), *final(self), r, name@, description@),
            old(self).wf() ==> final(self).wf(),
    {
        let project = Project::new(name, description);
        let project_id = project.id;
        self.projects.insert(project_id, project);
        proof {
            assert(self@ == self.projects@);
            assert(old(self)@ == old(self).projects@);
        }
        project_id
    }

    /// Removes the project with identifier `project_id`, tasks and all; fails
    /// when there is none.
    pub fn destroy_project(&mut self, project_id: &u128) -> (r: Result<bool, StoreError>)
        ensures
            ProjectData::destroys_project(*old(self), *final(self), *project_id, r),
            old(self).wf() ==> final(self).wf(),
    {
        let r = match self.projects.remove(project_id) {
            Some(_) => Ok(true),
            None => Err(StoreError::ProjectNotFound),
        };
        proof {
            assert(self@ == self.projects@);
            assert(old(self)@ == old(self).projects@);
        }
        r
    }

    /// The project with identifier `project_id`, if there is one.
    pub fn get_project(&self, project_id: &u128) -> (r: Option<&Project>)
        ensures
            match r {
                Some(p) => self.lookup(*project_id) == Some(*p),
                None => self.lookup(*project_id) is None,
            },
    {
        self.projects.get(project_id)
    }

    /// Mutable access to the project with identifier `project_id`, if there is
    /// one; whatever is written through it is what the collection then holds.
    pub fn get_project_mut(&mut self, project_id: &u128) -> (r: Option<&mut Project>)
        ensures
            match r {
                Some(p) => {
                    &&& old(self)@.contains_key(*project_id)
                    &&& *p == old(self)@[*project_id]
                    &&& final(self)@ == old(self)@.insert(*project_id, *final(p))
                },
                None => {
                    &&& !old(self)@.contains_key(*project_id)
                    &&& final(self)@ == old(self)@
                },
            },
    {
        match self.projects.entry(*project_id) {
            std::collections::hash_map::Entry::Occupied(e) => Some(e.into_mut()),
            std::collections::hash_map::Entry::Vacant(_) => None,
        }
    }

    /// Every project of the collection, each once, in no particular order.
    pub fn get_projects(&self) -> (r: Vec<&Project>)
        ensures
            self.lists_all(r@.map_values(|p: &Project| *p)),
    {
        let mut r: Vec<&Project> = Vec::new();
        let ghost v = vstd::std_specs::iter::IteratorSpec::remaining(
            &vstd::std_specs::hash::spec_hash_map_iter(&self.projects),
        );
        for entry in it: self.projects.iter()
            invariant
                it.seq() == v,
                r@.len() == it.index(),
                forall|i: int| 0 <= i < it.index() ==> r@[i] == it.seq()[i].1,
        {
            let (_, p) = entry;
            r.push(p);
        }
        proof {
            let s = r@.map_values(|p: &Project| *p);
            assert forall|i: int| 0 <= i < s.len() implies self@.values().contains(#[trigger] s[i]) by {
                assert(self@.contains_key(*v[i].0) && self@[*v[i].0] == *v[i].1);
            }
            assert forall|k: u128| #[trigger] self@.contains_key(k) implies exists|i: int|
                0 <= i < s.len() && s[i] == self@[k] by {
                assert(v.contains((&k, &self@[k])));
                let i = choose|i: int| 0 <= i < v.len() && v[i] == (&k, &self@[k]);
                assert(s[i] == self@[k]);
            }
        }
        r
    }

    /// The collection to start from, given what was read from storage:
    /// `None` when nothing was stored yet.
    pub fn from_stored(stored: Option<Vec<Project>>) -> (r: ProjectData)
        ensures
            stored is None ==> r@ == Map::<u128, Project>::empty(),
            stored is Some ==> r@ == map_of_projects(stored->Some_0@),
            r.wf() <== (forall|i: int|
                #![trigger stored->Some_0@[i]]
                stored is Some && 0 <= i < stored->Some_0@.len() ==> stored->Some_0@[i].wf()),
    {
        match stored {
            Some(projects) => ProjectData::from_projects(projects),
            None => ProjectData::new(),
        }
    }

    /// A collection holding the given projects, each under its own identifier.
    pub fn from_projects(projects: Vec<Project>) -> (r: ProjectData)
        ensures
            r@ == map_of_projects(projects@),
            (forall|i: int| 0 <= i < projects@.len() ==> (#[trigger] projects@[i]).wf()) ==> r.wf(),
    {
        let mut m: HashMap<u128, Project> = HashMap::new();
        let ghost v = projects@;
        for p in it: projects.into_iter()
            invariant
                it.seq() == v,
                m@ == map_of_projects(it.seq().take(it.index())),
        {
            proof {
                assert(it.seq().take(it.index() + 1).drop_last() == it.seq().take(it.index()));
            }
            let id = p.id;
            m.insert(id, p);
        }
        proof {
            assert(v.take(v.len() as int) == v);
        }
        let r = ProjectData { projects: m };
        proof {
            lemma_map_of_projects(projects@);
        }
        r
    }
}

/// Each stored key is the identifier of a project in `s`, under which the
/// last such project is stored.
pub(crate) proof fn lemma_map_of_projects(s: Seq<Project>)
    ensures
        forall|k: u128| #[trigger] map_of_projects(s).contains_key(k) ==> exists|i: int|
            0 <= i < s.len() && s[i].id == k && map_of_projects(s)[k] == s[i],
        forall|i: int| 0 <= i < s.len() ==> map_of_projects(s).contains_key(#[trigger] s[i].id),
    decreases s.len(),
{
    if s.len() > 0 {
        lemma_map_of_projects(s.drop_last());
        let m = map_of_projects(s);
        assert forall|k: u128| #[trigger] m.contains_key(k) implies exists|i: int|
            0 <= i < s.len() && s[i].id == k && m[k] == s[i] by {
            if k != s.last().id {
                let i = choose|i: int| 0 <= i < s.len() - 1 && s.drop_last()[i].id == k
                    && map_of_projects(s.drop_last())[k] == s.drop_last()[i];
                assert(s[i] == s.drop_last()[i]);
            } else {
                assert(s[s.len() - 1] == s.last());
            }
        }
        assert forall|i: int| 0 <= i < s.len() implies m.contains_key(#[trigger] s[i].id) by {
            if i < s.len() - 1 {
                assert(s[i] == s.drop_last()[i]);
            }
        }
    }
}

} // verus!
