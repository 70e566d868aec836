use taskstore::config::config_or_default;
use taskstore::{Config, PersistenceMode};
use taskstore::{Project, ProjectData, ProjectTask, ProjectTaskStatus, ProjectTaskType, StoreError};

fn s(text: &str) -> String {
    text.to_string()
}

#[test]
fn status_names_are_read() {
    assert_eq!(ProjectTaskStatus::from_str("todo"), Ok(ProjectTaskStatus::Todo));
    assert_eq!(ProjectTaskStatus::from_str("in_progress"), Ok(ProjectTaskStatus::InProgress));
    assert_eq!(ProjectTaskStatus::from_str("complete"), Ok(ProjectTaskStatus::Complete));
}

#[test]
fn unknown_status_names_give_default() {
    for text in ["", "Todo", "default", "TODO", "in-progress", "complete ", "done"] {
        assert_eq!(ProjectTaskStatus::from_str(text), Ok(ProjectTaskStatus::Default), "{text}");
    }
}

#[test]
fn kind_names_are_read() {
    assert_eq!(ProjectTaskType::from_str("default"), Ok(ProjectTaskType::Default));
    assert_eq!(ProjectTaskType::from_str("Default"), Err(()));
    assert_eq!(ProjectTaskType::from_str(""), Err(()));
}

#[test]
fn task_new_reads_kind_and_status() {
    let t = ProjectTask::new("write", "the report", "default", "in_progress");
    assert_eq!(t.name, "write");
    assert_eq!(t.description, "the report");
    assert_eq!(t.type_, ProjectTaskType::Default);
    assert_eq!(t.status, ProjectTaskStatus::InProgress);
}

#[test]
fn task_new_falls_back_on_unknown_names() {
    let t = ProjectTask::new("a", "b", "epic", "blocked");
    assert_eq!(t.type_, ProjectTaskType::Default);
    assert_eq!(t.status, ProjectTaskStatus::Default);
}

#[test]
fn identifiers_are_random_version_four() {
    let a = ProjectTask::new("a", "b", "default", "todo");
    let b = ProjectTask::new("a", "b", "default", "todo");
    assert_ne!(a.id, b.id);
    for id in [a.id, b.id] {
        assert_eq!((id >> 76) & 0xF, 4);
        assert_eq!((id >> 62) & 0x3, 2);
    }
}

#[test]
fn project_new_is_empty() {
    let p = Project::new(&s("home"), &s("chores"));
    assert_eq!(p.name, "home");
    assert_eq!(p.description, "chores");
    assert!(p.tasks.is_empty());
    assert_eq!((p.id >> 76) & 0xF, 4);
}

#[test]
fn created_project_is_found() {
    let mut data = ProjectData::new();
    let id = data.create_project(&s("garden"), &s("plant trees"));
    let p = data.get_project(&id).expect("project present");
    assert_eq!(p.id, id);
    assert_eq!(p.name, "garden");
    assert_eq!(p.description, "plant trees");
    assert!(p.tasks.is_empty());
    assert_eq!(data.get_projects().len(), 1);
}

#[test]
fn created_task_is_todo() {
    let mut p = Project::new(&s("p"), &s("d"));
    let id = p.create_task(&s("dig"), &s("a hole"));
    let t = p.tasks.get(&id).expect("task present");
    assert_eq!(t.id, id);
    assert_eq!(t.name, "dig");
    assert_eq!(t.description, "a hole");
    assert_eq!(t.status, ProjectTaskStatus::Todo);
    assert_eq!(t.type_, ProjectTaskType::Default);
    assert_eq!(p.name, "p");
}

#[test]
fn destroy_created_project() {
    let mut data = ProjectData::new();
    let id = data.create_project(&s("a"), &s("b"));
    assert_eq!(data.destroy_project(&id), Ok(true));
    assert!(data.get_project(&id).is_none());
    assert_eq!(data.get_projects().len(), 0);
}

#[test]
fn destroy_unknown_project_fails() {
    let mut data = ProjectData::new();
    let id = data.create_project(&s("a"), &s("b"));
    let unknown = id ^ 1;
    assert_eq!(data.destroy_project(&unknown), Err(StoreError::ProjectNotFound));
    assert!(data.get_project(&id).is_some());
}

#[test]
fn destroy_task_twice() {
    let mut p = Project::new(&s("p"), &s("d"));
    let keep = p.create_task(&s("keep"), &s(""));
    let id = p.create_task(&s("drop"), &s(""));
    assert_eq!(p.destroy_task(&id), Ok(true));
    assert!(!p.tasks.contains_key(&id));
    assert!(p.tasks.contains_key(&keep));
    assert_eq!(p.destroy_task(&id), Err(StoreError::TaskNotFound));
    assert_eq!(p.tasks.len(), 1);
}

#[test]
fn tasks_through_mutable_lookup() {
    let mut data = ProjectData::new();
    let pid = data.create_project(&s("a"), &s("b"));
    let tid = data.get_project_mut(&pid).expect("present").create_task(&s("t"), &s("u"));
    let p = data.get_project(&pid).expect("present");
    assert_eq!(p.tasks.get(&tid).expect("task").name, "t");
    assert!(data.get_project_mut(&(pid ^ 1)).is_none());
}

#[test]
fn listing_rebuilds_collection() {
    let mut data = ProjectData::new();
    let mut ids = Vec::new();
    for n in 0..20 {
        let pid = data.create_project(&format!("p{n}"), &format!("d{n}"));
        for m in 0..5 {
            data.get_project_mut(&pid).unwrap().create_task(&format!("t{m}"), &format!("u{m}"));
        }
        ids.push(pid);
    }
    let listed: Vec<Project> = data.get_projects().into_iter().cloned().collect();
    assert_eq!(listed.len(), 20);
    let rebuilt = ProjectData::from_projects(listed);
    for pid in ids {
        assert_eq!(rebuilt.get_project(&pid), data.get_project(&pid));
        assert_eq!(rebuilt.get_project(&pid).unwrap().tasks.len(), 5);
    }
    assert_eq!(rebuilt.get_projects().len(), 20);
}

#[test]
fn empty_listing_rebuilds_empty() {
    let data = ProjectData::new();
    let listed: Vec<Project> = data.get_projects().into_iter().cloned().collect();
    assert!(ProjectData::from_projects(listed).get_projects().is_empty());
}

#[test]
fn later_project_replaces_earlier_with_same_id() {
    let a = Project::new(&s("first"), &s(""));
    let mut b = Project::new(&s("second"), &s(""));
    b.id = a.id;
    let data = ProjectData::from_projects(vec![a.clone(), b]);
    assert_eq!(data.get_projects().len(), 1);
    assert_eq!(data.get_project(&a.id).unwrap().name, "second");
}

#[test]
fn nothing_stored_gives_empty_collection() {
    let data = ProjectData::from_stored(None);
    assert!(data.get_projects().is_empty());
    let p = Project::new(&s("x"), &s("y"));
    let id = p.id;
    let data = ProjectData::from_stored(Some(vec![p]));
    assert_eq!(data.get_project(&id).unwrap().name, "x");
}

#[test]
fn missing_config_gives_default() {
    let c = config_or_default(None);
    assert_eq!(c, Config::default());
    assert_eq!(c.persistence_mode, PersistenceMode::JSON);
    let given = Config { persistence_mode: PersistenceMode::JSON };
    assert_eq!(config_or_default(Some(given)), given);
}

#[test]
fn names_parse_through_from_str_trait() {
    assert_eq!("todo".parse::<ProjectTaskStatus>(), Ok(ProjectTaskStatus::Todo));
    assert_eq!("complete".parse::<ProjectTaskStatus>(), Ok(ProjectTaskStatus::Complete));
    assert_eq!("other".parse::<ProjectTaskStatus>(), Ok(ProjectTaskStatus::Default));
    assert_eq!("default".parse::<ProjectTaskType>(), Ok(ProjectTaskType::Default));
    assert_eq!("epic".parse::<ProjectTaskType>(), Err(()));
}

#[test]
fn created_identifiers_are_version_four() {
    let mut data = ProjectData::new();
    let pid = data.create_project(&s("a"), &s("b"));
    let tid = data.get_project_mut(&pid).unwrap().create_task(&s("t"), &s("u"));
    for id in [pid, tid] {
        assert_eq!(id & 0xF000C000000000000000u128, 0x40008000000000000000u128);
    }
}
