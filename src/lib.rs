//! A small project and task tracker: projects own tasks, the collection owns
//! projects, and every entity is keyed by its own random identifier.

pub mod config;
pub mod laws;
pub mod project;

pub use crate::config::Config;
pub use crate::config::PersistenceMode;
pub use crate::project::Project;
pub use crate::project::ProjectData;
pub use crate::project::ProjectTask;
pub use crate::project::ProjectTaskStatus;
pub use crate::project::ProjectTaskType;
pub use crate::project::StoreError;
