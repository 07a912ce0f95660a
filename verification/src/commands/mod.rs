//! The git-x commands. Each command reads git's answers and decides: a
//! report, or git invocations to run followed by a report (a `Plan`).
pub mod plan;
pub mod commit;
pub mod branch;
pub mod repository;
pub mod stash;
pub mod analysis;
pub mod completion;
