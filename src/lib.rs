//! The core of a distributed job scheduler: the fire sequence of each job, the
//! local task table, the lock that lets one node of a fleet run a tick, the
//! stages of one fire, the two sync loops and the job directory's steps.

pub mod cron_eval;
pub mod directory;
pub mod dto;
pub mod event_dto;
pub mod iam_set;
pub mod job;
pub mod laws;
pub mod lock;
pub mod pipeline;
pub mod registry;
pub mod sync;
pub mod task_serv;
