pub mod action;
pub mod assignment;
pub mod entity;
pub mod failure;
pub mod objective;
pub mod task;
pub mod world;
pub mod reducer;
pub mod policy;
pub mod scheduler;
pub mod proposal;
pub mod proposal_text;
pub mod scenario;
pub mod proposal_laws;
