pub mod artifact;
pub mod causal_export;
pub mod causal_graph;
pub mod causal_laws;
pub mod causal_labels;
pub mod event_log;
pub mod replay;
pub mod scenario;
pub mod scenario_world;
pub mod laws;
pub mod verification;
