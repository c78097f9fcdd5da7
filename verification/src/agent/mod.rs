//! Agent core: context window, output budget, planning, prompts, routing and tasks.

pub mod context;
pub mod intent;
pub mod memory;
pub mod orchestrator;
pub mod output_budget;
pub mod planner;
pub mod prompt_builder;
pub mod router;
pub mod session;
pub mod task;
