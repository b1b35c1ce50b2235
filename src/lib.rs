//! Session logic of an interactive terminal browser for a package registry:
//! the action vocabulary, the view-mode state machine, the search/filter input
//! field, the navigable result set, the registry of cancellable fetches, and
//! the controller that ties them together.
pub mod action;
pub mod crate_info;
pub mod input;
pub mod mode;
pub mod picker;
pub mod prompt;
pub mod search_results;
pub mod sort;
pub mod task_registry;
