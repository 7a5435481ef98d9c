//! A gateway over several storage backends: the registry of providers, the
//! naming of their credential records, and the decisions of the dispatcher.

pub mod config;
pub mod dispatch;
pub mod error;
pub mod identity;
pub mod objects;
pub mod provision;
pub mod registry;
pub mod startup;
