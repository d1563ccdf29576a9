//! Verified core of a terminal dashboard for Databricks workspaces: the data
//! shapes shown in its panels, the mapping from CLI responses to those shapes,
//! the dashboard's state machine, and the text that each panel displays.

pub mod shape;
pub mod text;
pub mod json;
pub mod fetchers;
pub mod app;
pub mod view;
pub mod keys;
