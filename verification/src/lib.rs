//! The verified core of Git Control, a task-driven desktop client for Git.
//!
//! Everything the client decides or computes lives here: what a repository's
//! status means, which index operations an action takes, how the commit graph
//! is laid out, and how the whole application state moves from one user action
//! to the next. Reading a repository, running `git` and drawing widgets happen
//! outside, around this library.
use vstd::prelude::*;

pub mod actions;
pub mod app;
pub mod app_laws;
pub mod clicks;
pub mod clock;
pub mod collect;
pub mod effects;
pub mod git_error;
pub mod git_service;
pub mod graph;
pub mod laws;
pub mod model;
pub mod object_id;
pub mod panels;
pub mod panes;
pub mod paths;
pub mod plan_laws;
pub mod plans;
pub mod reading_laws;
pub mod readings;
pub mod sort;
pub mod status;
pub mod text;
pub mod text_laws;
pub mod view_laws;
pub mod widgets;
