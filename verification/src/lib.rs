//! Library of a terminal launcher for Windows games on Linux: its state
//! machine, its data model and the computations around them.

pub mod onboarding;
pub mod text;
pub mod game;
pub mod prefix;
pub mod database;
pub mod naming;
pub mod runner;
pub mod process;
pub mod installer;
pub mod view;
pub mod app;
