//! The logic of a desktop control panel, apart from its widgets and its
//! threads: how lines of text become rows, how a page waits for its content
//! and takes it once, which page is shown and which key shows it, what a
//! switch of the power profile runs, and how the facts about the machine
//! are read out of what it reports.

pub mod app;
pub mod navigation;
pub mod pages;
pub mod shortcuts;
pub mod text;
pub mod window;
