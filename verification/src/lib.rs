//! Core logic of a small notepad application: the session state machine
//! behind the File menu, the print pager that splits a document into
//! fixed-size pages, and the style-rule generator behind the View menu.
//!
//! The surrounding GUI shell gathers events (menu activations, chooser
//! results, file contents) and performs the actions this library decides
//! on (replacing the text surface, writing a file, applying a style rule).

pub mod about;
pub mod pager;
pub mod session;
pub mod style;
