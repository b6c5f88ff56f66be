//! A terminal dashboard: a fixed, ordered collection of content panels under a
//! shared navigation chrome.
//!
//! The library holds everything the dashboard decides and computes: the
//! selection/quit state machine of the controller ([`app::App`]), the input
//! model it dispatches on ([`event`]), the frame geometry (a width-capped,
//! horizontally centered region split into a one-row tab bar and a bordered
//! content region, [`geom`]), and the two panels ([`overview`], [`cv`]).
//! Drawing glyphs into the terminal buffer is delegated to ratatui through
//! the trusted wrappers in [`draw`], each with a named effect on the
//! buffer's contents, so the render functions' contracts pin which widget
//! drew what, where, and in what order; reading input events and managing
//! the terminal itself belong to the surrounding binary.

pub mod accent;
pub mod app;
pub mod cv;
pub mod draw;
pub mod event;
pub mod geom;
pub mod overview;
pub mod panel;
