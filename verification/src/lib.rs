//! Terminal browser core for reviewing the open issues of one repository:
//! the in-memory issue model, the filter/selection state machine, and the
//! pure render pipeline that turns that state into styled text regions.
//!
//! All I/O — fetching issues, the terminal, the clipboard, the browser —
//! stays outside: the core takes fetch outcomes and key events as plain
//! values and hands back text, actions and a frame to paint.

pub mod app;
pub mod input;
pub mod model;
pub mod text;
pub mod ui;
