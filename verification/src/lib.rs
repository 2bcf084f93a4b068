//! Core logic of the LavaTimer desktop shell: the menu-bar timer, its title,
//! the expansion direction and placement of the floating window, and edge
//! snapping. Everything here works on plain integers and strings; the
//! windowing layer hands values in and applies the results.

pub mod clock;
pub mod tray_timer;
pub mod title;
pub mod expansion;
pub mod placement;
pub mod snap;
pub mod layout;
