//! The decision logic of the kestrel browser shell: the clipboard stand-in,
//! the URL bar and navigation state machine, the choice and sizing of the
//! drawing surface, and the layout of the overlay user interface.

pub mod clipboard;
pub mod weburl;
pub mod shell;
pub mod surface;
pub mod overlay;
