//! A Game of Life library: a fixed-size boolean grid with bounds-checked
//! accessors, the standard neighbor-counting update rule, and the session
//! state that an interactive front end drives (run/pause, pending step,
//! repaint requests, zoom).

pub mod grid;
pub mod patterns;
pub mod session;

pub use grid::Grid;
pub use session::DriverAction;
pub use session::Session;
