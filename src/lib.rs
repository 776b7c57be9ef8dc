//! A terminal session with a pausable timer shown above a ruled grid: the timer's state
//! machine, the plan of which cell draws which grid line and junction, and the text of the
//! header's clock.
pub mod app;
pub mod grid;
pub mod header;
pub mod render;
pub mod timer;
