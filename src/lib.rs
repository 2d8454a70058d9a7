//! A mouse button that does not depend on any windowing backend, and the
//! conversion into it from winit's own mouse button.

pub mod button;
pub mod from_winit;

pub use button::Button;
