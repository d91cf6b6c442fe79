//! Platform support for a windowing event loop on ToyOS: keyboard and pointer translation,
//! modifier tracking, the redraw queue and the decisions of the event loop.

pub mod keyboard;
pub mod modifiers;
pub mod text;
pub mod event;
pub mod event_loop;
pub mod redraw;
pub mod run_loop;
pub mod window;

pub use self::event_loop::PlatformSpecificEventLoopAttributes;
