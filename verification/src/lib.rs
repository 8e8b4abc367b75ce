//! Decision logic of a windowed application shell: the clipboard, the
//! default appearance, the window registry, the state machines that drive
//! an application instance and its event loop, and what the graphics
//! backend draws of a frame.
pub mod appearance;
pub mod backend;
pub mod clipboard;
pub mod instance;
pub mod interfaces;
pub mod runner;
pub mod window_manager;
