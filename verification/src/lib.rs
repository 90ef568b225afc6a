//! A small terminal viewer core: an ordered registry of drawable items
//! rendered as paginated text, driven by a two-mode keyboard state machine.
//!
//! The library holds the pure logic: the registry and its rendering, the
//! mode-dependent key mapping, the navigation-state transitions, and the
//! line splitting / page clamping of the render step. Terminal input and
//! painting live outside, in the binary that drives the loop.

pub mod draw;
pub mod laws;
pub mod text;

pub use draw::Drawable;
pub use draw::Field;
pub use draw::RecordItem;
pub use draw::Resources;
pub use draw::ResourcesV;
pub use draw::TextItem;
pub use draw::TsuikaEvent;
pub use draw::TsuikaMode;
