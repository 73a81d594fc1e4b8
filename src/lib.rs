//! A floating-window layout engine on the device-pixel grid: window slots,
//! z-order, hit testing, dragging with edge snapping, and anchoring to the
//! edges of the hosting area.
pub mod debug;
pub mod dim;
pub mod drag;
pub mod fan;
pub mod interaction;
pub mod layout;
pub mod metrics;
pub mod model;
pub mod session;
pub mod snapping;

pub use layout::{WinId, WindowingState};
