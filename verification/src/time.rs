//! Mock time primitives: a duration value, a periodic ticker, and a one-shot
//! timer whose resolutions are observable through a bounded capture channel.

pub mod duration;
pub mod ticker;
pub mod timer;

pub use duration::Duration;
pub use ticker::{MockTicker, MockTickerError, Ticker};
pub use timer::{CaptureChannel, Empty, MockTimer, Timer};
