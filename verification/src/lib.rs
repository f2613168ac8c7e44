//! Carry-safe timestamp arithmetic.
//!
//! The core of this crate is [`Timespec`], a point in time represented as a
//! whole-seconds count plus a sub-second nanosecond fraction that is kept
//! normalized in `[0, 1_000_000_000)` by every operation.  Two clock value
//! types are built on it: [`Instant`] for monotonic readings and
//! [`SystemTime`] for wall-clock readings anchored to the epoch.  All
//! arithmetic detects overflow against the width of the seconds field and
//! reports an absent result instead of wrapping.
//!
//! Querying the platform's raw clock source, and the pointer-device binding
//! that shares this crate's error convention, are left to the unverified
//! embedding around the library; the library only converts and combines the
//! plain values they hand it.

pub mod cursor;
pub mod duration;
pub mod error;
pub mod instant;
pub mod system_time;
pub mod timespec;

pub use cursor::Cursor;
pub use duration::Duration;
pub use error::Error;
pub use instant::Instant;
pub use system_time::SystemTime;
pub use timespec::Timespec;
