//! The items that most users of the library need.

pub use crate::admob::{AdMobManager, AdmobAdsSystem, InitStatus};
pub use crate::config::AdMobConfig;
pub use crate::manager::AdManager;
pub use crate::message::{AdMessage, AdType};
pub use crate::native::AdMobNative;
pub use crate::platform::{NativeCall, Platform, RecordingPlatform};
