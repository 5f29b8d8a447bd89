//! Ad monetization for a component-based game loop: the ad slots and the
//! lifecycle events, the event queue, the capability interface that the
//! backends share, a mock backend, and the AdMob backend with the state
//! machine of its initialization, its handle to the platform's SDK and the
//! interface through which the handle reaches that SDK.

pub mod admob;
pub mod config;
pub mod fake_ads;
pub mod manager;
pub mod message;
pub mod native;
pub mod platform;
pub mod prelude;
pub mod queue;

pub use admob::{AdMobManager, AdmobAdsSystem, InitStatus};
pub use config::AdMobConfig;
pub use native::AdMobNative;
