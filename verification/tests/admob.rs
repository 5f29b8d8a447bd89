use bevy_admob::admob::{
    initialize_admob, on_admob_initialized, AdMobManager, AdmobAdsSystem, InitStatus,
};
use bevy_admob::config::AdMobConfig;
use bevy_admob::manager::AdManager;
use bevy_admob::message::{AdMessage, AdType};
use bevy_admob::native::AdMobNative;
use bevy_admob::platform::{NativeCall, RecordingPlatform};

fn config() -> AdMobConfig {
    AdMobConfig {
        banner_ad_unit_id: "banner-unit".to_string(),
        interstitial_ad_unit_id: "interstitial-unit".to_string(),
        rewarded_ad_unit_id: "rewarded-unit".to_string(),
        load_ad_on_init: None,
        test_device_id: None,
        banner_width: 320,
        banner_height: 48,
    }
}

type Backend = AdmobAdsSystem<RecordingPlatform>;

fn system(cfg: Option<AdMobConfig>) -> Backend {
    AdmobAdsSystem {
        r: AdMobManager::default(),
        cfg,
        native: AdMobNative::new(RecordingPlatform::new()),
    }
}

fn initialized(cfg: AdMobConfig) -> Backend {
    let mut ads = system(Some(cfg));
    assert!(ads.initialize());
    on_admob_initialized(&[AdMessage::Initialized { success: true }], &mut ads);
    calls(&mut ads);
    ads
}

/// The calls that the platform has performed since the last look.
fn calls(ads: &mut Backend) -> Vec<NativeCall> {
    ads.native.platform_mut().take_calls()
}

fn set_ready(ads: &mut Backend, slot: AdType, ready: bool) {
    match slot {
        AdType::Banner => {}
        AdType::Interstitial => ads.native.platform_mut().interstitial_ready = ready,
        AdType::Rewarded => ads.native.platform_mut().rewarded_ready = ready,
    }
}

/// Makes the platform refuse (`false`) or take (`true`) the calls to come.
fn set_answer(ads: &mut Backend, answer: bool) {
    ads.native.platform_mut().answer = answer;
}

const SLOTS: [AdType; 3] = [AdType::Banner, AdType::Interstitial, AdType::Rewarded];

#[test]
fn a_new_manager_is_not_initialized() {
    let manager = AdMobManager::default();
    assert_eq!(manager.init_status(), InitStatus::NotInitialized);
    assert!(!manager.is_initialized());
}

#[test]
fn the_default_status_is_not_initialized() {
    assert_eq!(InitStatus::default(), InitStatus::NotInitialized);
}

#[test]
fn init_status_is_ordered() {
    assert!(InitStatus::NotInitialized < InitStatus::Initializing);
    assert!(InitStatus::Initializing < InitStatus::Initialized);
    assert!(InitStatus::Initialized < InitStatus::Failed);
}

#[test]
fn initialize_asks_the_platform_and_waits() {
    let mut ads = system(Some(config()));
    assert!(ads.initialize());
    assert_eq!(ads.r.init_status(), InitStatus::Initializing);
    assert!(!ads.is_initialized());
    assert_eq!(calls(&mut ads), vec![NativeCall::Initialize { test_device_id: None }]);
}

#[test]
fn initialize_passes_the_test_device() {
    let mut cfg = config();
    cfg.set_test_device_id("device-1".to_string());
    let mut ads = system(Some(cfg));
    assert!(ads.initialize());
    assert_eq!(
        calls(&mut ads),
        vec![NativeCall::Initialize { test_device_id: Some("device-1".to_string()) }]
    );
}

#[test]
fn initialize_twice_accepts_one_and_rejects_one() {
    let mut ads = system(Some(config()));
    assert!(ads.initialize());
    assert!(!ads.initialize());
    assert_eq!(ads.r.init_status(), InitStatus::Initializing);
    assert_eq!(calls(&mut ads), vec![NativeCall::Initialize { test_device_id: None }]);
}

#[test]
fn status_stays_initializing_until_the_result_is_drained() {
    let mut ads = system(Some(config()));
    assert!(ads.initialize());
    on_admob_initialized(
        &[
            AdMessage::ConsentGathered { success: true, error: String::new() },
            AdMessage::AdLoaded { ad_type: "banner".to_string() },
            AdMessage::AdFailedToLoad { ad_type: "banner".to_string(), error: "e".to_string() },
            AdMessage::AdOpened { ad_type: "banner".to_string() },
            AdMessage::AdClosed { ad_type: "banner".to_string() },
            AdMessage::RewardedAdEarnedReward { amount: 1, reward_type: "r".to_string() },
        ],
        &mut ads,
    );
    assert_eq!(ads.r.init_status(), InitStatus::Initializing);
    on_admob_initialized(&[], &mut ads);
    assert_eq!(ads.r.init_status(), InitStatus::Initializing);
    on_admob_initialized(&[AdMessage::Initialized { success: true }], &mut ads);
    assert_eq!(ads.r.init_status(), InitStatus::Initialized);
    assert!(ads.is_initialized());
}

#[test]
fn initialize_without_configuration_is_rejected() {
    let mut ads = system(None);
    assert!(!ads.initialize());
    assert_eq!(ads.r.init_status(), InitStatus::NotInitialized);
    assert_eq!(calls(&mut ads), Vec::<NativeCall>::new());
}

#[test]
fn a_failed_initialization_can_be_retried() {
    let mut ads = system(Some(config()));
    assert!(ads.initialize());
    on_admob_initialized(&[AdMessage::Initialized { success: false }], &mut ads);
    assert_eq!(ads.r.init_status(), InitStatus::Failed);
    assert!(!ads.is_initialized());
    assert!(ads.initialize());
    assert_eq!(ads.r.init_status(), InitStatus::Initializing);
    on_admob_initialized(&[AdMessage::Initialized { success: true }], &mut ads);
    assert_eq!(ads.r.init_status(), InitStatus::Initialized);
    assert_eq!(
        calls(&mut ads),
        vec![
            NativeCall::Initialize { test_device_id: None },
            NativeCall::Initialize { test_device_id: None },
        ]
    );
}

#[test]
fn success_loads_the_configured_slot_once() {
    let mut cfg = config();
    cfg.load_ad_on_init = Some(AdType::Rewarded);
    let mut ads = system(Some(cfg));
    assert!(ads.initialize());
    calls(&mut ads);
    on_admob_initialized(&[AdMessage::Initialized { success: true }], &mut ads);
    assert_eq!(ads.r.init_status(), InitStatus::Initialized);
    assert_eq!(
        calls(&mut ads),
        vec![NativeCall::LoadRewardedAd { ad_unit_id: "rewarded-unit".to_string() }]
    );
}

#[test]
fn success_loads_a_configured_banner_with_its_size() {
    let mut cfg = config();
    cfg.load_ad_on_init = Some(AdType::Banner);
    let mut ads = system(Some(cfg));
    assert!(ads.initialize());
    calls(&mut ads);
    on_admob_initialized(&[AdMessage::Initialized { success: true }], &mut ads);
    assert_eq!(
        calls(&mut ads),
        vec![NativeCall::LoadBannerAd {
            ad_unit_id: "banner-unit".to_string(),
            width: 320,
            height: 48,
        }]
    );
}

#[test]
fn success_without_a_configured_slot_loads_nothing() {
    let mut ads = system(Some(config()));
    assert!(ads.initialize());
    calls(&mut ads);
    on_admob_initialized(&[AdMessage::Initialized { success: true }], &mut ads);
    assert_eq!(ads.r.init_status(), InitStatus::Initialized);
    assert_eq!(calls(&mut ads), Vec::<NativeCall>::new());
}

#[test]
fn failure_loads_nothing_and_sets_failed() {
    let mut cfg = config();
    cfg.load_ad_on_init = Some(AdType::Rewarded);
    let mut ads = system(Some(cfg));
    assert!(ads.initialize());
    calls(&mut ads);
    on_admob_initialized(&[AdMessage::Initialized { success: false }], &mut ads);
    assert_eq!(ads.r.init_status(), InitStatus::Failed);
    assert_eq!(calls(&mut ads), Vec::<NativeCall>::new());
}

#[test]
fn results_are_handled_in_their_order() {
    let mut cfg = config();
    cfg.load_ad_on_init = Some(AdType::Interstitial);
    let mut ads = system(Some(cfg));
    on_admob_initialized(
        &[
            AdMessage::Initialized { success: true },
            AdMessage::AdLoaded { ad_type: "interstitial".to_string() },
            AdMessage::Initialized { success: false },
            AdMessage::Initialized { success: true },
        ],
        &mut ads,
    );
    assert_eq!(ads.r.init_status(), InitStatus::Initialized);
    assert_eq!(
        calls(&mut ads),
        vec![
            NativeCall::LoadInterstitialAd { ad_unit_id: "interstitial-unit".to_string() },
            NativeCall::LoadInterstitialAd { ad_unit_id: "interstitial-unit".to_string() },
        ]
    );
    on_admob_initialized(&[AdMessage::Initialized { success: false }], &mut ads);
    assert_eq!(ads.r.init_status(), InitStatus::Failed);
}

#[test]
fn not_initialized_rejects_every_show_and_hide() {
    let mut ads = system(Some(config()));
    for slot in SLOTS {
        assert!(!ads.show_ad(slot));
        assert!(!ads.hide_ad(slot));
    }
    assert!(!ads.show_banner());
    assert!(!ads.show_interstitial());
    assert!(!ads.show_rewarded());
    assert!(!ads.hide_banner());
    assert!(!ads.hide_interstitial());
    assert!(!ads.hide_rewarded());
    assert_eq!(ads.r.init_status(), InitStatus::NotInitialized);
    assert_eq!(calls(&mut ads), Vec::<NativeCall>::new());
}

#[test]
fn not_initialized_rejects_loads_but_the_banner() {
    let mut ads = system(Some(config()));
    assert!(!ads.load_ad(AdType::Interstitial, "x"));
    assert!(!ads.load_ad(AdType::Rewarded, "x"));
    assert!(!ads.load_interstitial("x"));
    assert!(!ads.load_rewarded("x"));
    assert!(!ads.load_ad_type(AdType::Interstitial));
    assert!(!ads.load_ad_type(AdType::Rewarded));
    assert_eq!(calls(&mut ads), Vec::<NativeCall>::new());
    assert!(ads.load_ad(AdType::Banner, "x"));
    assert!(ads.load_ad_type(AdType::Banner));
    assert_eq!(
        calls(&mut ads),
        vec![
            NativeCall::LoadBannerAd { ad_unit_id: "x".to_string(), width: 320, height: 48 },
            NativeCall::LoadBannerAd {
                ad_unit_id: "banner-unit".to_string(),
                width: 320,
                height: 48,
            },
        ]
    );
    assert_eq!(ads.r.init_status(), InitStatus::NotInitialized);
}

#[test]
fn initializing_and_failed_reject_like_not_initialized() {
    let mut ads = system(Some(config()));
    assert!(ads.initialize());
    calls(&mut ads);
    set_ready(&mut ads, AdType::Interstitial, true);
    set_ready(&mut ads, AdType::Rewarded, true);
    for slot in SLOTS {
        assert!(!ads.show_ad(slot));
        assert!(!ads.hide_ad(slot));
    }
    assert!(!ads.load_ad(AdType::Rewarded, "x"));
    assert!(!ads.is_ad_ready(AdType::Interstitial));
    assert!(!ads.is_ad_ready(AdType::Rewarded));
    on_admob_initialized(&[AdMessage::Initialized { success: false }], &mut ads);
    for slot in SLOTS {
        assert!(!ads.show_ad(slot));
        assert!(!ads.hide_ad(slot));
    }
    assert!(!ads.load_ad(AdType::Interstitial, "x"));
    assert_eq!(calls(&mut ads), Vec::<NativeCall>::new());
}

#[test]
fn banner_size_without_configuration_is_100_by_100() {
    let mut ads = system(None);
    assert_eq!(ads.get_banner_width("x"), 100);
    assert_eq!(ads.get_banner_height("x"), 100);
    assert!(ads.load_banner("x"));
    assert_eq!(
        calls(&mut ads),
        vec![NativeCall::LoadBannerAd { ad_unit_id: "x".to_string(), width: 100, height: 100 }]
    );
}

#[test]
fn banner_size_comes_from_the_configuration() {
    let ads = system(Some(config()));
    assert_eq!(ads.get_banner_width("x"), 320);
    assert_eq!(ads.get_banner_height("x"), 48);
    let ads = system(Some(AdMobConfig::default()));
    assert_eq!(ads.get_banner_width("x"), 150);
    assert_eq!(ads.get_banner_height("x"), 50);
}

#[test]
fn load_ad_type_without_configuration_is_rejected() {
    let mut ads = system(None);
    for slot in SLOTS {
        assert!(!ads.load_ad_type(slot));
    }
    assert_eq!(calls(&mut ads), Vec::<NativeCall>::new());
}

#[test]
fn initialized_forwards_loads() {
    let mut ads = initialized(config());
    assert!(ads.load_ad(AdType::Banner, "b"));
    assert!(ads.load_ad(AdType::Interstitial, "i"));
    assert!(ads.load_ad(AdType::Rewarded, "r"));
    assert!(ads.load_ad_type(AdType::Interstitial));
    assert_eq!(
        calls(&mut ads),
        vec![
            NativeCall::LoadBannerAd { ad_unit_id: "b".to_string(), width: 320, height: 48 },
            NativeCall::LoadInterstitialAd { ad_unit_id: "i".to_string() },
            NativeCall::LoadRewardedAd { ad_unit_id: "r".to_string() },
            NativeCall::LoadInterstitialAd { ad_unit_id: "interstitial-unit".to_string() },
        ]
    );
}

#[test]
fn show_of_an_ad_that_is_not_ready_is_rejected_and_not_forwarded() {
    let mut ads = initialized(config());
    assert!(!ads.is_ad_ready(AdType::Interstitial));
    assert!(!ads.show_ad(AdType::Interstitial));
    assert!(!ads.is_ad_ready(AdType::Rewarded));
    assert!(!ads.show_ad(AdType::Rewarded));
    assert_eq!(calls(&mut ads), Vec::<NativeCall>::new());
}

#[test]
fn show_of_a_ready_ad_is_forwarded() {
    let mut ads = initialized(config());
    set_ready(&mut ads, AdType::Interstitial, true);
    assert!(ads.is_ad_ready(AdType::Interstitial));
    assert!(ads.is_interstitial_ready());
    assert!(!ads.is_rewarded_ready());
    assert!(ads.show_ad(AdType::Interstitial));
    assert!(!ads.show_ad(AdType::Rewarded));
    set_ready(&mut ads, AdType::Rewarded, true);
    assert!(ads.show_ad(AdType::Rewarded));
    assert_eq!(
        calls(&mut ads),
        vec![NativeCall::ShowInterstitialAd, NativeCall::ShowRewardedAd]
    );
}

#[test]
fn a_banner_is_always_ready() {
    let mut ads = initialized(config());
    assert!(ads.is_banner_ready());
    assert!(ads.is_ad_ready(AdType::Banner));
    assert!(ads.show_ad(AdType::Banner));
    assert!(ads.hide_ad(AdType::Banner));
    assert_eq!(calls(&mut ads), vec![NativeCall::ShowBannerAd, NativeCall::HideBannerAd]);
    let ads = system(None);
    assert!(ads.is_ad_ready(AdType::Banner));
}

#[test]
fn only_a_banner_can_be_hidden() {
    let mut ads = initialized(config());
    assert!(!ads.hide_ad(AdType::Interstitial));
    assert!(!ads.hide_ad(AdType::Rewarded));
    assert_eq!(calls(&mut ads), Vec::<NativeCall>::new());
}

#[test]
fn initialize_admob_starts_once() {
    let mut ads = system(Some(config()));
    assert!(initialize_admob(&mut ads));
    assert_eq!(ads.r.init_status(), InitStatus::Initializing);
    assert!(!initialize_admob(&mut ads));
    on_admob_initialized(&[AdMessage::Initialized { success: true }], &mut ads);
    assert!(!initialize_admob(&mut ads));
    assert_eq!(ads.r.init_status(), InitStatus::Initialized);
    assert_eq!(calls(&mut ads), vec![NativeCall::Initialize { test_device_id: None }]);
}

#[test]
fn initialize_admob_without_configuration_starts_nothing() {
    let mut ads = system(None);
    assert!(!initialize_admob(&mut ads));
    assert_eq!(ads.r.init_status(), InitStatus::NotInitialized);
    assert_eq!(calls(&mut ads), Vec::<NativeCall>::new());
}

#[test]
fn a_new_initialization_puts_an_initialized_backend_back_in_progress() {
    let mut ads = initialized(config());
    assert!(ads.initialize());
    assert_eq!(ads.r.init_status(), InitStatus::Initializing);
    assert!(!ads.is_initialized());
    assert!(!ads.initialize());
    assert_eq!(calls(&mut ads), vec![NativeCall::Initialize { test_device_id: None }]);
}

#[test]
fn a_forwarded_show_answers_what_the_platform_answers() {
    let mut ads = initialized(config());
    set_ready(&mut ads, AdType::Interstitial, true);
    set_ready(&mut ads, AdType::Rewarded, true);
    set_answer(&mut ads, false);
    assert!(!ads.show_rewarded());
    assert!(!ads.show_interstitial());
    assert!(!ads.show_banner());
    assert!(!ads.show_ad(AdType::Rewarded));
    assert_eq!(ads.r.init_status(), InitStatus::Initialized);
    assert_eq!(
        calls(&mut ads),
        vec![
            NativeCall::ShowRewardedAd,
            NativeCall::ShowInterstitialAd,
            NativeCall::ShowBannerAd,
            NativeCall::ShowRewardedAd,
        ]
    );
    set_answer(&mut ads, true);
    assert!(ads.show_rewarded());
    assert!(ads.show_interstitial());
    assert!(ads.show_banner());
    assert_eq!(ads.r.init_status(), InitStatus::Initialized);
}

#[test]
fn a_forwarded_load_answers_what_the_platform_answers() {
    let mut ads = initialized(config());
    set_answer(&mut ads, false);
    assert!(!ads.load_banner("b"));
    assert!(!ads.load_interstitial("i"));
    assert!(!ads.load_rewarded("r"));
    assert!(!ads.load_ad_type(AdType::Rewarded));
    assert_eq!(ads.r.init_status(), InitStatus::Initialized);
    assert_eq!(
        calls(&mut ads),
        vec![
            NativeCall::LoadBannerAd { ad_unit_id: "b".to_string(), width: 320, height: 48 },
            NativeCall::LoadInterstitialAd { ad_unit_id: "i".to_string() },
            NativeCall::LoadRewardedAd { ad_unit_id: "r".to_string() },
            NativeCall::LoadRewardedAd { ad_unit_id: "rewarded-unit".to_string() },
        ]
    );
    set_answer(&mut ads, true);
    assert!(ads.load_banner("b"));
    assert!(ads.load_interstitial("i"));
    assert!(ads.load_rewarded("r"));
}

#[test]
fn a_forwarded_hide_answers_what_the_platform_answers() {
    let mut ads = initialized(config());
    set_answer(&mut ads, false);
    assert!(!ads.hide_banner());
    set_answer(&mut ads, true);
    assert!(ads.hide_banner());
    assert_eq!(calls(&mut ads), vec![NativeCall::HideBannerAd, NativeCall::HideBannerAd]);
}

#[test]
fn a_banner_load_before_initialization_answers_what_the_platform_answers() {
    let mut ads = system(Some(config()));
    set_answer(&mut ads, false);
    assert!(!ads.load_banner("b"));
    assert!(!ads.load_ad(AdType::Banner, "c"));
    set_answer(&mut ads, true);
    assert!(ads.load_banner("d"));
    assert_eq!(ads.r.init_status(), InitStatus::NotInitialized);
    assert_eq!(
        calls(&mut ads),
        vec![
            NativeCall::LoadBannerAd { ad_unit_id: "b".to_string(), width: 320, height: 48 },
            NativeCall::LoadBannerAd { ad_unit_id: "c".to_string(), width: 320, height: 48 },
            NativeCall::LoadBannerAd { ad_unit_id: "d".to_string(), width: 320, height: 48 },
        ]
    );
}

#[test]
fn an_accepted_initialize_does_not_wait_for_the_platforms_answer() {
    let mut ads = system(Some(config()));
    set_answer(&mut ads, false);
    assert!(ads.initialize());
    assert_eq!(ads.r.init_status(), InitStatus::Initializing);
    assert_eq!(calls(&mut ads), vec![NativeCall::Initialize { test_device_id: None }]);
}

#[test]
fn readiness_is_asked_of_the_platform_only_once_initialized() {
    let mut ads = system(Some(config()));
    set_ready(&mut ads, AdType::Interstitial, true);
    set_ready(&mut ads, AdType::Rewarded, true);
    assert!(!ads.is_interstitial_ready());
    assert!(!ads.is_rewarded_ready());
    assert!(ads.initialize());
    on_admob_initialized(&[AdMessage::Initialized { success: true }], &mut ads);
    assert!(ads.is_interstitial_ready());
    assert!(ads.is_rewarded_ready());
    set_ready(&mut ads, AdType::Rewarded, false);
    assert!(ads.is_interstitial_ready());
    assert!(!ads.is_rewarded_ready());
}
