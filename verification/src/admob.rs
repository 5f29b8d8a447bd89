//! The AdMob backend: the state machine of its initialization, and the
//! operations that it forwards to the platform once it is initialized.

use vstd::prelude::*;
use crate::config::{AdMobConfig, AdMobConfigView};
use crate::manager::AdManager;
use crate::message::{message_views, AdMessage, AdMessageView, AdType};
use crate::native::AdMobNative;
use crate::platform::{NativeCallView, Platform};

verus! {

/// How far the initialization of the platform's SDK has come.
#[derive(Debug, Clone, Copy, Hash, PartialEq, Eq, PartialOrd, Ord, Structural)]
pub enum InitStatus {
    NotInitialized,
    Initializing,
    Initialized,
    Failed,
}

impl Default for InitStatus {
    fn default() -> (status: InitStatus)
        ensures
            status == InitStatus::NotInitialized,
    {
        InitStatus::NotInitialized
    }
}

/// AdMob manager resource: the owner of the initialization status.
#[derive(Debug)]
pub struct AdMobManager {
    init_status: InitStatus,
}

impl AdMobManager {
    /// The status that the manager holds.
    pub closed spec fn status(&self) -> InitStatus {
        self.init_status
    }

    /// The status that the manager holds.
    pub fn init_status(&self) -> (status: InitStatus)
        ensures
            status == self.status(),
    {
        self.init_status
    }

    /// Whether the platform has reported a successful initialization that no
    /// later initialization has put in question.
    pub fn is_initialized(&self) -> (initialized: bool)
        ensures
            initialized == (self.status() == InitStatus::Initialized),
    {
        self.init_status == InitStatus::Initialized
    }
}

impl Default for AdMobManager {
    fn default() -> (manager: AdMobManager)
        ensures
            manager.status() == InitStatus::NotInitialized,
    {
        AdMobManager { init_status: InitStatus::NotInitialized }
    }
}

/// The view of an optional configuration.
pub open spec fn optional_config_view(cfg: Option<AdMobConfig>) -> Option<AdMobConfigView> {
    match cfg {
        Some(cfg) => Some(cfg@),
        None => None,
    }
}

/// The call that shows the slot's ad.
pub open spec fn show_call(ad_type: AdType) -> NativeCallView {
    match ad_type {
        AdType::Banner => NativeCallView::ShowBannerAd,
        AdType::Interstitial => NativeCallView::ShowInterstitialAd,
        AdType::Rewarded => NativeCallView::ShowRewardedAd,
    }
}

/// The AdMob backend: the owner of the initialization status, the
/// configuration if the host has supplied one, and the handle to the
/// platform.
pub struct AdmobAdsSystem<P: Platform> {
    pub r: AdMobManager,
    pub cfg: Option<AdMobConfig>,
    pub native: AdMobNative<P>,
}

impl<P: Platform> AdmobAdsSystem<P> {
    /// The initialization status.
    pub open spec fn status(&self) -> InitStatus {
        self.r.status()
    }

    /// The configuration, if there is one.
    pub open spec fn config(&self) -> Option<AdMobConfigView> {
        optional_config_view(self.cfg)
    }

    /// The width of the banner: the configured one, or 100 without a
    /// configuration.
    pub open spec fn banner_width(&self) -> i32 {
        match self.config() {
            Some(cfg) => cfg.banner_width,
            None => 100,
        }
    }

    /// The height of the banner: the configured one, or 100 without a
    /// configuration.
    pub open spec fn banner_height(&self) -> i32 {
        match self.config() {
            Some(cfg) => cfg.banner_height,
            None => 100,
        }
    }

    /// The call that loads an ad for the slot from the ad unit.
    pub open spec fn load_call(&self, ad_type: AdType, ad_id: Seq<char>) -> NativeCallView {
        match ad_type {
            AdType::Banner => NativeCallView::LoadBannerAd {
                ad_unit_id: ad_id,
                width: self.banner_width(),
                height: self.banner_height(),
            },
            AdType::Interstitial => NativeCallView::LoadInterstitialAd { ad_unit_id: ad_id },
            AdType::Rewarded => NativeCallView::LoadRewardedAd { ad_unit_id: ad_id },
        }
    }

    /// An operation was rejected: the answer is `false`, nothing was asked of
    /// the platform and the backend is as it was.
    pub open spec fn rejected(pre: Self, post: Self, accepted: bool) -> bool {
        !accepted && post == pre
    }

    /// An operation was forwarded: the platform performed `call` and nothing
    /// else, `answer` is the platform's answer to it, and the status and the
    /// configuration are as they were.
    pub open spec fn forwarded(pre: Self, call: NativeCallView, post: Self, answer: bool) -> bool {
        &&& P::answered(pre.native.manager(), call, post.native.manager(), answer)
        &&& post.r == pre.r
        &&& post.cfg == pre.cfg
    }

    /// The platform performed `call` and nothing else, whatever it answered.
    pub open spec fn performed(pre: Self, call: NativeCallView, post: Self) -> bool {
        exists|answer: bool| #[trigger] P::answered(pre.native.manager(), call, post.native.manager(), answer)
    }

    /// The slot's show primitive: forwarded by an initialized backend,
    /// rejected by any other.
    pub open spec fn show_step(pre: Self, ad_type: AdType, post: Self, accepted: bool) -> bool {
        if pre.status() == InitStatus::Initialized {
            Self::forwarded(pre, show_call(ad_type), post, accepted)
        } else {
            Self::rejected(pre, post, accepted)
        }
    }

    /// The slot's hide primitive: only a banner can be hidden, and only by an
    /// initialized backend, which forwards it; every other hide is rejected.
    pub open spec fn hide_step(pre: Self, ad_type: AdType, post: Self, accepted: bool) -> bool {
        if ad_type == AdType::Banner && pre.status() == InitStatus::Initialized {
            Self::forwarded(pre, NativeCallView::HideBannerAd, post, accepted)
        } else {
            Self::rejected(pre, post, accepted)
        }
    }

    /// The slot's load primitive: the load of a banner is forwarded whatever
    /// the status; the other slots are forwarded by an initialized backend
    /// and rejected by any other.
    pub open spec fn load_step(
        pre: Self,
        ad_type: AdType,
        ad_id: Seq<char>,
        post: Self,
        accepted: bool,
    ) -> bool {
        if ad_type == AdType::Banner || pre.status() == InitStatus::Initialized {
            Self::forwarded(pre, pre.load_call(ad_type, ad_id), post, accepted)
        } else {
            Self::rejected(pre, post, accepted)
        }
    }

    /// The load by slot alone, with the slot's configured ad unit: rejected
    /// without a configuration.
    pub open spec fn load_configured_step(pre: Self, ad_type: AdType, post: Self, accepted: bool) -> bool {
        match pre.config() {
            Some(cfg) => Self::load_step(pre, ad_type, cfg.ad_unit_id(ad_type), post, accepted),
            None => Self::rejected(pre, post, accepted),
        }
    }

    /// An initialization attempt. It is rejected without a configuration and
    /// while an earlier attempt is in progress. Otherwise, whether the
    /// backend was never initialized, has failed or is initialized, it is
    /// accepted: the platform is asked to initialize, for the configured test
    /// device, and the status is `Initializing` until the result of the
    /// attempt is handled. What the platform answers to the call is not
    /// waited for: the result comes as an event.
    pub open spec fn initialize_step(pre: Self, post: Self, accepted: bool) -> bool {
        match pre.config() {
            None => Self::rejected(pre, post, accepted),
            Some(cfg) => if pre.status() == InitStatus::Initializing {
                Self::rejected(pre, post, accepted)
            } else {
                &&& accepted
                &&& post.status() == InitStatus::Initializing
                &&& post.cfg == pre.cfg
                &&& Self::performed(
                    pre,
                    NativeCallView::Initialize { test_device_id: cfg.test_device_id },
                    post,
                )
            },
        }
    }

    /// The trigger of the first initialization: an initialized backend is
    /// left alone, any other makes an attempt.
    pub open spec fn start_step(pre: Self, post: Self, started: bool) -> bool {
        if pre.status() == InitStatus::Initialized {
            Self::rejected(pre, post, started)
        } else {
            Self::initialize_step(pre, post, started)
        }
    }

    /// The handling of one drained event. The result of an initialization
    /// settles the status. A success also loads the slot that the
    /// configuration names for it, from that slot's ad unit: the platform
    /// performs that one call. Every other event leaves the backend as it
    /// is.
    pub open spec fn handle_step(pre: Self, event: AdMessageView, post: Self) -> bool {
        match event {
            AdMessageView::Initialized { success } => {
                &&& post.status() == if success {
                    InitStatus::Initialized
                } else {
                    InitStatus::Failed
                }
                &&& post.cfg == pre.cfg
                &&& match pre.config() {
                    Some(cfg) if success && cfg.load_ad_on_init is Some => Self::performed(
                        pre,
                        pre.load_call(
                            cfg.load_ad_on_init.unwrap(),
                            cfg.ad_unit_id(cfg.load_ad_on_init.unwrap()),
                        ),
                        post,
                    ),
                    _ => post.native == pre.native,
                }
            },
            _ => post == pre,
        }
    }

    /// The handling of the drained events, one after the other in their
    /// order.
    pub open spec fn handle_steps(pre: Self, events: Seq<AdMessageView>, post: Self) -> bool
        decreases events.len(),
    {
        if events.len() == 0 {
            post == pre
        } else {
            exists|mid: Self|
                Self::handle_steps(pre, events.drop_last(), mid) && #[trigger] Self::handle_step(
                    mid,
                    events.last(),
                    post,
                )
        }
    }

    /// Loads an ad for the slot from the slot's configured ad unit.
    pub fn load_ad_type(&mut self, ad_type: AdType) -> (accepted: bool)
        ensures
            Self::load_configured_step(*old(self), ad_type, *final(self), accepted),
    {
        let ad_unit = match &self.cfg {
            Some(config) => config.get_ad_unit_id(ad_type),
            None => {
                return false;
            },
        };
        self.load_ad(ad_type, ad_unit.as_str())
    }

    /// The height of the banner.
    pub fn get_banner_height(&self, _ad_id: &str) -> (height: i32)
        ensures
            height == self.banner_height(),
    {
        match &self.cfg {
            Some(c) => c.banner_height,
            None => 100,
        }
    }

    /// The width of the banner.
    pub fn get_banner_width(&self, _ad_id: &str) -> (width: i32)
        ensures
            width == self.banner_width(),
    {
        match &self.cfg {
            Some(c) => c.banner_width,
            None => 100,
        }
    }
}

impl<P: Platform> AdManager for AdmobAdsSystem<P> {
    open spec fn initialized_is(&self, answer: bool) -> bool {
        answer == (self.status() == InitStatus::Initialized)
    }

    /// Never ready before the backend is initialized, then as the platform
    /// reports it.
    open spec fn interstitial_ready_is(&self, answer: bool) -> bool {
        if self.status() == InitStatus::Initialized {
            self.native.manager().reports_interstitial_ready(answer)
        } else {
            !answer
        }
    }

    /// Never ready before the backend is initialized, then as the platform
    /// reports it.
    open spec fn rewarded_ready_is(&self, answer: bool) -> bool {
        if self.status() == InitStatus::Initialized {
            self.native.manager().reports_rewarded_ready(answer)
        } else {
            !answer
        }
    }

    open spec fn initializing(pre: Self, post: Self, accepted: bool) -> bool {
        Self::initialize_step(pre, post, accepted)
    }

    open spec fn loaded(pre: Self, ad_type: AdType, ad_id: Seq<char>, post: Self, accepted: bool) -> bool {
        Self::load_step(pre, ad_type, ad_id, post, accepted)
    }

    open spec fn shown(pre: Self, ad_type: AdType, post: Self, accepted: bool) -> bool {
        Self::show_step(pre, ad_type, post, accepted)
    }

    open spec fn hidden(pre: Self, ad_type: AdType, post: Self, accepted: bool) -> bool {
        Self::hide_step(pre, ad_type, post, accepted)
    }

    fn initialize(&mut self) -> (accepted: bool)
        ensures
            Self::initialize_step(*old(self), *final(self), accepted),
    {
        let device_id = match &self.cfg {
            Some(cfg) => cfg.test_device_id.clone(),
            None => {
                return false;
            },
        };
        if self.r.init_status == InitStatus::Initializing {
            return false;
        }
        self.r.init_status = InitStatus::Initializing;
        let answer = self.native.initialize(device_id);
        assert(P::answered(
            old(self).native.manager(),
            NativeCallView::Initialize { test_device_id: old(self).config().unwrap().test_device_id },
            self.native.manager(),
            answer,
        ));
        true
    }

    fn is_initialized(&self) -> (initialized: bool)
        ensures
            initialized == (self.status() == InitStatus::Initialized),
    {
        let initialized = self.r.is_initialized();
        assert(self.initialized_is(initialized));
        initialized
    }

    fn show_banner(&mut self) -> (accepted: bool)
        ensures
            Self::show_step(*old(self), AdType::Banner, *final(self), accepted),
    {
        if !self.is_initialized() {
            return false;
        }
        self.native.show_banner_ad()
    }

    fn show_interstitial(&mut self) -> (accepted: bool)
        ensures
            Self::show_step(*old(self), AdType::Interstitial, *final(self), accepted),
    {
        if !self.is_initialized() {
            return false;
        }
        self.native.show_interstitial_ad()
    }

    fn show_rewarded(&mut self) -> (accepted: bool)
        ensures
            Self::show_step(*old(self), AdType::Rewarded, *final(self), accepted),
    {
        if !self.is_initialized() {
            return false;
        }
        self.native.show_rewarded_ad()
    }

    fn hide_banner(&mut self) -> (accepted: bool)
        ensures
            Self::hide_step(*old(self), AdType::Banner, *final(self), accepted),
    {
        if !self.is_initialized() {
            return false;
        }
        self.native.hide_banner_ad()
    }

    fn hide_interstitial(&mut self) -> (accepted: bool)
        ensures
            Self::hide_step(*old(self), AdType::Interstitial, *final(self), accepted),
    {
        false
    }

    fn hide_rewarded(&mut self) -> (accepted: bool)
        ensures
            Self::hide_step(*old(self), AdType::Rewarded, *final(self), accepted),
    {
        false
    }

    fn load_banner(&mut self, ad_id: &str) -> (accepted: bool)
        ensures
            Self::load_step(*old(self), AdType::Banner, ad_id@, *final(self), accepted),
    {
        let banner_width = self.get_banner_width(ad_id);
        let banner_height = self.get_banner_height(ad_id);
        self.native.load_banner_ad(ad_id, banner_width, banner_height)
    }

    fn load_interstitial(&mut self, ad_id: &str) -> (accepted: bool)
        ensures
            Self::load_step(*old(self), AdType::Interstitial, ad_id@, *final(self), accepted),
    {
        if !self.is_initialized() {
            return false;
        }
        self.native.load_interstitial_ad(ad_id)
    }

    fn load_rewarded(&mut self, ad_id: &str) -> (accepted: bool)
        ensures
            Self::load_step(*old(self), AdType::Rewarded, ad_id@, *final(self), accepted),
    {
        if !self.is_initialized() {
            return false;
        }
        self.native.load_rewarded_ad(ad_id)
    }

    fn is_interstitial_ready(&self) -> (ready: bool) {
        if !self.is_initialized() {
            return false;
        }
        self.native.is_interstitial_ready()
    }

    fn is_rewarded_ready(&self) -> (ready: bool) {
        if !self.is_initialized() {
            return false;
        }
        self.native.is_rewarded_ready()
    }
}

/// Of two initialization attempts with no result handled in between, the
/// first is accepted and the second rejected: the platform is asked to
/// initialize once, and the status is `Initializing` after the first attempt
/// and after the second.
pub proof fn lemma_second_initialize_is_rejected<P: Platform>(
    pre: AdmobAdsSystem<P>,
    mid: AdmobAdsSystem<P>,
    post: AdmobAdsSystem<P>,
    first: bool,
    second: bool,
)
    requires
        pre.cfg is Some,
        pre.status() != InitStatus::Initializing,
        AdmobAdsSystem::initialize_step(pre, mid, first),
        AdmobAdsSystem::initialize_step(mid, post, second),
    ensures
        first,
        !second,
        mid.status() == InitStatus::Initializing,
        post == mid,
        AdmobAdsSystem::performed(
            pre,
            NativeCallView::Initialize { test_device_id: pre.config().unwrap().test_device_id },
            mid,
        ),
{
}

/// The trigger fires once: whatever the first trigger did, a second one
/// with no result handled in between starts nothing and changes nothing.
pub proof fn lemma_start_fires_once<P: Platform>(
    pre: AdmobAdsSystem<P>,
    mid: AdmobAdsSystem<P>,
    post: AdmobAdsSystem<P>,
    first: bool,
    second: bool,
)
    requires
        AdmobAdsSystem::start_step(pre, mid, first),
        AdmobAdsSystem::start_step(mid, post, second),
    ensures
        !second,
        post == mid,
{
}

/// Only the result of an initialization changes the backend: events among
/// which there is none leave it as it is, so an attempt stays in progress
/// until its result is handled.
pub proof fn lemma_status_waits_for_result<P: Platform>(
    pre: AdmobAdsSystem<P>,
    events: Seq<AdMessageView>,
    post: AdmobAdsSystem<P>,
)
    requires
        AdmobAdsSystem::handle_steps(pre, events, post),
        forall|i: int| 0 <= i < events.len() ==> !(events[i] is Initialized),
    ensures
        post == pre,
    decreases events.len(),
{
    if events.len() > 0 {
        let mid = choose|mid: AdmobAdsSystem<P>|
            AdmobAdsSystem::handle_steps(pre, events.drop_last(), mid)
                && #[trigger] AdmobAdsSystem::handle_step(mid, events.last(), post);
        lemma_status_waits_for_result(pre, events.drop_last(), mid);
    }
}

/// What the result of an initialization does. A failure sets the status to
/// `Failed` and asks nothing of the platform. A success sets the status to
/// `Initialized`, and asks the platform for exactly one thing where the
/// configuration names a slot to load: that slot's ad, from its configured ad
/// unit. Without such a slot it asks nothing.
pub proof fn lemma_result_settles_status<P: Platform>(
    pre: AdmobAdsSystem<P>,
    success: bool,
    post: AdmobAdsSystem<P>,
)
    requires
        AdmobAdsSystem::handle_step(pre, AdMessageView::Initialized { success }, post),
    ensures
        post.cfg == pre.cfg,
        !success ==> post.status() == InitStatus::Failed && post.native == pre.native,
        success ==> post.status() == InitStatus::Initialized,
        success && (pre.config() is None || pre.config().unwrap().load_ad_on_init is None)
            ==> post.native == pre.native,
        success && pre.config() is Some && pre.config().unwrap().load_ad_on_init is Some ==> {
            let cfg = pre.config().unwrap();
            let ad_type = cfg.load_ad_on_init.unwrap();
            AdmobAdsSystem::performed(pre, pre.load_call(ad_type, cfg.ad_unit_id(ad_type)), post)
        },
{
}

/// A backend that is not initialized rejects every show, every hide and
/// every load but that of a banner, and is left as it was: nothing is asked
/// of the platform, and no ad counts as ready but the banner. The load of a
/// banner is forwarded whatever the status, and its answer is the
/// platform's.
pub proof fn lemma_uninitialized_rejects<P: Platform>(
    pre: AdmobAdsSystem<P>,
    ad_type: AdType,
    ad_id: Seq<char>,
    post: AdmobAdsSystem<P>,
    accepted: bool,
)
    requires
        pre.status() != InitStatus::Initialized,
    ensures
        AdmobAdsSystem::show_step(pre, ad_type, post, accepted) ==> !accepted && post == pre,
        AdmobAdsSystem::hide_step(pre, ad_type, post, accepted) ==> !accepted && post == pre,
        ad_type != AdType::Banner && AdmobAdsSystem::load_step(pre, ad_type, ad_id, post, accepted)
            ==> !accepted && post == pre,
        AdmobAdsSystem::load_step(pre, AdType::Banner, ad_id, post, accepted) ==> {
            &&& P::answered(
                pre.native.manager(),
                NativeCallView::LoadBannerAd {
                    ad_unit_id: ad_id,
                    width: pre.banner_width(),
                    height: pre.banner_height(),
                },
                post.native.manager(),
                accepted,
            )
            &&& post.status() == pre.status()
            &&& post.cfg == pre.cfg
        },
        pre.interstitial_ready_is(true) == false,
        pre.rewarded_ready_is(true) == false,
{
}

/// Starts the initialization of a backend that is not initialized, and says
/// whether an attempt was accepted.
pub fn initialize_admob<P: Platform>(manager: &mut AdmobAdsSystem<P>) -> (started: bool)
    ensures
        AdmobAdsSystem::start_step(*old(manager), *final(manager), started),
{
    if !manager.is_initialized() {
        manager.initialize()
    } else {
        false
    }
}

/// Applies the events of one drain to the backend, in their order.
pub fn on_admob_initialized<P: Platform>(events: &[AdMessage], manager: &mut AdmobAdsSystem<P>)
    ensures
        AdmobAdsSystem::handle_steps(*old(manager), message_views(events@), *final(manager)),
{
    let ghost views = message_views(events@);
    let mut i: usize = 0;
    while i < events.len()
        invariant
            0 <= i <= events.len(),
            views == message_views(events@),
            AdmobAdsSystem::handle_steps(*old(manager), views.take(i as int), *manager),
        decreases events.len() - i,
    {
        let ghost before = *manager;
        assert(views.take(i + 1).drop_last() == views.take(i as int));
        if let AdMessage::Initialized { success } = &events[i] {
            manager.r.init_status = if *success {
                InitStatus::Initialized
            } else {
                InitStatus::Failed
            };
            if *success {
                let ad = match &manager.cfg {
                    Some(config) => config.try_get_ad_to_load_on_init(),
                    None => None,
                };
                if let Some((ad, ad_type)) = ad {
                    manager.load_ad(ad_type, ad.as_str());
                }
            }
        }
        assert(AdmobAdsSystem::handle_steps(*old(manager), views.take(i + 1).drop_last(), before)
            && AdmobAdsSystem::handle_step(before, views.take(i + 1).last(), *manager));
        i += 1;
    }
    assert(views.take(events.len() as int) == views);
}

} // verus!
