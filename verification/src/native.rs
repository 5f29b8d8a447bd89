//! The boundary to the platform's ad SDK. Outbound, the handle forwards each
//! operation to the platform and hands back the platform's answer. Inbound,
//! each callback of the platform becomes one lifecycle event on the queue.

use vstd::prelude::*;
use std::marker::PhantomData;
use std::rc::Rc;
use crate::config::optional_string_view;
use crate::message::{AdMessage, AdMessageView};
use crate::platform::{NativeCall, NativeCallView, Platform};
use crate::queue::{write_event_to_queue, EventQueue};

verus! {

/// The handle to the platform's ad SDK. It belongs to one thread: it can be
/// neither sent to another nor shared with one.
pub struct AdMobNative<P: Platform> {
    manager: P,
    _not_send_sync: PhantomData<Rc<()>>,
}

impl<P: Platform> AdMobNative<P> {
    /// The platform behind the handle.
    pub closed spec fn manager(&self) -> P {
        self.manager
    }

    /// A handle to the given platform.
    pub fn new(manager: P) -> (native: AdMobNative<P>)
        ensures
            native.manager() == manager,
    {
        AdMobNative { manager, _not_send_sync: PhantomData }
    }

    /// The platform behind the handle.
    pub fn platform(&self) -> (platform: &P)
        ensures
            *platform == self.manager(),
    {
        &self.manager
    }

    /// The platform behind the handle, for its holder to change.
    pub fn platform_mut(&mut self) -> (platform: &mut P)
        ensures
            *platform == old(self).manager(),
            final(self).manager() == *final(platform),
    {
        &mut self.manager
    }

    /// Asks the platform to initialize its SDK, for the test device if one is
    /// named, and hands back the platform's answer.
    pub fn initialize(&mut self, test_device_id: Option<String>) -> (answer: bool)
        ensures
            P::answered(
                old(self).manager(),
                NativeCallView::Initialize { test_device_id: optional_string_view(test_device_id) },
                final(self).manager(),
                answer,
            ),
    {
        self.manager.perform(NativeCall::Initialize { test_device_id })
    }

    /// Asks the platform to load a banner of the given size from the ad unit,
    /// and hands back the platform's answer.
    pub fn load_banner_ad(&mut self, ad_unit_id: &str, width: i32, height: i32) -> (answer: bool)
        ensures
            P::answered(
                old(self).manager(),
                NativeCallView::LoadBannerAd { ad_unit_id: ad_unit_id@, width, height },
                final(self).manager(),
                answer,
            ),
    {
        self.manager.perform(
            NativeCall::LoadBannerAd { ad_unit_id: ad_unit_id.to_owned(), width, height },
        )
    }

    /// Asks the platform to show the banner, and hands back its answer.
    pub fn show_banner_ad(&mut self) -> (answer: bool)
        ensures
            P::answered(old(self).manager(), NativeCallView::ShowBannerAd, final(self).manager(), answer),
    {
        self.manager.perform(NativeCall::ShowBannerAd)
    }

    /// Asks the platform to hide the banner, and hands back its answer.
    pub fn hide_banner_ad(&mut self) -> (answer: bool)
        ensures
            P::answered(old(self).manager(), NativeCallView::HideBannerAd, final(self).manager(), answer),
    {
        self.manager.perform(NativeCall::HideBannerAd)
    }

    /// Asks the platform to load an interstitial ad from the ad unit, and
    /// hands back its answer.
    pub fn load_interstitial_ad(&mut self, ad_unit_id: &str) -> (answer: bool)
        ensures
            P::answered(
                old(self).manager(),
                NativeCallView::LoadInterstitialAd { ad_unit_id: ad_unit_id@ },
                final(self).manager(),
                answer,
            ),
    {
        self.manager.perform(NativeCall::LoadInterstitialAd { ad_unit_id: ad_unit_id.to_owned() })
    }

    /// Asks the platform to show the interstitial ad, and hands back its
    /// answer.
    pub fn show_interstitial_ad(&mut self) -> (answer: bool)
        ensures
            P::answered(
                old(self).manager(),
                NativeCallView::ShowInterstitialAd,
                final(self).manager(),
                answer,
            ),
    {
        self.manager.perform(NativeCall::ShowInterstitialAd)
    }

    /// Asks the platform to load a rewarded ad from the ad unit, and hands
    /// back its answer.
    pub fn load_rewarded_ad(&mut self, ad_unit_id: &str) -> (answer: bool)
        ensures
            P::answered(
                old(self).manager(),
                NativeCallView::LoadRewardedAd { ad_unit_id: ad_unit_id@ },
                final(self).manager(),
                answer,
            ),
    {
        self.manager.perform(NativeCall::LoadRewardedAd { ad_unit_id: ad_unit_id.to_owned() })
    }

    /// Asks the platform to show the rewarded ad, and hands back its answer.
    pub fn show_rewarded_ad(&mut self) -> (answer: bool)
        ensures
            P::answered(
                old(self).manager(),
                NativeCallView::ShowRewardedAd,
                final(self).manager(),
                answer,
            ),
    {
        self.manager.perform(NativeCall::ShowRewardedAd)
    }

    /// Whether the platform has an interstitial ad ready.
    pub fn is_interstitial_ready(&self) -> (ready: bool)
        ensures
            self.manager().reports_interstitial_ready(ready),
    {
        self.manager.is_interstitial_ready()
    }

    /// Whether the platform has a rewarded ad ready.
    pub fn is_rewarded_ready(&self) -> (ready: bool)
        ensures
            self.manager().reports_rewarded_ready(ready),
    {
        self.manager.is_rewarded_ready()
    }
}

/// A callback of the platform, with its arguments as it passed them.
pub enum NativeCallback {
    Initialized { success: bool },
    AdLoaded { ad_type: Seq<char> },
    AdFailedToLoad { ad_type: Seq<char>, error: Seq<char> },
    AdOpened { ad_type: Seq<char> },
    AdClosed { ad_type: Seq<char> },
    RewardedAdEarnedReward { amount: i32, reward_type: Seq<char> },
    ConsentGathered { error: Seq<char> },
}

impl NativeCallback {
    /// The lifecycle event that the callback becomes: the variant of the same
    /// name, with every argument as it came. Consent has succeeded exactly
    /// when the platform names no error.
    pub open spec fn message(self) -> AdMessageView {
        match self {
            NativeCallback::Initialized { success } => AdMessageView::Initialized { success },
            NativeCallback::AdLoaded { ad_type } => AdMessageView::AdLoaded { ad_type },
            NativeCallback::AdFailedToLoad { ad_type, error } => AdMessageView::AdFailedToLoad {
                ad_type,
                error,
            },
            NativeCallback::AdOpened { ad_type } => AdMessageView::AdOpened { ad_type },
            NativeCallback::AdClosed { ad_type } => AdMessageView::AdClosed { ad_type },
            NativeCallback::RewardedAdEarnedReward { amount, reward_type } => {
                AdMessageView::RewardedAdEarnedReward { amount, reward_type }
            },
            NativeCallback::ConsentGathered { error } => AdMessageView::ConsentGathered {
                success: error.len() == 0,
                error,
            },
        }
    }

    /// The callback that a lifecycle event came from, if it came from one.
    pub open spec fn of_message(message: AdMessageView) -> Option<NativeCallback> {
        match message {
            AdMessageView::Initialized { success } => Some(NativeCallback::Initialized { success }),
            AdMessageView::AdLoaded { ad_type } => Some(NativeCallback::AdLoaded { ad_type }),
            AdMessageView::AdFailedToLoad { ad_type, error } => Some(
                NativeCallback::AdFailedToLoad { ad_type, error },
            ),
            AdMessageView::AdOpened { ad_type } => Some(NativeCallback::AdOpened { ad_type }),
            AdMessageView::AdClosed { ad_type } => Some(NativeCallback::AdClosed { ad_type }),
            AdMessageView::RewardedAdEarnedReward { amount, reward_type } => Some(
                NativeCallback::RewardedAdEarnedReward { amount, reward_type },
            ),
            AdMessageView::ConsentGathered { success, error } => if success == (error.len() == 0) {
                Some(NativeCallback::ConsentGathered { error })
            } else {
                None
            },
        }
    }
}

/// A callback and its arguments can be read back from the event that it
/// became: no two callbacks, and no two sets of arguments, give the same
/// event.
pub proof fn lemma_callback_round_trip(callback: NativeCallback)
    ensures
        NativeCallback::of_message(callback.message()) == Some(callback),
{
}

/// An event that can be read back as a callback is the event of that
/// callback.
pub proof fn lemma_message_round_trip(message: AdMessageView)
    requires
        NativeCallback::of_message(message) is Some,
    ensures
        NativeCallback::of_message(message).unwrap().message() == message,
{
}

/// The platform has finished initializing, with or without success.
pub fn on_initialized(queue: &mut EventQueue, success: bool)
    ensures
        final(queue)@ == old(queue)@.push(NativeCallback::Initialized { success }.message()),
{
    write_event_to_queue(queue, AdMessage::Initialized { success });
}

/// The platform has loaded an ad for the slot it names.
pub fn on_ad_loaded(queue: &mut EventQueue, ad_type: String)
    ensures
        final(queue)@ == old(queue)@.push(NativeCallback::AdLoaded { ad_type: ad_type@ }.message()),
{
    write_event_to_queue(queue, AdMessage::AdLoaded { ad_type });
}

/// The platform could not load an ad for the slot it names.
pub fn on_ad_failed_to_load(queue: &mut EventQueue, ad_type: String, error: String)
    ensures
        final(queue)@ == old(queue)@.push(
            NativeCallback::AdFailedToLoad { ad_type: ad_type@, error: error@ }.message(),
        ),
{
    write_event_to_queue(queue, AdMessage::AdFailedToLoad { ad_type, error });
}

/// The platform has put the ad of the slot it names on screen.
pub fn on_ad_opened(queue: &mut EventQueue, ad_type: String)
    ensures
        final(queue)@ == old(queue)@.push(NativeCallback::AdOpened { ad_type: ad_type@ }.message()),
{
    write_event_to_queue(queue, AdMessage::AdOpened { ad_type });
}

/// The ad of the slot that the platform names was closed.
pub fn on_ad_closed(queue: &mut EventQueue, ad_type: String)
    ensures
        final(queue)@ == old(queue)@.push(NativeCallback::AdClosed { ad_type: ad_type@ }.message()),
{
    write_event_to_queue(queue, AdMessage::AdClosed { ad_type });
}

/// The viewer of a rewarded ad has earned the reward.
pub fn on_rewarded_ad_earned_reward(queue: &mut EventQueue, amount: i32, reward_type: String)
    ensures
        final(queue)@ == old(queue)@.push(
            NativeCallback::RewardedAdEarnedReward { amount, reward_type: reward_type@ }.message(),
        ),
{
    write_event_to_queue(queue, AdMessage::RewardedAdEarnedReward { amount, reward_type });
}

/// The platform has asked for consent; an empty `error` means that it got it.
pub fn on_consent_gathered(queue: &mut EventQueue, error: String)
    ensures
        final(queue)@ == old(queue)@.push(
            NativeCallback::ConsentGathered { error: error@ }.message(),
        ),
{
    let success = error.as_str().is_empty();
    write_event_to_queue(queue, AdMessage::ConsentGathered { error, success });
}

} // verus!
