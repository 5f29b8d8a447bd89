//! Ad slots and the lifecycle events that the backends report.

use vstd::prelude::*;

verus! {

/// The ad surface that an operation targets.
#[derive(Debug, Clone, Copy, PartialEq, Eq, Hash, Structural)]
pub enum AdType {
    Banner,
    Interstitial,
    Rewarded,
}

impl AdType {
    /// The characters of the slot's name.
    pub open spec fn spec_name(self) -> Seq<char> {
        match self {
            AdType::Banner => "Banner"@,
            AdType::Interstitial => "Interstitial"@,
            AdType::Rewarded => "Rewarded"@,
        }
    }

    /// The name under which lifecycle events mention the slot.
    pub fn name(self) -> (name: String)
        ensures
            name@ == self.spec_name(),
    {
        match self {
            AdType::Banner => "Banner".to_owned(),
            AdType::Interstitial => "Interstitial".to_owned(),
            AdType::Rewarded => "Rewarded".to_owned(),
        }
    }
}

/// A fact about the progress of initialization or of an ad, reported once
/// and in order to whoever drains the event queue.
#[derive(Debug, Clone, PartialEq, Eq)]
pub enum AdMessage {
    Initialized { success: bool },
    ConsentGathered { success: bool, error: String },
    AdLoaded { ad_type: String },
    AdFailedToLoad { ad_type: String, error: String },
    AdOpened { ad_type: String },
    AdClosed { ad_type: String },
    RewardedAdEarnedReward { amount: i32, reward_type: String },
}

/// What an `AdMessage` says, with each string as its characters.
pub enum AdMessageView {
    Initialized { success: bool },
    ConsentGathered { success: bool, error: Seq<char> },
    AdLoaded { ad_type: Seq<char> },
    AdFailedToLoad { ad_type: Seq<char>, error: Seq<char> },
    AdOpened { ad_type: Seq<char> },
    AdClosed { ad_type: Seq<char> },
    RewardedAdEarnedReward { amount: i32, reward_type: Seq<char> },
}

impl View for AdMessage {
    type V = AdMessageView;

    open spec fn view(&self) -> AdMessageView {
        match *self {
            AdMessage::Initialized { success } => AdMessageView::Initialized { success },
            AdMessage::ConsentGathered { success, error } => AdMessageView::ConsentGathered {
                success,
                error: error@,
            },
            AdMessage::AdLoaded { ad_type } => AdMessageView::AdLoaded { ad_type: ad_type@ },
            AdMessage::AdFailedToLoad { ad_type, error } => AdMessageView::AdFailedToLoad {
                ad_type: ad_type@,
                error: error@,
            },
            AdMessage::AdOpened { ad_type } => AdMessageView::AdOpened { ad_type: ad_type@ },
            AdMessage::AdClosed { ad_type } => AdMessageView::AdClosed { ad_type: ad_type@ },
            AdMessage::RewardedAdEarnedReward { amount, reward_type } => {
                AdMessageView::RewardedAdEarnedReward { amount, reward_type: reward_type@ }
            },
        }
    }
}

/// The views of a sequence of messages, in the same order.
pub open spec fn message_views(messages: Seq<AdMessage>) -> Seq<AdMessageView> {
    messages.map_values(|m: AdMessage| m@)
}

} // verus!
