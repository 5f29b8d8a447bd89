//! The capability interface that every ad backend implements.

use vstd::prelude::*;
use crate::message::AdType;

verus! {

/// The operations of an ad backend. A backend supplies the slot-specific
/// primitives; the slot-generic operations are built from them once, here.
///
/// A backend says what its primitives do by defining the specification
/// functions below. Each one that it leaves as it is promises nothing: every
/// answer and every effect is then possible.
pub trait AdManager: Sized {
    /// Whether `answer` is what the backend reports of its initialization.
    open spec fn initialized_is(&self, answer: bool) -> bool {
        true
    }

    /// Whether `answer` is what the backend reports when asked if an
    /// interstitial ad is ready to be shown.
    open spec fn interstitial_ready_is(&self, answer: bool) -> bool {
        true
    }

    /// Whether `answer` is what the backend reports when asked if a rewarded
    /// ad is ready to be shown.
    open spec fn rewarded_ready_is(&self, answer: bool) -> bool {
        true
    }

    /// Whether an initialization attempt can take the backend from `pre` to
    /// `post` with the answer `accepted`.
    open spec fn initializing(pre: Self, post: Self, accepted: bool) -> bool {
        true
    }

    /// Whether the slot's load primitive, asked for the ad unit, can take
    /// the backend from `pre` to `post` with the answer `accepted`.
    open spec fn loaded(pre: Self, ad_type: AdType, ad_id: Seq<char>, post: Self, accepted: bool) -> bool {
        true
    }

    /// Whether the slot's show primitive can take the backend from `pre` to
    /// `post` with the answer `accepted`.
    open spec fn shown(pre: Self, ad_type: AdType, post: Self, accepted: bool) -> bool {
        true
    }

    /// Whether the slot's hide primitive can take the backend from `pre` to
    /// `post` with the answer `accepted`.
    open spec fn hidden(pre: Self, ad_type: AdType, post: Self, accepted: bool) -> bool {
        true
    }

    /// Starts the backend's initialization, and says whether it was started.
    fn initialize(&mut self) -> (accepted: bool)
        ensures
            Self::initializing(*old(self), *final(self), accepted),
    ;

    /// Whether the backend has completed its initialization.
    fn is_initialized(&self) -> (initialized: bool)
        ensures
            self.initialized_is(initialized),
    ;

    /// Loads an ad into the slot through the slot's own primitive.
    fn load_ad(&mut self, ad_type: AdType, ad_id: &str) -> (accepted: bool)
        ensures
            Self::loaded(*old(self), ad_type, ad_id@, *final(self), accepted),
    {
        match ad_type {
            AdType::Banner => self.load_banner(ad_id),
            AdType::Interstitial => self.load_interstitial(ad_id),
            AdType::Rewarded => self.load_rewarded(ad_id),
        }
    }

    /// Shows the slot's ad if it is ready. Either the slot reports that it is
    /// not ready, and then the show primitive is not called: the answer is
    /// `false` and the backend is unchanged. Or the slot reports that it is
    /// ready and the outcome is that of the slot's show primitive.
    fn show_ad(&mut self, ad_type: AdType) -> (accepted: bool)
        ensures
            ({
                &&& !accepted
                &&& *final(self) == *old(self)
                &&& match ad_type {
                    AdType::Banner => false,
                    AdType::Interstitial => old(self).interstitial_ready_is(false),
                    AdType::Rewarded => old(self).rewarded_ready_is(false),
                }
            }) || ({
                &&& Self::shown(*old(self), ad_type, *final(self), accepted)
                &&& match ad_type {
                    AdType::Banner => true,
                    AdType::Interstitial => old(self).interstitial_ready_is(true),
                    AdType::Rewarded => old(self).rewarded_ready_is(true),
                }
            }),
    {
        if !self.is_ad_ready(ad_type) {
            return false;
        }
        match ad_type {
            AdType::Banner => self.show_banner(),
            AdType::Interstitial => self.show_interstitial(),
            AdType::Rewarded => self.show_rewarded(),
        }
    }

    /// Hides the slot's ad through the slot's own primitive.
    fn hide_ad(&mut self, ad_type: AdType) -> (accepted: bool)
        ensures
            Self::hidden(*old(self), ad_type, *final(self), accepted),
    {
        match ad_type {
            AdType::Banner => self.hide_banner(),
            AdType::Interstitial => self.hide_interstitial(),
            AdType::Rewarded => self.hide_rewarded(),
        }
    }

    /// Whether the slot's ad can be shown, as the slot reports it.
    fn is_ad_ready(&self, ad_type: AdType) -> (ready: bool)
        ensures
            match ad_type {
                AdType::Banner => ready,
                AdType::Interstitial => self.interstitial_ready_is(ready),
                AdType::Rewarded => self.rewarded_ready_is(ready),
            },
    {
        match ad_type {
            AdType::Banner => self.is_banner_ready(),
            AdType::Interstitial => self.is_interstitial_ready(),
            AdType::Rewarded => self.is_rewarded_ready(),
        }
    }

    /// Shows the banner.
    fn show_banner(&mut self) -> (accepted: bool)
        ensures
            Self::shown(*old(self), AdType::Banner, *final(self), accepted),
    ;

    /// Shows the interstitial ad.
    fn show_interstitial(&mut self) -> (accepted: bool)
        ensures
            Self::shown(*old(self), AdType::Interstitial, *final(self), accepted),
    ;

    /// Shows the rewarded ad.
    fn show_rewarded(&mut self) -> (accepted: bool)
        ensures
            Self::shown(*old(self), AdType::Rewarded, *final(self), accepted),
    ;

    /// Hides the banner.
    fn hide_banner(&mut self) -> (accepted: bool)
        ensures
            Self::hidden(*old(self), AdType::Banner, *final(self), accepted),
    ;

    /// Hides the interstitial ad.
    fn hide_interstitial(&mut self) -> (accepted: bool)
        ensures
            Self::hidden(*old(self), AdType::Interstitial, *final(self), accepted),
    ;

    /// Hides the rewarded ad.
    fn hide_rewarded(&mut self) -> (accepted: bool)
        ensures
            Self::hidden(*old(self), AdType::Rewarded, *final(self), accepted),
    ;

    /// Loads a banner from the ad unit.
    fn load_banner(&mut self, ad_id: &str) -> (accepted: bool)
        ensures
            Self::loaded(*old(self), AdType::Banner, ad_id@, *final(self), accepted),
    ;

    /// Loads an interstitial ad from the ad unit.
    fn load_interstitial(&mut self, ad_id: &str) -> (accepted: bool)
        ensures
            Self::loaded(*old(self), AdType::Interstitial, ad_id@, *final(self), accepted),
    ;

    /// Loads a rewarded ad from the ad unit.
    fn load_rewarded(&mut self, ad_id: &str) -> (accepted: bool)
        ensures
            Self::loaded(*old(self), AdType::Rewarded, ad_id@, *final(self), accepted),
    ;

    /// A banner has no load-then-ready cycle: it is always ready, in every
    /// backend.
    fn is_banner_ready(&self) -> (ready: bool)
        ensures
            ready,
    {
        true
    }

    /// Whether an interstitial ad is ready to be shown.
    fn is_interstitial_ready(&self) -> (ready: bool)
        ensures
            self.interstitial_ready_is(ready),
    ;

    /// Whether a rewarded ad is ready to be shown.
    fn is_rewarded_ready(&self) -> (ready: bool)
        ensures
            self.rewarded_ready_is(ready),
    ;
}

} // verus!
