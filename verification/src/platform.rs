//! The platform's ad SDK as the library sees it: the calls that can be made
//! into it, and the interface through which they are made. What the SDK
//! answers is the platform's own affair; an implementation says in its
//! specification functions what can be relied on.

use vstd::prelude::*;
use crate::config::optional_string_view;

verus! {

/// A call into the platform's ad SDK.
#[derive(Debug, Clone, PartialEq, Eq)]
pub enum NativeCall {
    Initialize { test_device_id: Option<String> },
    LoadBannerAd { ad_unit_id: String, width: i32, height: i32 },
    ShowBannerAd,
    HideBannerAd,
    LoadInterstitialAd { ad_unit_id: String },
    ShowInterstitialAd,
    LoadRewardedAd { ad_unit_id: String },
    ShowRewardedAd,
}

/// What a `NativeCall` asks for, with each string as its characters.
pub enum NativeCallView {
    Initialize { test_device_id: Option<Seq<char>> },
    LoadBannerAd { ad_unit_id: Seq<char>, width: i32, height: i32 },
    ShowBannerAd,
    HideBannerAd,
    LoadInterstitialAd { ad_unit_id: Seq<char> },
    ShowInterstitialAd,
    LoadRewardedAd { ad_unit_id: Seq<char> },
    ShowRewardedAd,
}

impl View for NativeCall {
    type V = NativeCallView;

    open spec fn view(&self) -> NativeCallView {
        match *self {
            NativeCall::Initialize { test_device_id } => NativeCallView::Initialize {
                test_device_id: optional_string_view(test_device_id),
            },
            NativeCall::LoadBannerAd { ad_unit_id, width, height } => NativeCallView::LoadBannerAd {
                ad_unit_id: ad_unit_id@,
                width,
                height,
            },
            NativeCall::ShowBannerAd => NativeCallView::ShowBannerAd,
            NativeCall::HideBannerAd => NativeCallView::HideBannerAd,
            NativeCall::LoadInterstitialAd { ad_unit_id } => NativeCallView::LoadInterstitialAd {
                ad_unit_id: ad_unit_id@,
            },
            NativeCall::ShowInterstitialAd => NativeCallView::ShowInterstitialAd,
            NativeCall::LoadRewardedAd { ad_unit_id } => NativeCallView::LoadRewardedAd {
                ad_unit_id: ad_unit_id@,
            },
            NativeCall::ShowRewardedAd => NativeCallView::ShowRewardedAd,
        }
    }
}

/// The views of a sequence of calls, in the same order.
pub open spec fn call_views(calls: Seq<NativeCall>) -> Seq<NativeCallView> {
    calls.map_values(|c: NativeCall| c@)
}

/// The platform's ad SDK: it performs a call and answers whether it took it,
/// and it reports whether an ad is ready to be shown.
///
/// An implementation says what its SDK does by defining the specification
/// functions below. Each one that it leaves as it is promises nothing: every
/// answer and every effect is then possible.
pub trait Platform: Sized {
    /// Whether performing `call` can take the platform from `pre` to `post`
    /// with the answer `answer`.
    open spec fn answered(pre: Self, call: NativeCallView, post: Self, answer: bool) -> bool {
        true
    }

    /// Whether `answer` is what the platform reports when asked if an
    /// interstitial ad is ready.
    open spec fn reports_interstitial_ready(&self, answer: bool) -> bool {
        true
    }

    /// Whether `answer` is what the platform reports when asked if a
    /// rewarded ad is ready.
    open spec fn reports_rewarded_ready(&self, answer: bool) -> bool {
        true
    }

    /// Performs the call on the SDK and hands back its answer.
    fn perform(&mut self, call: NativeCall) -> (answer: bool)
        ensures
            Self::answered(*old(self), call@, *final(self), answer),
    ;

    /// Whether the SDK has an interstitial ad ready.
    fn is_interstitial_ready(&self) -> (ready: bool)
        ensures
            self.reports_interstitial_ready(ready),
    ;

    /// Whether the SDK has a rewarded ad ready.
    fn is_rewarded_ready(&self) -> (ready: bool)
        ensures
            self.reports_rewarded_ready(ready),
    ;
}

/// A platform without an SDK behind it. It keeps every call that it is asked
/// to perform, oldest first, and gives the answers that its holder has set:
/// `answer` to every call, and the two readiness flags to the readiness
/// queries.
#[derive(Debug)]
pub struct RecordingPlatform {
    pub calls: Vec<NativeCall>,
    pub answer: bool,
    pub interstitial_ready: bool,
    pub rewarded_ready: bool,
}

/// What a `RecordingPlatform` holds, with each call as its view.
pub struct RecordingPlatformView {
    pub calls: Seq<NativeCallView>,
    pub answer: bool,
    pub interstitial_ready: bool,
    pub rewarded_ready: bool,
}

impl View for RecordingPlatform {
    type V = RecordingPlatformView;

    open spec fn view(&self) -> RecordingPlatformView {
        RecordingPlatformView {
            calls: call_views(self.calls@),
            answer: self.answer,
            interstitial_ready: self.interstitial_ready,
            rewarded_ready: self.rewarded_ready,
        }
    }
}

impl RecordingPlatform {
    /// A platform that has performed nothing, takes every call and has no ad
    /// ready.
    pub fn new() -> (platform: RecordingPlatform)
        ensures
            platform@ == (RecordingPlatformView {
                calls: Seq::<NativeCallView>::empty(),
                answer: true,
                interstitial_ready: false,
                rewarded_ready: false,
            }),
    {
        let platform = RecordingPlatform {
            calls: Vec::new(),
            answer: true,
            interstitial_ready: false,
            rewarded_ready: false,
        };
        assert(call_views(platform.calls@) == Seq::<NativeCallView>::empty());
        platform
    }

    /// Hands over the calls that were performed, oldest first; none stays
    /// behind.
    pub fn take_calls(&mut self) -> (calls: Vec<NativeCall>)
        ensures
            call_views(calls@) == old(self)@.calls,
            final(self)@ == (RecordingPlatformView {
                calls: Seq::<NativeCallView>::empty(),
                ..old(self)@
            }),
    {
        let mut calls: Vec<NativeCall> = Vec::new();
        std::mem::swap(&mut calls, &mut self.calls);
        assert(call_views(self.calls@) == Seq::<NativeCallView>::empty());
        calls
    }
}

impl Platform for RecordingPlatform {
    /// The call is kept behind the earlier ones, and the answer is the one
    /// that was set.
    open spec fn answered(pre: Self, call: NativeCallView, post: Self, answer: bool) -> bool {
        &&& answer == pre.answer
        &&& post@ == (RecordingPlatformView { calls: pre@.calls.push(call), ..pre@ })
    }

    open spec fn reports_interstitial_ready(&self, answer: bool) -> bool {
        answer == self.interstitial_ready
    }

    open spec fn reports_rewarded_ready(&self, answer: bool) -> bool {
        answer == self.rewarded_ready
    }

    fn perform(&mut self, call: NativeCall) -> (answer: bool) {
        self.calls.push(call);
        assert(call_views(self.calls@) == call_views(old(self).calls@).push(call@));
        self.answer
    }

    fn is_interstitial_ready(&self) -> (ready: bool) {
        self.interstitial_ready
    }

    fn is_rewarded_ready(&self) -> (ready: bool) {
        self.rewarded_ready
    }
}

} // verus!
