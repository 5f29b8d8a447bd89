//! A mock backend for development without the platform's SDK. A rewarded ad
//! that it shows is a placeholder with a countdown; when the countdown has
//! elapsed the placeholder closes, and the events of a closed ad are queued.

use vstd::prelude::*;
use crate::manager::AdManager;
use crate::message::{AdMessage, AdMessageView, AdType};
use crate::queue::{write_event_to_queue, EventQueue};

verus! {

/// The number of nanoseconds in a millisecond.
pub const NANOS_PER_MILLI: u128 = 1_000_000;

/// The settings and the state of the mock backend. The two readiness flags
/// are what the readiness checks report; they are `false` until the host
/// sets them.
#[derive(Debug, Clone, Copy, PartialEq, Eq, Structural)]
pub struct MockupAds {
    pub initialized: bool,
    pub ad_duration_ms: u64,
    pub interstitial_ready: bool,
    pub rewarded_ready: bool,
}

impl Default for MockupAds {
    fn default() -> (ads: MockupAds)
        ensures
            ads == (MockupAds {
                initialized: false,
                ad_duration_ms: 2000,
                interstitial_ready: false,
                rewarded_ready: false,
            }),
    {
        MockupAds {
            initialized: false,
            ad_duration_ms: 2000,
            interstitial_ready: false,
            rewarded_ready: false,
        }
    }
}

/// A countdown that runs once: the nanoseconds that remain, and whether a
/// tick has found none left.
#[derive(Debug, Clone, Copy, PartialEq, Eq, Structural)]
pub struct AdTimer {
    pub remaining: u128,
    pub finished: bool,
}

impl AdTimer {
    /// The countdown after `delta` nanoseconds. It finishes on the tick that
    /// uses up what remained, and then stays as it is.
    pub open spec fn ticked(self, delta: u128) -> AdTimer {
        if self.finished {
            self
        } else if delta >= self.remaining {
            AdTimer { remaining: 0, finished: true }
        } else {
            AdTimer { remaining: (self.remaining - delta) as u128, finished: false }
        }
    }

    /// A countdown of `duration_ms` milliseconds that has not started.
    pub open spec fn fresh(duration_ms: u64) -> AdTimer {
        AdTimer { remaining: (duration_ms * NANOS_PER_MILLI) as u128, finished: false }
    }

    /// A countdown of `duration_ms` milliseconds that has not started.
    pub fn new(duration_ms: u64) -> (timer: AdTimer)
        ensures
            timer == AdTimer::fresh(duration_ms),
    {
        AdTimer { remaining: (duration_ms as u128) * NANOS_PER_MILLI, finished: false }
    }

    /// Advances the countdown by `delta` nanoseconds.
    pub fn tick(&mut self, delta: u128)
        ensures
            *final(self) == old(self).ticked(delta),
    {
        if !self.finished {
            if delta >= self.remaining {
                self.remaining = 0;
                self.finished = true;
            } else {
                self.remaining = self.remaining - delta;
            }
        }
    }

    /// Whether the countdown has elapsed.
    pub fn is_finished(&self) -> (finished: bool)
        ensures
            finished == self.finished,
    {
        self.finished
    }
}

/// The sum of the ticks, in nanoseconds.
pub open spec fn ticks_total(deltas: Seq<u128>) -> nat
    decreases deltas.len(),
{
    if deltas.len() == 0 {
        0
    } else {
        ticks_total(deltas.drop_last()) + deltas.last() as nat
    }
}

/// The countdown after the ticks, in their order.
pub open spec fn ticked_all(timer: AdTimer, deltas: Seq<u128>) -> AdTimer
    decreases deltas.len(),
{
    if deltas.len() == 0 {
        timer
    } else {
        ticked_all(timer, deltas.drop_last()).ticked(deltas.last())
    }
}

/// A running countdown has elapsed exactly when it was ticked at least once
/// and the ticks add up to what remained or more; until then what remains is
/// what remained less the ticks.
pub proof fn lemma_timer_elapses_with_its_duration(timer: AdTimer, deltas: Seq<u128>)
    requires
        !timer.finished,
    ensures
        ticked_all(timer, deltas).finished <==> deltas.len() > 0 && ticks_total(deltas)
            >= timer.remaining,
        !ticked_all(timer, deltas).finished ==> ticked_all(timer, deltas).remaining
            == timer.remaining - ticks_total(deltas),
        ticked_all(timer, deltas).finished ==> ticked_all(timer, deltas).remaining == 0,
    decreases deltas.len(),
{
    if deltas.len() > 0 {
        lemma_timer_elapses_with_its_duration(timer, deltas.drop_last());
    }
}

/// The events that a placeholder of the slot queues when it closes: none for
/// a banner, the closing of the ad for the other two, and after it the reward
/// of a rewarded ad.
pub open spec fn closing_events(ad_type: AdType) -> Seq<AdMessageView> {
    match ad_type {
        AdType::Banner => Seq::empty(),
        AdType::Interstitial => seq![AdMessageView::AdClosed { ad_type: ad_type.spec_name() }],
        AdType::Rewarded => seq![
            AdMessageView::AdClosed { ad_type: ad_type.spec_name() },
            AdMessageView::RewardedAdEarnedReward { amount: 1, reward_type: "Reward"@ },
        ],
    }
}

/// A placeholder ad on screen: its countdown and its slot.
#[derive(Debug, Clone, Copy, PartialEq, Eq, Structural)]
pub struct MockupAdComponent(pub AdTimer, pub AdType);

impl MockupAdComponent {
    /// The placeholder after `delta` nanoseconds.
    pub open spec fn ticked(self, delta: u128) -> MockupAdComponent {
        MockupAdComponent(self.0.ticked(delta), self.1)
    }

    /// The events that the placeholder queues on a tick of `delta`
    /// nanoseconds: those of its closing if the tick leaves its countdown
    /// elapsed, none otherwise.
    pub open spec fn events_on_tick(self, delta: u128) -> Seq<AdMessageView> {
        if self.0.ticked(delta).finished {
            closing_events(self.1)
        } else {
            Seq::empty()
        }
    }

    /// Advances the placeholder's countdown by `delta` nanoseconds. If that
    /// leaves it elapsed, the placeholder closes: its closing events are
    /// queued and the answer is `true`.
    pub fn advance(&mut self, delta: u128, queue: &mut EventQueue) -> (closed: bool)
        ensures
            *final(self) == old(self).ticked(delta),
            closed == final(self).0.finished,
            final(queue)@ == old(queue)@ + old(self).events_on_tick(delta),
    {
        self.0.tick(delta);
        if !self.0.is_finished() {
            return false;
        }
        match self.1 {
            AdType::Banner => {},
            AdType::Interstitial => {
                write_event_to_queue(queue, AdMessage::AdClosed { ad_type: self.1.name() });
            },
            AdType::Rewarded => {
                write_event_to_queue(queue, AdMessage::AdClosed { ad_type: self.1.name() });
                write_event_to_queue(
                    queue,
                    AdMessage::RewardedAdEarnedReward {
                        amount: 1,
                        reward_type: "Reward".to_owned(),
                    },
                );
            },
        }
        true
    }
}

/// The placeholders that stay on screen after a tick of `delta` nanoseconds:
/// those whose countdown has not elapsed, advanced, in their order.
pub open spec fn ads_kept(ads: Seq<MockupAdComponent>, delta: u128) -> Seq<MockupAdComponent>
    decreases ads.len(),
{
    if ads.len() == 0 {
        Seq::empty()
    } else if ads.last().ticked(delta).0.finished {
        ads_kept(ads.drop_last(), delta)
    } else {
        ads_kept(ads.drop_last(), delta).push(ads.last().ticked(delta))
    }
}

/// The events that the placeholders queue on a tick of `delta` nanoseconds,
/// placeholder by placeholder in their order.
pub open spec fn ads_events(ads: Seq<MockupAdComponent>, delta: u128) -> Seq<AdMessageView>
    decreases ads.len(),
{
    if ads.len() == 0 {
        Seq::empty()
    } else {
        ads_events(ads.drop_last(), delta) + ads.last().events_on_tick(delta)
    }
}

/// One tick of the placeholders: every countdown advances by `delta`
/// nanoseconds; a placeholder whose countdown has elapsed is removed, and its
/// closing events are queued.
pub fn show_ads(ads: &mut Vec<MockupAdComponent>, delta: u128, queue: &mut EventQueue)
    ensures
        final(ads)@ == ads_kept(old(ads)@, delta),
        final(queue)@ == old(queue)@ + ads_events(old(ads)@, delta),
{
    let mut kept: Vec<MockupAdComponent> = Vec::new();
    let mut i: usize = 0;
    while i < ads.len()
        invariant
            0 <= i <= ads.len(),
            ads@ == old(ads)@,
            kept@ == ads_kept(ads@.take(i as int), delta),
            queue@ == old(queue)@ + ads_events(ads@.take(i as int), delta),
        decreases ads.len() - i,
    {
        assert(ads@.take(i + 1).drop_last() == ads@.take(i as int));
        let mut component = ads[i];
        let closed = component.advance(delta, queue);
        if !closed {
            kept.push(component);
        }
        i += 1;
    }
    assert(ads@.take(ads.len() as int) == ads@);
    *ads = kept;
}

/// The mock backend: its settings and state, and the placeholders that it
/// has put on screen, oldest first.
pub struct MockupAdsSystem {
    pub r: MockupAds,
    pub ads: Vec<MockupAdComponent>,
}

impl AdManager for MockupAdsSystem {
    open spec fn initialized_is(&self, answer: bool) -> bool {
        answer == self.r.initialized
    }

    open spec fn interstitial_ready_is(&self, answer: bool) -> bool {
        answer == self.r.interstitial_ready
    }

    open spec fn rewarded_ready_is(&self, answer: bool) -> bool {
        answer == self.r.rewarded_ready
    }

    /// The mock is initialized at once.
    open spec fn initializing(pre: Self, post: Self, accepted: bool) -> bool {
        &&& accepted
        &&& post.r == (MockupAds { initialized: true, ..pre.r })
        &&& post.ads == pre.ads
    }

    /// Every load is accepted and changes nothing.
    open spec fn loaded(pre: Self, ad_type: AdType, ad_id: Seq<char>, post: Self, accepted: bool) -> bool {
        accepted && post == pre
    }

    /// Only a rewarded ad is shown: as one more placeholder, whose countdown
    /// is the configured duration.
    open spec fn shown(pre: Self, ad_type: AdType, post: Self, accepted: bool) -> bool {
        if ad_type == AdType::Rewarded {
            &&& accepted
            &&& post.r == pre.r
            &&& post.ads@ == pre.ads@.push(
                MockupAdComponent(AdTimer::fresh(pre.r.ad_duration_ms), AdType::Rewarded),
            )
        } else {
            !accepted && post == pre
        }
    }

    /// Every hide is accepted and changes nothing.
    open spec fn hidden(pre: Self, ad_type: AdType, post: Self, accepted: bool) -> bool {
        accepted && post == pre
    }

    fn initialize(&mut self) -> (accepted: bool) {
        self.r.initialized = true;
        true
    }

    fn is_initialized(&self) -> (initialized: bool) {
        self.r.initialized
    }

    fn show_banner(&mut self) -> (accepted: bool) {
        false
    }

    fn show_interstitial(&mut self) -> (accepted: bool) {
        false
    }

    fn show_rewarded(&mut self) -> (accepted: bool) {
        self.ads.push(MockupAdComponent(AdTimer::new(self.r.ad_duration_ms), AdType::Rewarded));
        true
    }

    fn hide_banner(&mut self) -> (accepted: bool) {
        true
    }

    fn hide_interstitial(&mut self) -> (accepted: bool) {
        true
    }

    fn hide_rewarded(&mut self) -> (accepted: bool) {
        true
    }

    fn load_banner(&mut self, ad_id: &str) -> (accepted: bool) {
        true
    }

    fn load_interstitial(&mut self, ad_id: &str) -> (accepted: bool) {
        true
    }

    fn load_rewarded(&mut self, ad_id: &str) -> (accepted: bool) {
        true
    }

    fn is_interstitial_ready(&self) -> (ready: bool) {
        self.r.interstitial_ready
    }

    fn is_rewarded_ready(&self) -> (ready: bool) {
        self.r.rewarded_ready
    }
}

} // verus!
