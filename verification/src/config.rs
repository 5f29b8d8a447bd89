//! The configuration that the host supplies to the AdMob backend.

use vstd::prelude::*;
use crate::message::AdType;

verus! {

/// AdMob configuration: the ad unit of each slot, the slot to load as soon as
/// initialization has succeeded, the test device, and the banner's size.
#[derive(Debug, Clone)]
pub struct AdMobConfig {
    pub banner_ad_unit_id: String,
    pub interstitial_ad_unit_id: String,
    pub rewarded_ad_unit_id: String,
    pub load_ad_on_init: Option<AdType>,
    pub test_device_id: Option<String>,
    pub banner_width: i32,
    pub banner_height: i32,
}

/// What an `AdMobConfig` holds, with each string as its characters.
pub struct AdMobConfigView {
    pub banner_ad_unit_id: Seq<char>,
    pub interstitial_ad_unit_id: Seq<char>,
    pub rewarded_ad_unit_id: Seq<char>,
    pub load_ad_on_init: Option<AdType>,
    pub test_device_id: Option<Seq<char>>,
    pub banner_width: i32,
    pub banner_height: i32,
}

impl AdMobConfigView {
    /// The ad unit of the slot.
    pub open spec fn ad_unit_id(self, ad_type: AdType) -> Seq<char> {
        match ad_type {
            AdType::Banner => self.banner_ad_unit_id,
            AdType::Interstitial => self.interstitial_ad_unit_id,
            AdType::Rewarded => self.rewarded_ad_unit_id,
        }
    }

    /// The configuration that is used when the host names no ad units of its
    /// own: the public test units, nothing to load on initialization, no test
    /// device, and a banner of 150 by 50.
    pub open spec fn standard() -> AdMobConfigView {
        AdMobConfigView {
            banner_ad_unit_id: "ca-app-pub-3940256099942544/2435281174"@,
            interstitial_ad_unit_id: "ca-app-pub-3940256099942544/4411468910"@,
            rewarded_ad_unit_id: "ca-app-pub-3940256099942544/1712485313"@,
            load_ad_on_init: None,
            test_device_id: None,
            banner_width: 150,
            banner_height: 50,
        }
    }
}

/// The characters of an optional string.
pub open spec fn optional_string_view(s: Option<String>) -> Option<Seq<char>> {
    match s {
        Some(s) => Some(s@),
        None => None,
    }
}

impl View for AdMobConfig {
    type V = AdMobConfigView;

    open spec fn view(&self) -> AdMobConfigView {
        AdMobConfigView {
            banner_ad_unit_id: self.banner_ad_unit_id@,
            interstitial_ad_unit_id: self.interstitial_ad_unit_id@,
            rewarded_ad_unit_id: self.rewarded_ad_unit_id@,
            load_ad_on_init: self.load_ad_on_init,
            test_device_id: optional_string_view(self.test_device_id),
            banner_width: self.banner_width,
            banner_height: self.banner_height,
        }
    }
}

impl Default for AdMobConfig {
    fn default() -> (config: AdMobConfig)
        ensures
            config@ == AdMobConfigView::standard(),
    {
        AdMobConfig {
            banner_height: 50,
            banner_width: 150,
            rewarded_ad_unit_id: "ca-app-pub-3940256099942544/1712485313".to_owned(),
            banner_ad_unit_id: "ca-app-pub-3940256099942544/2435281174".to_owned(),
            interstitial_ad_unit_id: "ca-app-pub-3940256099942544/4411468910".to_owned(),
            load_ad_on_init: None,
            test_device_id: None,
        }
    }
}

impl AdMobConfig {
    /// The ad unit of the slot.
    pub fn get_ad_unit_id(&self, ad_type: AdType) -> (ad_unit: String)
        ensures
            ad_unit@ == self@.ad_unit_id(ad_type),
    {
        match ad_type {
            AdType::Banner => self.banner_ad_unit_id.clone(),
            AdType::Interstitial => self.interstitial_ad_unit_id.clone(),
            AdType::Rewarded => self.rewarded_ad_unit_id.clone(),
        }
    }

    /// The slot to load as soon as initialization has succeeded, with its ad
    /// unit; `None` when the configuration names no such slot.
    pub fn try_get_ad_to_load_on_init(&self) -> (ad: Option<(String, AdType)>)
        ensures
            match self@.load_ad_on_init {
                Some(ad_type) => ad matches Some((ad_unit, t)) && t == ad_type && ad_unit@
                    == self@.ad_unit_id(ad_type),
                None => ad is None,
            },
    {
        match self.load_ad_on_init {
            Some(ad_type) => {
                let ad_unit = self.get_ad_unit_id(ad_type);
                Some((ad_unit, ad_type))
            },
            None => None,
        }
    }

    /// Names the test device; everything else stays as it is.
    pub fn set_test_device_id(&mut self, device_id: String)
        ensures
            final(self)@ == (AdMobConfigView { test_device_id: Some(device_id@), ..old(self)@ }),
    {
        self.test_device_id = Some(device_id);
    }
}

} // verus!
