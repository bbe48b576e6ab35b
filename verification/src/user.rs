//! The learner's account record, as reported by the service.
//!
//! Plain data only; the session logic never reads it, but the surrounding
//! application shows parts of it.

use vstd::prelude::*;

verus! {

/// The learner's subscription state.
#[derive(Debug, Clone)]
pub struct Subscription {
    pub active: bool,
    pub type_: String,
    pub max_level_granted: u8,
}

/// The learner's service-side preferences.
#[derive(Debug, Clone)]
pub struct Preferences {
    pub lessons_autoplay_audio: bool,
    pub lessons_batch_size: u8,
    pub reviews_autoplay_audio: bool,
    pub reviews_display_srs_indicator: bool,
    pub extra_study_autoplay_audio: bool,
    pub reviews_presentation_order: String,
    pub lessons_presentation_order: String,
    pub default_voice_actor_id: u8,
}

/// The body of the account record.
#[derive(Debug, Clone)]
pub struct UserData {
    pub id: String,
    pub username: String,
    pub level: u8,
    pub profile_url: String,
    pub subscription: Subscription,
    pub preferences: Preferences,
}

/// The account record fetched from the service.
#[derive(Debug, Clone)]
pub struct User {
    pub object: Option<String>,
    pub url: String,
    pub data: UserData,
}

} // verus!
