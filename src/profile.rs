//! Profile normalisation.
use vstd::prelude::*;
use crate::post::{or_empty, text_or_empty};

verus! {

/// What the viewer has to do with a profile.
pub struct RawViewerState {
    /// The record uri of the viewer's follow, if the viewer follows the actor.
    pub following: Option<String>,
}

/// A detailed profile as the remote service reports it.
pub struct RawProfile {
    pub did: String,
    pub handle: String,
    pub display_name: Option<String>,
    pub avatar: Option<String>,
    pub banner: Option<String>,
    pub followers_count: Option<i64>,
    pub follows_count: Option<i64>,
    pub posts_count: Option<i64>,
    pub description: Option<String>,
    pub viewer: Option<RawViewerState>,
}

/// The display record of a profile. Counts stay absent where the service gave none.
pub struct Profile {
    pub did: String,
    pub handle: String,
    pub display_name: String,
    pub avatar: String,
    pub banner: String,
    pub followers_count: Option<i64>,
    pub follows_count: Option<i64>,
    pub posts_count: Option<i64>,
    pub description: String,
    /// The record uri of the viewer's follow; empty if the viewer does not follow.
    pub following_uri: String,
}

pub struct ProfileModel {
    pub did: Seq<char>,
    pub handle: Seq<char>,
    pub display_name: Seq<char>,
    pub avatar: Seq<char>,
    pub banner: Seq<char>,
    pub followers_count: Option<i64>,
    pub follows_count: Option<i64>,
    pub posts_count: Option<i64>,
    pub description: Seq<char>,
    pub following_uri: Seq<char>,
}

impl View for Profile {
    type V = ProfileModel;

    open spec fn view(&self) -> ProfileModel {
        ProfileModel {
            did: self.did@,
            handle: self.handle@,
            display_name: self.display_name@,
            avatar: self.avatar@,
            banner: self.banner@,
            followers_count: self.followers_count,
            follows_count: self.follows_count,
            posts_count: self.posts_count,
            description: self.description@,
            following_uri: self.following_uri@,
        }
    }
}

pub open spec fn following_of(viewer: Option<RawViewerState>) -> Seq<char> {
    match viewer {
        Some(v) => text_or_empty(v.following),
        None => Seq::empty(),
    }
}

pub open spec fn normalized_profile(raw: RawProfile) -> ProfileModel {
    ProfileModel {
        did: raw.did@,
        handle: raw.handle@,
        display_name: text_or_empty(raw.display_name),
        avatar: text_or_empty(raw.avatar),
        banner: text_or_empty(raw.banner),
        followers_count: raw.followers_count,
        follows_count: raw.follows_count,
        posts_count: raw.posts_count,
        description: text_or_empty(raw.description),
        following_uri: following_of(raw.viewer),
    }
}

/// Flattens a remote profile; absent texts read as empty.
pub fn normalize_profile(raw: RawProfile) -> (r: Profile)
    ensures
        r@ == normalized_profile(raw),
{
    let following_uri = match raw.viewer {
        Some(v) => or_empty(v.following),
        None => String::new(),
    };
    Profile {
        did: raw.did,
        handle: raw.handle,
        display_name: or_empty(raw.display_name),
        avatar: or_empty(raw.avatar),
        banner: or_empty(raw.banner),
        followers_count: raw.followers_count,
        follows_count: raw.follows_count,
        posts_count: raw.posts_count,
        description: or_empty(raw.description),
        following_uri,
    }
}

} // verus!
