//! The supported platforms and their fixed per-platform data.
use vstd::prelude::*;

verus! {

/// A supported source site. The declaration order is the detection priority.
#[derive(Clone, Copy, PartialEq, Eq, Structural, Debug)]
pub enum Platform {
    Instagram,
    Reddit,
    TikTok,
    Twitch,
    Twitter,
}

/// The priority rank of a platform: lower ranks win when several match.
pub open spec fn rank(p: Platform) -> int {
    match p {
        Platform::Instagram => 0,
        Platform::Reddit => 1,
        Platform::TikTok => 2,
        Platform::Twitch => 3,
        Platform::Twitter => 4,
    }
}

pub open spec fn spec_from_index(idx: int) -> Option<Platform> {
    if idx == 0 {
        Some(Platform::Instagram)
    } else if idx == 1 {
        Some(Platform::Reddit)
    } else if idx == 2 {
        Some(Platform::TikTok)
    } else if idx == 3 {
        Some(Platform::Twitch)
    } else if idx == 4 {
        Some(Platform::Twitter)
    } else {
        None
    }
}

pub open spec fn spec_display_name(p: Platform) -> Seq<char> {
    match p {
        Platform::Instagram => "Instagram"@,
        Platform::Reddit => "Reddit"@,
        Platform::TikTok => "TikTok"@,
        Platform::Twitch => "Twitch"@,
        Platform::Twitter => "Twitter"@,
    }
}

pub open spec fn spec_replacement_domain(p: Platform) -> Seq<char> {
    match p {
        Platform::Instagram => "kkinstagram.com"@,
        Platform::Reddit => "rxddit.com"@,
        Platform::TikTok => "kktiktok.com"@,
        Platform::Twitch => "fxtwitch.seria.moe"@,
        Platform::Twitter => "fxtwitter.com"@,
    }
}

impl Platform {
    /// The name shown in captions.
    pub fn display_name(&self) -> (r: &'static str)
        ensures
            r@ == spec_display_name(*self),
    {
        match self {
            Platform::Instagram => "Instagram",
            Platform::Reddit => "Reddit",
            Platform::TikTok => "TikTok",
            Platform::Twitch => "Twitch",
            Platform::Twitter => "Twitter",
        }
    }

    /// The platform at priority position `idx`, if any.
    pub fn from_index(idx: usize) -> (r: Option<Platform>)
        ensures
            r == spec_from_index(idx as int),
            r matches Some(p) ==> rank(p) == idx,
    {
        match idx {
            0 => Some(Platform::Instagram),
            1 => Some(Platform::Reddit),
            2 => Some(Platform::TikTok),
            3 => Some(Platform::Twitch),
            4 => Some(Platform::Twitter),
            _ => None,
        }
    }

    /// The embed-friendly proxy domain that replaces the platform's own.
    pub fn replacement_domain(&self) -> (r: &'static str)
        ensures
            r@ == spec_replacement_domain(*self),
    {
        match self {
            Platform::Instagram => "kkinstagram.com",
            Platform::Reddit => "rxddit.com",
            Platform::TikTok => "kktiktok.com",
            Platform::Twitch => "fxtwitch.seria.moe",
            Platform::Twitter => "fxtwitter.com",
        }
    }
}

} // verus!
