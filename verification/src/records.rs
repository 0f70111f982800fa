//! The records that the resource endpoints return, and how each is read
//! from a JSON document.

use crate::json::{json_view, member, value_member, Json};
use crate::members::{
    count_member, optional_text, optional_text_member, required_count, required_text,
    text_member,
};
use crate::text::copy_text;
use vstd::prelude::*;

verus! {

/// Progress on a ladder: the level reached and the thresholds below and
/// above it.
#[derive(Clone)]
pub struct LibraOrStar {
    level: usize,
    prev: usize,
    next: usize,
}

/// The content of a [`LibraOrStar`].
pub struct LevelsView {
    pub level: usize,
    pub prev: usize,
    pub next: usize,
}

impl View for LibraOrStar {
    type V = LevelsView;

    closed spec fn view(&self) -> LevelsView {
        LevelsView { level: self.level, prev: self.prev, next: self.next }
    }
}

/// The levels that a JSON object with the members `level`, `prev` and
/// `next` holds.
pub open spec fn levels_of(json: Json) -> Option<LevelsView> {
    if required_count(json, "level"@) is Some && required_count(json, "prev"@) is Some
        && required_count(json, "next"@) is Some {
        Some(
            LevelsView {
                level: required_count(json, "level"@).unwrap(),
                prev: required_count(json, "prev"@).unwrap(),
                next: required_count(json, "next"@).unwrap(),
            },
        )
    } else {
        None
    }
}

/// The levels held by the member of `json` under `key`.
pub open spec fn required_levels(json: Json, key: Seq<char>) -> Option<LevelsView> {
    match member(json, key) {
        Some(inner) => levels_of(inner),
        None => None,
    }
}

impl LibraOrStar {
    /// The level reached.
    pub fn level(&self) -> (level: usize)
        ensures
            level == self@.level,
    {
        self.level
    }

    /// The threshold below the level.
    pub fn prev(&self) -> (prev: usize)
        ensures
            prev == self@.prev,
    {
        self.prev
    }

    /// The threshold above the level.
    pub fn next(&self) -> (next: usize)
        ensures
            next == self@.next,
    {
        self.next
    }

    /// Reads the levels from a JSON value, or gives `None` when the value
    /// does not have their shape.
    pub fn from_json(value: &serde_json::Value) -> (levels: Option<LibraOrStar>)
        ensures
            match levels {
                Some(read) => levels_of(json_view(*value)) == Some(read@),
                None => levels_of(json_view(*value)) is None,
            },
    {
        let level = match count_member(value, "level") {
            Some(n) => n,
            None => { return None; },
        };
        let prev = match count_member(value, "prev") {
            Some(n) => n,
            None => { return None; },
        };
        let next = match count_member(value, "next") {
            Some(n) => n,
            None => { return None; },
        };
        Some(LibraOrStar { level, prev, next })
    }

    pub(crate) fn copy(&self) -> (same: LibraOrStar)
        ensures
            same@ == self@,
    {
        LibraOrStar { level: self.level, prev: self.prev, next: self.next }
    }
}

/// How a user presents themselves: a picture and a few words.
#[derive(Clone)]
pub struct Profile {
    image: String,
    text: String,
}

/// The content of a [`Profile`].
pub struct ProfileView {
    pub image: Seq<char>,
    pub text: Seq<char>,
}

impl View for Profile {
    type V = ProfileView;

    closed spec fn view(&self) -> ProfileView {
        ProfileView { image: self.image@, text: self.text@ }
    }
}

/// The profile that a JSON object with the string members `image` and
/// `text` holds.
pub open spec fn profile_of(json: Json) -> Option<ProfileView> {
    if required_text(json, "image"@) is Some && required_text(json, "text"@) is Some {
        Some(
            ProfileView {
                image: required_text(json, "image"@).unwrap(),
                text: required_text(json, "text"@).unwrap(),
            },
        )
    } else {
        None
    }
}

/// The profile held by the member of `json` under `key`.
pub open spec fn required_profile(json: Json, key: Seq<char>) -> Option<ProfileView> {
    match member(json, key) {
        Some(inner) => profile_of(inner),
        None => None,
    }
}

impl Profile {
    /// The address of the picture.
    pub fn image(&self) -> (image: String)
        ensures
            image@ == self@.image,
    {
        self.image.clone()
    }

    /// The words of the profile.
    pub fn text(&self) -> (text: String)
        ensures
            text@ == self@.text,
    {
        self.text.clone()
    }

    /// Reads a profile from a JSON value, or gives `None` when the value
    /// does not have its shape.
    pub fn from_json(value: &serde_json::Value) -> (profile: Option<Profile>)
        ensures
            match profile {
                Some(read) => profile_of(json_view(*value)) == Some(read@),
                None => profile_of(json_view(*value)) is None,
            },
    {
        let image = match text_member(value, "image") {
            Some(s) => s,
            None => { return None; },
        };
        let text = match text_member(value, "text") {
            Some(s) => s,
            None => { return None; },
        };
        Some(Profile { image, text })
    }

    pub(crate) fn copy(&self) -> (same: Profile)
        ensures
            same@ == self@,
    {
        Profile { image: self.image.clone(), text: self.text.clone() }
    }
}

/// A user of the service.
pub struct MeResponse {
    key: String,
    name: Option<String>,
    account: Option<String>,
    libra: LibraOrStar,
    foveon: usize,
    profile: Profile,
}

/// The content of a [`MeResponse`].
pub struct MeView {
    pub key: Seq<char>,
    pub name: Option<Seq<char>>,
    pub account: Option<Seq<char>>,
    pub libra: LevelsView,
    pub foveon: usize,
    pub profile: ProfileView,
}

impl View for MeResponse {
    type V = MeView;

    closed spec fn view(&self) -> MeView {
        MeView {
            key: self.key@,
            name: self.name.deep_view(),
            account: self.account.deep_view(),
            libra: self.libra@,
            foveon: self.foveon,
            profile: self.profile@,
        }
    }
}

/// The user that a JSON object holds. `key` must be a string, `foveon` a
/// count, `libra` levels and `profile` a profile; `name` and `account` are
/// strings that may be absent or `null`. Other members are ignored.
pub open spec fn me_of(json: Json) -> Option<MeView> {
    if required_text(json, "key"@) is Some && optional_text(json, "name"@) is Some
        && optional_text(json, "account"@) is Some && required_levels(json, "libra"@) is Some
        && required_count(json, "foveon"@) is Some && required_profile(json, "profile"@)
        is Some {
        Some(
            MeView {
                key: required_text(json, "key"@).unwrap(),
                name: optional_text(json, "name"@).unwrap(),
                account: optional_text(json, "account"@).unwrap(),
                libra: required_levels(json, "libra"@).unwrap(),
                foveon: required_count(json, "foveon"@).unwrap(),
                profile: required_profile(json, "profile"@).unwrap(),
            },
        )
    } else {
        None
    }
}

impl MeResponse {
    /// The key that identifies the user.
    pub fn key(&self) -> (key: String)
        ensures
            key@ == self@.key,
    {
        self.key.clone()
    }

    /// The display name, if the user has one.
    pub fn name(&self) -> (name: Option<String>)
        ensures
            name.deep_view() == self@.name,
    {
        copy_text(&self.name)
    }

    /// The account identifier, if the user has one.
    pub fn account(&self) -> (account: Option<String>)
        ensures
            account.deep_view() == self@.account,
    {
        copy_text(&self.account)
    }

    /// The libra levels of the user.
    pub fn libra(&self) -> (libra: LibraOrStar)
        ensures
            libra@ == self@.libra,
    {
        self.libra.copy()
    }

    /// The foveon counter of the user.
    pub fn foveon(&self) -> (foveon: usize)
        ensures
            foveon == self@.foveon,
    {
        self.foveon
    }

    /// How the user presents themselves.
    pub fn profile(&self) -> (profile: Profile)
        ensures
            profile@ == self@.profile,
    {
        self.profile.copy()
    }

    /// Reads a user from a JSON value, or gives `None` when the value does
    /// not have a user's shape.
    pub fn from_json(value: &serde_json::Value) -> (me: Option<MeResponse>)
        ensures
            match me {
                Some(read) => me_of(json_view(*value)) == Some(read@),
                None => me_of(json_view(*value)) is None,
            },
    {
        let key = match text_member(value, "key") {
            Some(s) => s,
            None => { return None; },
        };
        let name = match optional_text_member(value, "name") {
            Some(s) => s,
            None => { return None; },
        };
        let account = match optional_text_member(value, "account") {
            Some(s) => s,
            None => { return None; },
        };
        let libra = match value_member(value, "libra") {
            Some(inner) => match LibraOrStar::from_json(inner) {
                Some(levels) => levels,
                None => { return None; },
            },
            None => { return None; },
        };
        let foveon = match count_member(value, "foveon") {
            Some(n) => n,
            None => { return None; },
        };
        let profile = match value_member(value, "profile") {
            Some(inner) => match Profile::from_json(inner) {
                Some(profile) => profile,
                None => { return None; },
            },
            None => { return None; },
        };
        Some(MeResponse { key, name, account, libra, foveon, profile })
    }
}

} // verus!
