//! The session: one object owning the loaded profiles, the navigation
//! state, the deck attachment, brightness, the image cache and the
//! current audio device names. The event dispatcher, the render
//! pipeline and the activity bridge are methods of it; the loops that
//! feed them events live outside the library and carry its decisions
//! to the deck, the shell and the key-injection backend.

pub mod activity;
pub mod connect;
pub mod events;
pub mod navigation;
pub mod render;

use crate::images::{ImageCache, ImageCacheView};
use crate::manifest::{DeviceKind, Page, PageView};
use crate::profile::{Profile, ProfileView};
use crate::{assoc_get, lemma_assoc_get_at, str_eq, unique_keys};
use vstd::prelude::*;

verus! {

/// How many decoded bitmaps the session's image cache holds.
pub const IMAGE_CACHE_CAPACITY: usize = 120;

/// The active profile and page names.
#[derive(Debug)]
struct NavigationState {
    profile: String,
    page: String,
}

/// Mathematical model of a [`State`].
#[verifier::ext_equal]
pub struct StateView {
    /// Loaded profiles keyed by name.
    pub profiles: Seq<(Seq<char>, ProfileView)>,
    /// Name of the active profile.
    pub nav_profile: Seq<char>,
    /// Name of the active page.
    pub nav_page: Seq<char>,
    /// The profile the home toggle returns to.
    pub active_profile: Seq<char>,
    /// Deck brightness, applied on connect and on adjustment.
    pub brightness: u8,
    /// The decoded-image cache.
    pub cache: ImageCacheView,
    /// Name of the current audio output device.
    pub audio_output: Seq<char>,
    /// Name of the current audio input device.
    pub audio_input: Seq<char>,
    /// The kind of the connected deck, while one is connected.
    pub device: Option<DeviceKind>,
}

impl StateView {
    /// The session is well formed: profile names are unique, every
    /// loaded manifest is well formed, and the cache honours its bound.
    pub open spec fn wf(&self) -> bool {
        &&& unique_keys(self.profiles)
        &&& forall|i: int| 0 <= i < self.profiles.len() ==> (#[trigger] self.profiles[i]).1.wf()
        &&& self.cache.wf()
    }

    /// The profile and page the navigation names resolve to, when both
    /// lookups succeed.
    pub open spec fn spec_active_page(&self) -> Option<(ProfileView, PageView)> {
        match assoc_get(self.profiles, self.nav_profile) {
            None => None,
            Some(pr) => match assoc_get(pr.manifest.pages, self.nav_page) {
                None => None,
                Some(pg) => Some((pr, pg)),
            },
        }
    }
}

/// Whether two session states agree on everything but the navigation
/// names and the cache's entries: what a navigation step with its
/// render may touch, and nothing else.
pub open spec fn frame_navigation(a: StateView, b: StateView) -> bool {
    &&& b.profiles == a.profiles
    &&& b.active_profile == a.active_profile
    &&& b.brightness == a.brightness
    &&& b.cache.capacity == a.cache.capacity
    &&& b.audio_output == a.audio_output
    &&& b.audio_input == a.audio_input
    &&& b.device == a.device
}

/// The deep view of a name-keyed profile list.
pub open spec fn profiles_view(profiles: Seq<Profile>) -> Seq<(Seq<char>, ProfileView)> {
    profiles.map_values(|p: Profile| (p.name@, p@))
}

/// The session object. All mutation goes through its methods; the
/// contracts say how each event moves the session from one state to
/// the next.
pub struct State {
    profiles: Vec<Profile>,
    navigation: NavigationState,
    active_profile: String,
    brightness: u8,
    image_cache: ImageCache,
    audio_output_device: String,
    audio_input_device: String,
    device: Option<DeviceKind>,
}

impl View for State {
    type V = StateView;

    closed spec fn view(&self) -> StateView {
        StateView {
            profiles: profiles_view(self.profiles@),
            nav_profile: self.navigation.profile@,
            nav_page: self.navigation.page@,
            active_profile: self.active_profile@,
            brightness: self.brightness,
            cache: self.image_cache@,
            audio_output: self.audio_output_device@,
            audio_input: self.audio_input_device@,
            device: self.device,
        }
    }
}

impl State {
    /// Shorthand for the view being well formed.
    pub open spec fn wf(&self) -> bool {
        self@.wf()
    }

    /// A fresh session over the loaded profiles: navigation at the
    /// default profile and page, no memorized profile, full brightness,
    /// an empty image cache, no audio device names and no deck attached.
    pub fn with_profiles(profiles: Vec<Profile>) -> (r: State)
        requires
            unique_keys(profiles_view(profiles@)),
            forall|i: int|
                0 <= i < profiles@.len() ==> (#[trigger] profiles_view(profiles@)[i]).1.wf(),
        ensures
            r.wf(),
            r@.profiles == profiles_view(profiles@),
            r@.nav_profile == crate::default_profile_spec(),
            r@.nav_page == crate::default_page_spec(),
            r@.active_profile == crate::default_profile_spec(),
            r@.brightness == 100u8,
            r@.cache.entries == Seq::<(Seq<char>, image::DynamicImage)>::empty(),
            r@.cache.capacity == IMAGE_CACHE_CAPACITY as int,
            r@.audio_output == Seq::<char>::empty(),
            r@.audio_input == Seq::<char>::empty(),
            r@.device is None,
    {
        State {
            profiles,
            navigation: NavigationState {
                profile: crate::default_profile().to_owned(),
                page: crate::default_page().to_owned(),
            },
            active_profile: crate::default_profile().to_owned(),
            brightness: 100,
            image_cache: ImageCache::new(IMAGE_CACHE_CAPACITY),
            audio_output_device: String::new(),
            audio_input_device: String::new(),
            device: None,
        }
    }

    /// The profile of the given name together with its page of the
    /// given name, when both exist.
    pub fn get_page(&self, profile: &str, page: &str) -> (r: Option<(Profile, Page)>)
        ensures
            match assoc_get(self@.profiles, profile@) {
                None => r is None,
                Some(pr) => match assoc_get(pr.manifest.pages, page@) {
                    None => r is None,
                    Some(pg) => r matches Some((p, g)) && p@ == pr && g@ == pg,
                },
            },
    {
        let n = self.profiles.len();
        let mut i: usize = 0;
        while i < n
            invariant
                0 <= i <= n == self.profiles@.len(),
                forall|j: int| 0 <= j < i ==> profiles_view(self.profiles@)[j].0 != profile@,
            decreases n - i,
        {
            if str_eq(self.profiles[i].name.as_str(), profile) {
                proof {
                    lemma_assoc_get_at(profiles_view(self.profiles@), profile@, i as int);
                }
                let pr = &self.profiles[i];
                match pr.manifest.get_page(page) {
                    None => {
                        return None;
                    },
                    Some(pg) => {
                        return Some((pr.clone(), pg.clone()));
                    },
                }
            }
            i = i + 1;
        }
        proof {
            lemma_assoc_get_at(profiles_view(self.profiles@), profile@, n as int);
        }
        None
    }

    /// The names navigation currently stands at.
    pub fn get_current_profile_and_page(&self) -> (r: (String, String))
        ensures
            r.0@ == self@.nav_profile,
            r.1@ == self@.nav_page,
    {
        (self.navigation.profile.clone(), self.navigation.page.clone())
    }

    /// Deck brightness as the session holds it.
    pub fn get_brightness(&self) -> (r: u8)
        ensures
            r == self@.brightness,
    {
        self.brightness
    }

    /// Records the current audio output device's name.
    pub fn set_audio_output_device(&mut self, device: &str)
        ensures
            final(self)@ == (StateView { audio_output: device@, ..old(self)@ }),
    {
        self.audio_output_device = device.to_owned();
        proof {
            assert(final(self)@ =~= StateView { audio_output: device@, ..old(self)@ });
        }
    }

    /// Records the current audio input device's name.
    pub fn set_audio_input_device(&mut self, device: &str)
        ensures
            final(self)@ == (StateView { audio_input: device@, ..old(self)@ }),
    {
        self.audio_input_device = device.to_owned();
        proof {
            assert(final(self)@ =~= StateView { audio_input: device@, ..old(self)@ });
        }
    }

    /// Records that a deck of the given kind is connected.
    pub fn attach_device(&mut self, kind: DeviceKind)
        ensures
            final(self)@ == (StateView { device: Some(kind), ..old(self)@ }),
    {
        self.device = Some(kind);
        proof {
            assert(final(self)@ =~= StateView { device: Some(kind), ..old(self)@ });
        }
    }

    /// Records that no deck is connected.
    pub fn detach_device(&mut self)
        ensures
            final(self)@ == (StateView { device: None, ..old(self)@ }),
    {
        self.device = None;
        proof {
            assert(final(self)@ =~= StateView { device: None, ..old(self)@ });
        }
    }
}

} // verus!
