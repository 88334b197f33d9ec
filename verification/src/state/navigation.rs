//! The navigation state machine: which profile and page are active, how
//! the active pair moves, the cyclic page traversal, and the home
//! toggle with its memory of the profile it left.

use crate::manifest::{lemma_page_index_characterization, spec_page_index};
use crate::materialized_page::MaterializedPage;
use crate::profile::Profile;
use crate::state::render::{spec_render_err, spec_render_ok, spec_render_owed, RenderError};
use crate::state::{frame_navigation, State, StateView};
use crate::{assoc_get, default_page_spec, default_profile_spec, lemma_assoc_get_at, str_eq};
use vstd::prelude::*;

verus! {

/// How a navigation request can fail.
#[derive(Debug)]
pub enum NavigationError {
    /// No profile of the requested name is loaded.
    NoProfile,
    /// The requested page is not declared by the resolved profile.
    NoPage,
    /// Navigation committed, but rendering the new page failed.
    RenderError(RenderError),
}

/// Whether the named profile and page both resolve in the loaded
/// configuration.
pub open spec fn spec_resolves(s: StateView, profile: Seq<char>, page: Seq<char>) -> bool {
    match assoc_get(s.profiles, profile) {
        None => false,
        Some(pr) => assoc_get(pr.manifest.pages, page) is Some,
    }
}

/// Where navigation stands after a request for the pair: at the pair
/// when it resolves, unmoved otherwise.
pub open spec fn spec_nav_after_goto(s: StateView, profile: Seq<char>, page: Seq<char>) -> (
    Seq<char>,
    Seq<char>,
) {
    if spec_resolves(s, profile, page) {
        (profile, page)
    } else {
        (s.nav_profile, s.nav_page)
    }
}

/// Where navigation stands after a request for a profile with fallback:
/// unmoved when the profile is already active; at the profile's default
/// page when the profile is loaded and declares it; back at the default
/// profile when the profile is unknown, unless the default profile is
/// already active.
pub open spec fn spec_nav_after_goto_profile_or_default(s: StateView, profile: Seq<char>) -> (
    Seq<char>,
    Seq<char>,
) {
    if s.nav_profile == profile {
        (s.nav_profile, s.nav_page)
    } else if assoc_get(s.profiles, profile) is Some {
        spec_nav_after_goto(s, profile, default_page_spec())
    } else if s.nav_profile == default_profile_spec() {
        (s.nav_profile, s.nav_page)
    } else {
        spec_nav_after_goto(s, default_profile_spec(), default_page_spec())
    }
}

/// Where navigation and the home-toggle memory stand after a home
/// toggle, as the triple (profile, page, memory): a no-op on the
/// default profile with no memory; from a non-default profile, the
/// profile is memorized and navigation heads home; on the default
/// profile with a memory, the memory is cleared and navigation returns
/// to the memorized profile, falling back as a profile request does.
pub open spec fn spec_toggle_home(s: StateView) -> (Seq<char>, Seq<char>, Seq<char>) {
    let d = default_profile_spec();
    if s.active_profile == d && s.nav_profile == d {
        (s.nav_profile, s.nav_page, s.active_profile)
    } else if s.nav_profile != d {
        let s2 = StateView { active_profile: s.nav_profile, ..s };
        let nav = spec_nav_after_goto(s2, d, default_page_spec());
        (nav.0, nav.1, s.nav_profile)
    } else {
        let s2 = StateView { active_profile: d, ..s };
        let nav = spec_nav_after_goto_profile_or_default(s2, s.active_profile);
        (nav.0, nav.1, d)
    }
}

/// The page that follows a page in a cyclic traversal of the order, the
/// first following the last; a page outside the order goes nowhere.
pub open spec fn spec_cycle_next(order: Seq<Seq<char>>, page: Seq<char>) -> Seq<char> {
    match spec_page_index(order, page) {
        None => page,
        Some(i) => if i + 1 == order.len() {
            order[0]
        } else {
            order[i + 1]
        },
    }
}

/// The page that precedes a page in a cyclic traversal of the order,
/// the last preceding the first; a page outside the order goes nowhere.
pub open spec fn spec_cycle_previous(order: Seq<Seq<char>>, page: Seq<char>) -> Seq<char> {
    match spec_page_index(order, page) {
        None => page,
        Some(i) => if i == 0 {
            order[order.len() - 1]
        } else {
            order[i - 1]
        },
    }
}

/// Where navigation stands after one cyclic page step: unmoved when the
/// active profile is unknown or the active page is outside its order,
/// else moved to the adjacent page of the order as a plain navigation
/// request for it would move.
pub open spec fn spec_nav_after_page_step(s: StateView, forward: bool) -> (Seq<char>, Seq<char>) {
    match assoc_get(s.profiles, s.nav_profile) {
        None => (s.nav_profile, s.nav_page),
        Some(pr) => match spec_page_index(pr.manifest.pages_order, s.nav_page) {
            None => (s.nav_profile, s.nav_page),
            Some(_) => spec_nav_after_goto(
                s,
                s.nav_profile,
                if forward {
                    spec_cycle_next(pr.manifest.pages_order, s.nav_page)
                } else {
                    spec_cycle_previous(pr.manifest.pages_order, s.nav_page)
                },
            ),
        },
    }
}

/// What a navigation request for the pair returns, `s0` the session
/// before and `s1` the session after: exactly one of — the profile is
/// unknown; the profile is known but not the page; the pair resolved
/// and the render succeeded, handing back the materialized page; the
/// pair resolved and the render failed as renders fail. Where the
/// render owes success, the request owes it too.
pub open spec fn spec_navigate_result(
    s0: StateView,
    s1: StateView,
    profile: Seq<char>,
    page: Seq<char>,
    r: Result<MaterializedPage, NavigationError>,
) -> bool {
    let pr = assoc_get(s0.profiles, profile)->Some_0;
    let pg = assoc_get(pr.manifest.pages, page)->Some_0;
    &&& ((r matches Err(NavigationError::NoProfile)) <==> assoc_get(s0.profiles, profile) is None)
    &&& ((r matches Err(NavigationError::NoPage)) <==> (assoc_get(s0.profiles, profile) is Some
        && assoc_get(pr.manifest.pages, page) is None))
    &&& (match r {
        Ok(mp) => spec_resolves(s0, profile, page) && spec_render_ok(s0, s1, pr, pg, mp@),
        Err(NavigationError::RenderError(re)) => spec_resolves(s0, profile, page)
            && spec_render_err(s0, pr, pg, re),
        _ => true,
    })
    &&& ((spec_resolves(s0, profile, page) && spec_render_owed(s0, pr, pg)) ==> r is Ok)
}

/// The same outcome for the requests that may also answer with no
/// render at all: where a navigation ran, its outcome is carried in the
/// `Some` payload exactly as [`spec_navigate_result`] states it.
pub open spec fn spec_navigate_result_some(
    s0: StateView,
    s1: StateView,
    profile: Seq<char>,
    page: Seq<char>,
    r: Result<Option<MaterializedPage>, NavigationError>,
) -> bool {
    let pr = assoc_get(s0.profiles, profile)->Some_0;
    let pg = assoc_get(pr.manifest.pages, page)->Some_0;
    &&& ((r matches Err(NavigationError::NoProfile)) <==> assoc_get(s0.profiles, profile) is None)
    &&& ((r matches Err(NavigationError::NoPage)) <==> (assoc_get(s0.profiles, profile) is Some
        && assoc_get(pr.manifest.pages, page) is None))
    &&& (match r {
        Ok(o) => o matches Some(mp) && spec_resolves(s0, profile, page) && spec_render_ok(
            s0,
            s1,
            pr,
            pg,
            mp@,
        ),
        Err(NavigationError::RenderError(re)) => spec_resolves(s0, profile, page)
            && spec_render_err(s0, pr, pg, re),
        _ => true,
    })
    &&& ((spec_resolves(s0, profile, page) && spec_render_owed(s0, pr, pg)) ==> r is Ok)
}

/// A plain navigation result recast into the shape of the requests that
/// may also answer with no render at all.
pub open spec fn res_some(r: Result<MaterializedPage, NavigationError>) -> Result<
    Option<MaterializedPage>,
    NavigationError,
> {
    match r {
        Ok(mp) => Ok(Some(mp)),
        Err(e) => Err(e),
    }
}

/// Whether a navigation request for the pair is owed success outright:
/// the pair resolves and its render is owed.
pub open spec fn spec_nav_render_owed(s0: StateView, profile: Seq<char>, page: Seq<char>) -> bool {
    &&& spec_resolves(s0, profile, page)
    &&& spec_render_owed(
        s0,
        assoc_get(s0.profiles, profile)->Some_0,
        assoc_get(assoc_get(s0.profiles, profile)->Some_0.manifest.pages, page)->Some_0,
    )
}

/// The page one cyclic step heads for, when the active profile is
/// loaded and the active page is in its order.
pub open spec fn spec_page_step_target(s: StateView, forward: bool) -> Option<Seq<char>> {
    match assoc_get(s.profiles, s.nav_profile) {
        None => None,
        Some(pr) => match spec_page_index(pr.manifest.pages_order, s.nav_page) {
            None => None,
            Some(_) => Some(
                if forward {
                    spec_cycle_next(pr.manifest.pages_order, s.nav_page)
                } else {
                    spec_cycle_previous(pr.manifest.pages_order, s.nav_page)
                },
            ),
        },
    }
}

/// What one cyclic page step returns: the profile failure when the
/// active profile is unknown, the page failure when the active page is
/// outside its order, and otherwise exactly what a navigation request
/// for the adjacent page returns.
pub open spec fn spec_page_step_result(
    s0: StateView,
    s1: StateView,
    forward: bool,
    r: Result<Option<MaterializedPage>, NavigationError>,
) -> bool {
    match assoc_get(s0.profiles, s0.nav_profile) {
        None => r matches Err(NavigationError::NoProfile),
        Some(pr) => match spec_page_index(pr.manifest.pages_order, s0.nav_page) {
            None => r matches Err(NavigationError::NoPage),
            Some(_) => spec_navigate_result_some(
                s0,
                s1,
                s0.nav_profile,
                spec_page_step_target(s0, forward)->Some_0,
                r,
            ),
        },
    }
}

/// What a home toggle returns: nothing on the no-op; from a non-default
/// profile, what the navigation home returns; restoring, what the
/// request for the memorized profile's default page returns, or nothing
/// when the memory names no loaded profile.
pub open spec fn spec_toggle_result(
    s0: StateView,
    s1: StateView,
    r: Result<Option<MaterializedPage>, NavigationError>,
) -> bool {
    let d = default_profile_spec();
    &&& ((s0.active_profile == d && s0.nav_profile == d) ==> (r matches Ok(o) && o is None))
    &&& (s0.nav_profile != d ==> spec_navigate_result_some(s0, s1, d, default_page_spec(), r))
    &&& ((s0.nav_profile == d && s0.active_profile != d) ==> match assoc_get(
        s0.profiles,
        s0.active_profile,
    ) {
        Some(_) => spec_navigate_result_some(s0, s1, s0.active_profile, default_page_spec(), r),
        None => r matches Ok(o) && o is None,
    })
}

impl State {
    /// The loaded profile of the given name.
    pub fn get_profile(&self, profile_name: &str) -> (r: Result<Profile, NavigationError>)
        ensures
            match assoc_get(self@.profiles, profile_name@) {
                Some(pr) => r matches Ok(p) && p@ == pr,
                None => r matches Err(NavigationError::NoProfile),
            },
    {
        let n = self.profiles_len();
        let mut i: usize = 0;
        while i < n
            invariant
                0 <= i <= n == self@.profiles.len(),
                forall|j: int| 0 <= j < i ==> self@.profiles[j].0 != profile_name@,
            decreases n - i,
        {
            match self.profile_at(i, profile_name) {
                Some(p) => {
                    proof {
                        lemma_assoc_get_at(self@.profiles, profile_name@, i as int);
                    }
                    return Ok(p);
                },
                None => {
                    i = i + 1;
                },
            }
        }
        proof {
            lemma_assoc_get_at(self@.profiles, profile_name@, n as int);
        }
        Err(NavigationError::NoProfile)
    }

    /// How many profiles are loaded.
    fn profiles_len(&self) -> (r: usize)
        ensures
            r == self@.profiles.len(),
    {
        self.profiles.len()
    }

    /// The profile at a position, when it carries the given name.
    fn profile_at(&self, i: usize, profile_name: &str) -> (r: Option<Profile>)
        requires
            i < self@.profiles.len(),
        ensures
            match r {
                Some(p) => self@.profiles[i as int].0 == profile_name@ && p@
                    == self@.profiles[i as int].1,
                None => self@.profiles[i as int].0 != profile_name@,
            },
    {
        if str_eq(self.profiles[i].name.as_str(), profile_name) {
            Some(self.profiles[i].clone())
        } else {
            None
        }
    }

    /// Moves navigation to the named profile and page and renders that
    /// page. An unknown profile or page moves nothing; once the pair
    /// resolves, the move is committed even when the render then fails.
    pub fn navigate_to(&mut self, profile: &str, page: &str) -> (r: Result<
        MaterializedPage,
        NavigationError,
    >)
        requires
            old(self).wf(),
        ensures
            final(self).wf(),
            frame_navigation(old(self)@, final(self)@),
            (final(self)@.nav_profile, final(self)@.nav_page) == spec_nav_after_goto(
                old(self)@,
                profile@,
                page@,
            ),
            !spec_resolves(old(self)@, profile@, page@) ==> final(self)@ == old(self)@,
            spec_navigate_result(old(self)@, final(self)@, profile@, page@, r),
            r matches Ok(mp) ==> (match final(self)@.spec_active_page() {
                Some((pr, pg)) => crate::state::render::spec_render_ok(
                    old(self)@,
                    final(self)@,
                    pr,
                    pg,
                    mp@,
                ),
                None => false,
            }),
    {
        let pr = match self.get_profile(profile) {
            Ok(p) => p,
            Err(e) => {
                return Err(e);
            },
        };
        let pg = match pr.manifest.get_page(page) {
            Some(g) => g.clone(),
            None => {
                return Err(NavigationError::NoPage);
            },
        };
        self.navigation.profile = profile.to_owned();
        self.navigation.page = page.to_owned();
        proof {
            assert(self@ =~= (StateView {
                nav_profile: profile@,
                nav_page: page@,
                ..old(self)@
            }));
        }
        match self.render_page(&pr, &pg) {
            Ok(mp) => Ok(mp),
            Err(re) => Err(NavigationError::RenderError(re)),
        }
    }

    /// Moves navigation to the default profile's default page.
    pub fn navigate_to_default(&mut self) -> (r: Result<MaterializedPage, NavigationError>)
        requires
            old(self).wf(),
        ensures
            final(self).wf(),
            frame_navigation(old(self)@, final(self)@),
            (final(self)@.nav_profile, final(self)@.nav_page) == spec_nav_after_goto(
                old(self)@,
                default_profile_spec(),
                default_page_spec(),
            ),
            !spec_resolves(old(self)@, default_profile_spec(), default_page_spec())
                ==> final(self)@ == old(self)@,
            spec_navigate_result(
                old(self)@,
                final(self)@,
                default_profile_spec(),
                default_page_spec(),
                r,
            ),
            r matches Ok(mp) ==> (match final(self)@.spec_active_page() {
                Some((pr, pg)) => crate::state::render::spec_render_ok(
                    old(self)@,
                    final(self)@,
                    pr,
                    pg,
                    mp@,
                ),
                None => false,
            }),
    {
        self.navigate_to(crate::default_profile(), crate::default_page())
    }

    /// Moves navigation to a page of the profile that is already
    /// active.
    pub fn navigate_to_page(&mut self, page: &str) -> (r: Result<
        MaterializedPage,
        NavigationError,
    >)
        requires
            old(self).wf(),
        ensures
            final(self).wf(),
            frame_navigation(old(self)@, final(self)@),
            (final(self)@.nav_profile, final(self)@.nav_page) == spec_nav_after_goto(
                old(self)@,
                old(self)@.nav_profile,
                page@,
            ),
            !spec_resolves(old(self)@, old(self)@.nav_profile, page@)
                ==> final(self)@ == old(self)@,
            spec_navigate_result(old(self)@, final(self)@, old(self)@.nav_profile, page@, r),
            r matches Ok(mp) ==> (match final(self)@.spec_active_page() {
                Some((pr, pg)) => crate::state::render::spec_render_ok(
                    old(self)@,
                    final(self)@,
                    pr,
                    pg,
                    mp@,
                ),
                None => false,
            }),
    {
        let profile = self.get_current_profile_and_page().0;
        self.navigate_to(profile.as_str(), page)
    }

    /// Moves navigation to the named profile's default page; a no-op
    /// when the profile is already active; when the profile is unknown,
    /// falls back to the default profile, unless that is already
    /// active. The layout to write comes back when a render ran.
    pub fn navigate_to_profile_or_default(&mut self, profile: &str) -> (r: Result<
        Option<MaterializedPage>,
        NavigationError,
    >)
        requires
            old(self).wf(),
        ensures
            final(self).wf(),
            frame_navigation(old(self)@, final(self)@),
            (final(self)@.nav_profile, final(self)@.nav_page)
                == spec_nav_after_goto_profile_or_default(old(self)@, profile@),
            old(self)@.nav_profile == profile@ ==> (final(self)@ == old(self)@ && (r matches Ok(
                o,
            ) && o is None)),
            (old(self)@.nav_profile != profile@ && assoc_get(old(self)@.profiles, profile@) is None
                && old(self)@.nav_profile == default_profile_spec()) ==> (final(self)@ == old(
                self,
            )@ && (r matches Ok(o) && o is None)),
            r matches Err(NavigationError::NoProfile) ==> assoc_get(
                old(self)@.profiles,
                profile@,
            ) is None && assoc_get(old(self)@.profiles, default_profile_spec()) is None,
            old(self)@.nav_profile != profile@ ==> match assoc_get(old(self)@.profiles, profile@) {
                Some(_) => spec_navigate_result_some(
                    old(self)@,
                    final(self)@,
                    profile@,
                    default_page_spec(),
                    r,
                ),
                None => old(self)@.nav_profile != default_profile_spec()
                    ==> spec_navigate_result_some(
                    old(self)@,
                    final(self)@,
                    default_profile_spec(),
                    default_page_spec(),
                    r,
                ),
            },
            r matches Ok(o) ==> (o matches Some(mp) ==> (match final(self)@.spec_active_page() {
                Some((pr, pg)) => crate::state::render::spec_render_ok(
                    old(self)@,
                    final(self)@,
                    pr,
                    pg,
                    mp@,
                ),
                None => false,
            })),
    {
        let current = self.get_current_profile_and_page().0;
        if str_eq(current.as_str(), profile) {
            return Ok(None);
        }
        match self.navigate_to(profile, crate::default_page()) {
            Ok(mp) => Ok(Some(mp)),
            Err(NavigationError::NoProfile) => {
                if str_eq(current.as_str(), crate::default_profile()) {
                    return Ok(None);
                }
                match self.navigate_to_default() {
                    Ok(mp) => Ok(Some(mp)),
                    Err(e) => Err(e),
                }
            },
            Err(e) => Err(e),
        }
    }

    /// The home toggle: from a non-default profile, memorize it and
    /// head to the default profile; on the default profile with a
    /// memorized profile, clear the memory and return to it; otherwise
    /// a no-op.
    pub fn toggle_home(&mut self) -> (r: Result<Option<MaterializedPage>, NavigationError>)
        requires
            old(self).wf(),
        ensures
            final(self).wf(),
            final(self)@.profiles == old(self)@.profiles,
            final(self)@.brightness == old(self)@.brightness,
            final(self)@.cache.capacity == old(self)@.cache.capacity,
            final(self)@.audio_output == old(self)@.audio_output,
            final(self)@.audio_input == old(self)@.audio_input,
            final(self)@.device == old(self)@.device,
            (final(self)@.nav_profile, final(self)@.nav_page, final(self)@.active_profile)
                == spec_toggle_home(old(self)@),
            (old(self)@.active_profile == default_profile_spec() && old(self)@.nav_profile
                == default_profile_spec()) ==> (final(self)@ == old(self)@ && (r matches Ok(o)
                && o is None)),
            spec_toggle_result(old(self)@, final(self)@, r),
            r matches Ok(o) ==> (o matches Some(mp) ==> (match final(self)@.spec_active_page() {
                Some((pr, pg)) => crate::state::render::spec_render_ok(
                    old(self)@,
                    final(self)@,
                    pr,
                    pg,
                    mp@,
                ),
                None => false,
            })),
    {
        let (profile_name, _) = self.get_current_profile_and_page();
        let active = self.get_active_profile();
        let on_default_nav = str_eq(profile_name.as_str(), crate::default_profile());
        let on_default_active = str_eq(active.as_str(), crate::default_profile());
        if on_default_active && on_default_nav {
            return Ok(None);
        }
        if !on_default_nav {
            self.set_active_profile(profile_name.as_str());
            match self.navigate_to_default() {
                Ok(mp) => Ok(Some(mp)),
                Err(e) => Err(e),
            }
        } else {
            self.set_active_profile(crate::default_profile());
            self.navigate_to_profile_or_default(active.as_str())
        }
    }

    /// The profile the home toggle would return to.
    pub fn get_active_profile(&self) -> (r: String)
        ensures
            r@ == self@.active_profile,
    {
        self.active_profile.clone()
    }

    fn set_active_profile(&mut self, profile: &str)
        ensures
            final(self)@ == (StateView { active_profile: profile@, ..old(self)@ }),
    {
        self.active_profile = profile.to_owned();
        proof {
            assert(final(self)@ =~= (StateView { active_profile: profile@, ..old(self)@ }));
        }
    }

    /// Moves navigation to the page that follows the active page in the
    /// active profile's cyclic order, and renders it.
    pub fn navigate_to_next_page(&mut self) -> (r: Result<MaterializedPage, NavigationError>)
        requires
            old(self).wf(),
        ensures
            final(self).wf(),
            frame_navigation(old(self)@, final(self)@),
            (final(self)@.nav_profile, final(self)@.nav_page) == spec_nav_after_page_step(
                old(self)@,
                true,
            ),
            spec_page_step_result(old(self)@, final(self)@, true, res_some(r)),
            match assoc_get(old(self)@.profiles, old(self)@.nav_profile) {
                None => r matches Err(NavigationError::NoProfile) && final(self)@ == old(self)@,
                Some(pr) => match spec_page_index(pr.manifest.pages_order, old(self)@.nav_page) {
                    None => r matches Err(NavigationError::NoPage) && final(self)@ == old(self)@,
                    Some(_) => {
                        &&& (final(self)@.nav_profile, final(self)@.nav_page)
                            == spec_nav_after_goto(
                            old(self)@,
                            old(self)@.nav_profile,
                            spec_cycle_next(pr.manifest.pages_order, old(self)@.nav_page),
                        )
                        &&& spec_navigate_result(
                            old(self)@,
                            final(self)@,
                            old(self)@.nav_profile,
                            spec_cycle_next(pr.manifest.pages_order, old(self)@.nav_page),
                            r,
                        )
                    },
                },
            },
            r matches Ok(mp) ==> (match final(self)@.spec_active_page() {
                Some((pr, pg)) => crate::state::render::spec_render_ok(
                    old(self)@,
                    final(self)@,
                    pr,
                    pg,
                    mp@,
                ),
                None => false,
            }),
    {
        self.navigate_page_offset(true)
    }

    /// Moves navigation to the page that precedes the active page in
    /// the active profile's cyclic order, and renders it.
    pub fn navigate_to_previous_page(&mut self) -> (r: Result<MaterializedPage, NavigationError>)
        requires
            old(self).wf(),
        ensures
            final(self).wf(),
            frame_navigation(old(self)@, final(self)@),
            (final(self)@.nav_profile, final(self)@.nav_page) == spec_nav_after_page_step(
                old(self)@,
                false,
            ),
            spec_page_step_result(old(self)@, final(self)@, false, res_some(r)),
            match assoc_get(old(self)@.profiles, old(self)@.nav_profile) {
                None => r matches Err(NavigationError::NoProfile) && final(self)@ == old(self)@,
                Some(pr) => match spec_page_index(pr.manifest.pages_order, old(self)@.nav_page) {
                    None => r matches Err(NavigationError::NoPage) && final(self)@ == old(self)@,
                    Some(_) => {
                        &&& (final(self)@.nav_profile, final(self)@.nav_page)
                            == spec_nav_after_goto(
                            old(self)@,
                            old(self)@.nav_profile,
                            spec_cycle_previous(pr.manifest.pages_order, old(self)@.nav_page),
                        )
                        &&& spec_navigate_result(
                            old(self)@,
                            final(self)@,
                            old(self)@.nav_profile,
                            spec_cycle_previous(pr.manifest.pages_order, old(self)@.nav_page),
                            r,
                        )
                    },
                },
            },
            r matches Ok(mp) ==> (match final(self)@.spec_active_page() {
                Some((pr, pg)) => crate::state::render::spec_render_ok(
                    old(self)@,
                    final(self)@,
                    pr,
                    pg,
                    mp@,
                ),
                None => false,
            }),
    {
        self.navigate_page_offset(false)
    }

    /// One cyclic step through the active profile's page order. A page
    /// standing outside the order cannot step: unlike a resolution
    /// failure inside `navigate_to`, that is reported as a page failure
    /// without moving.
    fn navigate_page_offset(&mut self, forward: bool) -> (r: Result<
        MaterializedPage,
        NavigationError,
    >)
        requires
            old(self).wf(),
        ensures
            final(self).wf(),
            frame_navigation(old(self)@, final(self)@),
            match assoc_get(old(self)@.profiles, old(self)@.nav_profile) {
                None => r matches Err(NavigationError::NoProfile) && final(self)@ == old(self)@,
                Some(pr) => match spec_page_index(pr.manifest.pages_order, old(self)@.nav_page) {
                    None => r matches Err(NavigationError::NoPage) && final(self)@ == old(self)@,
                    Some(_) => {
                        &&& (final(self)@.nav_profile, final(self)@.nav_page)
                            == spec_nav_after_goto(
                            old(self)@,
                            old(self)@.nav_profile,
                            if forward {
                                spec_cycle_next(pr.manifest.pages_order, old(self)@.nav_page)
                            } else {
                                spec_cycle_previous(pr.manifest.pages_order, old(self)@.nav_page)
                            },
                        )
                        &&& spec_navigate_result(
                            old(self)@,
                            final(self)@,
                            old(self)@.nav_profile,
                            if forward {
                                spec_cycle_next(pr.manifest.pages_order, old(self)@.nav_page)
                            } else {
                                spec_cycle_previous(pr.manifest.pages_order, old(self)@.nav_page)
                            },
                            r,
                        )
                    },
                },
            },
            r matches Ok(mp) ==> (match final(self)@.spec_active_page() {
                Some((pr, pg)) => crate::state::render::spec_render_ok(
                    old(self)@,
                    final(self)@,
                    pr,
                    pg,
                    mp@,
                ),
                None => false,
            }),
    {
        let (profile_name, page_name) = self.get_current_profile_and_page();
        let pr = match self.get_profile(profile_name.as_str()) {
            Ok(p) => p,
            Err(e) => {
                return Err(e);
            },
        };
        let idx = match pr.manifest.page_index(page_name.as_str()) {
            Some(i) => i,
            None => {
                return Err(NavigationError::NoPage);
            },
        };
        proof {
            lemma_page_index_characterization(pr@.manifest.pages_order, page_name@);
        }
        let len = pr.manifest.pages_order.len();
        let ni: usize = if forward {
            if idx + 1 == len {
                0
            } else {
                idx + 1
            }
        } else {
            if idx == 0 {
                len - 1
            } else {
                idx - 1
            }
        };
        let target = pr.manifest.pages_order[ni].clone();
        self.navigate_to(profile_name.as_str(), target.as_str())
    }
}

/// Law: a navigation request for any pair present in the loaded
/// configuration commits navigation exactly to that pair.
pub proof fn lemma_navigate_commits(s: StateView, profile: Seq<char>, page: Seq<char>)
    requires
        spec_resolves(s, profile, page),
    ensures
        spec_nav_after_goto(s, profile, page) == (profile, page),
{
}

/// Law: a profile request for an unknown name leaves navigation at the
/// default profile's default page, unless the default profile is
/// already active — then it moves nothing.
pub proof fn lemma_unknown_profile_falls_back(s: StateView, profile: Seq<char>)
    requires
        assoc_get(s.profiles, profile) is None,
        s.nav_profile != profile,
        spec_resolves(s, default_profile_spec(), default_page_spec()),
    ensures
        s.nav_profile == default_profile_spec() ==> spec_nav_after_goto_profile_or_default(
            s,
            profile,
        ) == (s.nav_profile, s.nav_page),
        s.nav_profile != default_profile_spec() ==> spec_nav_after_goto_profile_or_default(
            s,
            profile,
        ) == (default_profile_spec(), default_page_spec()),
{
}

/// Law: on the default profile with no memorized profile the home
/// toggle changes nothing, and since it changes nothing, a second
/// toggle right after changes nothing either.
pub proof fn lemma_toggle_home_idempotent(s: StateView)
    requires
        s.nav_profile == default_profile_spec(),
        s.active_profile == default_profile_spec(),
    ensures
        spec_toggle_home(s) == (s.nav_profile, s.nav_page, s.active_profile),
        spec_toggle_home(
            StateView {
                nav_profile: spec_toggle_home(s).0,
                nav_page: spec_toggle_home(s).1,
                active_profile: spec_toggle_home(s).2,
                ..s
            },
        ) == (s.nav_profile, s.nav_page, s.active_profile),
{
}

/// The page reached after `n` forward steps through the cyclic order.
pub open spec fn spec_cycle_next_n(order: Seq<Seq<char>>, page: Seq<char>, n: nat) -> Seq<char>
    decreases n,
{
    if n == 0 {
        page
    } else {
        spec_cycle_next_n(order, spec_cycle_next(order, page), (n - 1) as nat)
    }
}

/// The page reached after `n` backward steps through the cyclic order.
pub open spec fn spec_cycle_previous_n(order: Seq<Seq<char>>, page: Seq<char>, n: nat) -> Seq<char>
    decreases n,
{
    if n == 0 {
        page
    } else {
        spec_cycle_previous_n(order, spec_cycle_previous(order, page), (n - 1) as nat)
    }
}

proof fn lemma_page_index_of_member(order: Seq<Seq<char>>, j: int)
    requires
        order.no_duplicates(),
        0 <= j < order.len(),
    ensures
        spec_page_index(order, order[j]) == Some(j),
{
    crate::manifest::lemma_page_index_at(order, order[j], j);
}

proof fn lemma_cycle_next_steps(order: Seq<Seq<char>>, j: int, k: nat)
    requires
        order.no_duplicates(),
        0 <= j < order.len(),
        k <= order.len(),
    ensures
        spec_cycle_next_n(order, order[j], k) == order[
            if j + k < order.len() {
                j + k
            } else {
                j + k - order.len()
            }
        ],
    decreases k,
{
    if k == 0 {
    } else {
        lemma_page_index_of_member(order, j);
        let j2: int = if j + 1 == order.len() {
            0
        } else {
            j + 1
        };
        assert(spec_cycle_next(order, order[j]) == order[j2]);
        lemma_cycle_next_steps(order, j2, (k - 1) as nat);
    }
}

proof fn lemma_cycle_previous_steps(order: Seq<Seq<char>>, j: int, k: nat)
    requires
        order.no_duplicates(),
        0 <= j < order.len(),
        k <= order.len(),
    ensures
        spec_cycle_previous_n(order, order[j], k) == order[
            if j - k >= 0 {
                j - k
            } else {
                j - k + order.len()
            }
        ],
    decreases k,
{
    if k == 0 {
    } else {
        lemma_page_index_of_member(order, j);
        let j2: int = if j == 0 {
            order.len() - 1
        } else {
            j - 1
        };
        assert(spec_cycle_previous(order, order[j]) == order[j2]);
        lemma_cycle_previous_steps(order, j2, (k - 1) as nat);
    }
}

/// Law: in a page order without repeated names, as many forward steps
/// as the order has pages lead back to the starting page, from any
/// starting page of the order.
pub proof fn lemma_page_cycle_next(order: Seq<Seq<char>>, start: Seq<char>)
    requires
        order.no_duplicates(),
        order.contains(start),
    ensures
        spec_cycle_next_n(order, start, order.len() as nat) == start,
{
    let j = choose|j: int| 0 <= j < order.len() && order[j] == start;
    lemma_cycle_next_steps(order, j, order.len() as nat);
}

/// Law: in a page order without repeated names, as many backward steps
/// as the order has pages lead back to the starting page, from any
/// starting page of the order.
pub proof fn lemma_page_cycle_previous(order: Seq<Seq<char>>, start: Seq<char>)
    requires
        order.no_duplicates(),
        order.contains(start),
    ensures
        spec_cycle_previous_n(order, start, order.len() as nat) == start,
{
    let j = choose|j: int| 0 <= j < order.len() && order[j] == start;
    lemma_cycle_previous_steps(order, j, order.len() as nat);
}

/// The session after one cyclic page step, on the fields a step reads
/// and writes: navigation moves, everything else stands.
pub open spec fn spec_state_after_page_step(s: StateView, forward: bool) -> StateView {
    let nav = spec_nav_after_page_step(s, forward);
    StateView { nav_profile: nav.0, nav_page: nav.1, ..s }
}

/// The session after `n` cyclic page steps in one direction.
pub open spec fn spec_state_after_page_steps(s: StateView, forward: bool, n: nat) -> StateView
    decreases n,
{
    if n == 0 {
        s
    } else {
        spec_state_after_page_steps(spec_state_after_page_step(s, forward), forward, (n - 1) as nat)
    }
}

/// What the cycling laws ask of the active profile: its page order
/// repeats no name, every name in the order is a declared page, and the
/// active page is in the order.
pub open spec fn spec_cycle_ready(s: StateView) -> bool {
    match assoc_get(s.profiles, s.nav_profile) {
        None => false,
        Some(pr) => {
            &&& pr.manifest.pages_order.no_duplicates()
            &&& pr.manifest.pages_order.contains(s.nav_page)
            &&& forall|i: int|
                0 <= i < pr.manifest.pages_order.len() ==> assoc_get(
                    pr.manifest.pages,
                    #[trigger] pr.manifest.pages_order[i],
                ) is Some
        },
    }
}

proof fn lemma_page_step_follows_cycle(s: StateView, forward: bool)
    requires
        spec_cycle_ready(s),
    ensures
        ({
            let pr = assoc_get(s.profiles, s.nav_profile)->Some_0;
            let order = pr.manifest.pages_order;
            let s1 = spec_state_after_page_step(s, forward);
            &&& s1.nav_profile == s.nav_profile
            &&& s1.nav_page == if forward {
                spec_cycle_next(order, s.nav_page)
            } else {
                spec_cycle_previous(order, s.nav_page)
            }
            &&& order.contains(s1.nav_page)
            &&& spec_cycle_ready(s1)
        }),
{
    let pr = assoc_get(s.profiles, s.nav_profile)->Some_0;
    let order = pr.manifest.pages_order;
    let j = choose|j: int| 0 <= j < order.len() && order[j] == s.nav_page;
    lemma_page_index_of_member(order, j);
    let target = if forward {
        spec_cycle_next(order, s.nav_page)
    } else {
        spec_cycle_previous(order, s.nav_page)
    };
    // the adjacent page is itself a member of the order, so it is
    // declared and the step commits to it
    assert(order.contains(target));
    assert(spec_resolves(s, s.nav_profile, target));
}

proof fn lemma_page_steps_reach_cycle_n(s: StateView, forward: bool, n: nat)
    requires
        spec_cycle_ready(s),
    ensures
        ({
            let pr = assoc_get(s.profiles, s.nav_profile)->Some_0;
            let order = pr.manifest.pages_order;
            let sn = spec_state_after_page_steps(s, forward, n);
            &&& sn.nav_profile == s.nav_profile
            &&& sn.nav_page == if forward {
                spec_cycle_next_n(order, s.nav_page, n)
            } else {
                spec_cycle_previous_n(order, s.nav_page, n)
            }
            &&& spec_cycle_ready(sn)
        }),
    decreases n,
{
    if n == 0 {
    } else {
        lemma_page_step_follows_cycle(s, forward);
        lemma_page_steps_reach_cycle_n(
            spec_state_after_page_step(s, forward),
            forward,
            (n - 1) as nat,
        );
    }
}

/// Law: on a profile whose page order repeats no name and declares all
/// its pages, as many consecutive page steps as the order has pages —
/// in either direction — bring navigation back to the page it started
/// at.
pub proof fn lemma_page_steps_cycle_home(s: StateView, forward: bool)
    requires
        spec_cycle_ready(s),
    ensures
        ({
            let pr = assoc_get(s.profiles, s.nav_profile)->Some_0;
            let n = pr.manifest.pages_order.len() as nat;
            let sn = spec_state_after_page_steps(s, forward, n);
            sn.nav_profile == s.nav_profile && sn.nav_page == s.nav_page
        }),
{
    let pr = assoc_get(s.profiles, s.nav_profile)->Some_0;
    let order = pr.manifest.pages_order;
    lemma_page_steps_reach_cycle_n(s, forward, order.len() as nat);
    if forward {
        lemma_page_cycle_next(order, s.nav_page);
    } else {
        lemma_page_cycle_previous(order, s.nav_page);
    }
}

} // verus!
