//! The activity bridge: how one OS activity event moves the session. A
//! foreground-application change retargets navigation with the default
//! profile as fallback and resets the home-toggle memory; an audio
//! device change records the new name and re-renders the active page,
//! whose imagery may depend on it.

use crate::activity::{Event, EventView};
use crate::materialized_page::MaterializedPage;
use crate::state::navigation::{
    spec_nav_after_goto_profile_or_default, spec_navigate_result_some, NavigationError,
};
use crate::state::render::{spec_render_err, spec_render_ok, RenderError};
use crate::state::{State, StateView};
use crate::{assoc_get, default_profile_spec, str_eq};
use vstd::prelude::*;

verus! {

/// What an audio device change leaves behind: the recorded name is
/// replaced, navigation and the rest stand, and the result mirrors a
/// render of the active page under the new name, `s1` the state right
/// after the name was recorded and `s2` the state left behind.
pub open spec fn spec_audio_changed(
    s1: StateView,
    s2: StateView,
    r: Result<Option<MaterializedPage>, NavigationError>,
) -> bool {
    match r {
        Ok(o) => o matches Some(mp) && (match s1.spec_active_page() {
            Some((pr, pg)) => spec_render_ok(s1, s2, pr, pg, mp@),
            None => false,
        }),
        Err(e) => e matches NavigationError::RenderError(re) && (match s1.spec_active_page() {
            None => re matches RenderError::NoActivePage,
            Some((pr, pg)) => spec_render_err(s1, pr, pg, re),
        }),
    }
}

impl State {
    /// Applies one OS activity event to the session and hands back the
    /// page layout to write when the event led to a render.
    pub fn handle_activity_event(&mut self, event: &Event) -> (r: Result<
        Option<MaterializedPage>,
        NavigationError,
    >)
        requires
            old(self).wf(),
        ensures
            final(self).wf(),
            final(self)@.profiles == old(self)@.profiles,
            final(self)@.brightness == old(self)@.brightness,
            final(self)@.device == old(self)@.device,
            final(self)@.cache.capacity == old(self)@.cache.capacity,
            match event@ {
                EventView::AppChange(id) => {
                    &&& final(self)@.audio_output == old(self)@.audio_output
                    &&& final(self)@.audio_input == old(self)@.audio_input
                    &&& (old(self)@.nav_profile == id ==> final(self)@ == old(self)@ && (
                    r matches Ok(o) && o is None))
                    &&& (old(self)@.nav_profile != id ==> {
                        let s2 = StateView {
                            active_profile: default_profile_spec(),
                            ..old(self)@
                        };
                        &&& final(self)@.active_profile == default_profile_spec()
                        &&& (final(self)@.nav_profile, final(self)@.nav_page)
                            == spec_nav_after_goto_profile_or_default(s2, id)
                    })
                    &&& (old(self)@.nav_profile != id ==> match assoc_get(
                        old(self)@.profiles,
                        id,
                    ) {
                        Some(_) => spec_navigate_result_some(
                            old(self)@,
                            final(self)@,
                            id,
                            crate::default_page_spec(),
                            r,
                        ),
                        None => {
                            &&& (old(self)@.nav_profile != default_profile_spec()
                                ==> spec_navigate_result_some(
                                old(self)@,
                                final(self)@,
                                default_profile_spec(),
                                crate::default_page_spec(),
                                r,
                            ))
                            &&& (old(self)@.nav_profile == default_profile_spec() ==> (
                            r matches Ok(o) && o is None))
                        },
                    })
                    &&& (r matches Ok(o) ==> (o matches Some(mp) ==> (
                    match final(self)@.spec_active_page() {
                        Some((pr, pg)) => spec_render_ok(old(self)@, final(self)@, pr, pg, mp@),
                        None => false,
                    })))
                },
                EventView::AudioOutputChange(name) => {
                    &&& final(self)@ == (StateView {
                        audio_output: name,
                        cache: final(self)@.cache,
                        ..old(self)@
                    })
                    &&& spec_audio_changed(
                        (StateView { audio_output: name, ..old(self)@ }),
                        final(self)@,
                        r,
                    )
                },
                EventView::AudioInputChange(name) => {
                    &&& final(self)@ == (StateView {
                        audio_input: name,
                        cache: final(self)@.cache,
                        ..old(self)@
                    })
                    &&& spec_audio_changed(
                        (StateView { audio_input: name, ..old(self)@ }),
                        final(self)@,
                        r,
                    )
                },
            },
    {
        match event {
            Event::AppChange(bundle_id) => {
                let current = self.get_current_profile_and_page().0;
                if str_eq(current.as_str(), bundle_id.as_str()) {
                    return Ok(None);
                }
                self.reset_active_profile();
                self.navigate_to_profile_or_default(bundle_id.as_str())
            },
            Event::AudioOutputChange(name) => {
                self.set_audio_output_device(name.as_str());
                match self.render_active_page() {
                    Ok(mp) => Ok(Some(mp)),
                    Err(re) => Err(NavigationError::RenderError(re)),
                }
            },
            Event::AudioInputChange(name) => {
                self.set_audio_input_device(name.as_str());
                match self.render_active_page() {
                    Ok(mp) => Ok(Some(mp)),
                    Err(re) => Err(NavigationError::RenderError(re)),
                }
            },
        }
    }

    /// Points the home-toggle memory back at the default profile.
    fn reset_active_profile(&mut self)
        ensures
            final(self)@ == (StateView {
                active_profile: default_profile_spec(),
                ..old(self)@
            }),
    {
        self.active_profile = crate::default_profile().to_owned();
        proof {
            assert(final(self)@ =~= (StateView {
                active_profile: default_profile_spec(),
                ..old(self)@
            }));
        }
    }
}

} // verus!
