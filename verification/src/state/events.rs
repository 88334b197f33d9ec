//! The event dispatcher: what one deck input event does to the session
//! and what it asks the outside loops to carry out. The loop that polls
//! the deck's input stream hands each event to
//! [`State::handle_device_update`] and performs the returned commands:
//! key injection, shell commands, brightness pushes and page writes.

use crate::key_combo::{KeyCombo, KeyComboView};
use crate::manifest::{Action, ActionView, EncoderActions, EncoderActionsView};
use crate::materialized_page::MaterializedPage;
use crate::state::navigation::{
    spec_nav_after_goto, spec_nav_after_page_step, spec_nav_render_owed, spec_page_step_result,
    spec_page_step_target, spec_resolves, spec_toggle_home, spec_toggle_result, NavigationError,
};
use crate::default_page_spec;
use crate::default_profile_spec;
use crate::state::render::{spec_adjust_brightness, spec_render_ok};
use crate::state::{State, StateView};
use crate::assoc_get;
use vstd::prelude::*;

verus! {

/// Reserved key index that steps to the previous page.
pub const KEY_PREVIOUS: u8 = 6;

/// Reserved key index that toggles between the default profile and the
/// memorized one.
pub const KEY_HOME: u8 = 7;

/// Reserved key index that steps to the next page.
pub const KEY_NEXT: u8 = 8;

/// Whether a key index is one of the reserved navigation keys.
pub open spec fn spec_is_nav_key(key: u8) -> bool {
    key == KEY_PREVIOUS || key == KEY_HOME || key == KEY_NEXT
}

/// One input event read from the deck.
#[derive(Clone, Copy, Debug, PartialEq, Eq, Structural)]
pub enum DeviceUpdate {
    /// A key was pressed down.
    ButtonDown(u8),
    /// A key was released.
    ButtonUp(u8),
    /// An encoder was turned; positive ticks are clockwise.
    EncoderTwist(u8, i8),
    /// An encoder was pressed down.
    EncoderDown(u8),
    /// An encoder was released.
    EncoderUp(u8),
}

/// Mathematical model of a [`SessionCommand`].
#[verifier::ext_equal]
pub enum SessionCommandView {
    Press(KeyComboView),
    Release(KeyComboView),
    Perform(KeyComboView),
    RunShell(Seq<char>),
    Render(Seq<Option<image::DynamicImage>>),
    PushBrightness(u8),
}

/// What the dispatcher asks the outside loops to carry out: hold a
/// combo down, let it go, stroke it once, run a shell command, write a
/// page layout to the deck, or push a brightness value to it.
pub enum SessionCommand {
    Press(KeyCombo),
    Release(KeyCombo),
    Perform(KeyCombo),
    RunShell(String),
    Render(MaterializedPage),
    PushBrightness(u8),
}

impl View for SessionCommand {
    type V = SessionCommandView;

    open spec fn view(&self) -> SessionCommandView {
        match self {
            SessionCommand::Press(c) => SessionCommandView::Press(c@),
            SessionCommand::Release(c) => SessionCommandView::Release(c@),
            SessionCommand::Perform(c) => SessionCommandView::Perform(c@),
            SessionCommand::RunShell(cmd) => SessionCommandView::RunShell(cmd@),
            SessionCommand::Render(mp) => SessionCommandView::Render(mp@),
            SessionCommand::PushBrightness(b) => SessionCommandView::PushBrightness(*b),
        }
    }
}

impl DeepView for SessionCommand {
    type V = SessionCommandView;

    open spec fn deep_view(&self) -> SessionCommandView {
        self@
    }
}

/// The action bound to a key on the session's active page, when the
/// page resolves and binds the key.
pub open spec fn spec_button_action(s: StateView, key: u8) -> Option<ActionView> {
    match s.spec_active_page() {
        None => None,
        Some((_, pg)) => match assoc_get(pg.buttons, key) {
            None => None,
            Some(b) => Some(b.action),
        },
    }
}

/// The bindings of an encoder of the session's active profile, when the
/// profile resolves and binds the encoder.
pub open spec fn spec_encoder_actions(s: StateView, dial: u8) -> Option<EncoderActionsView> {
    match s.spec_active_page() {
        None => None,
        Some((pr, _)) => assoc_get(pr.manifest.encoders, dial),
    }
}

/// How executing one action relates the session states and the commands
/// handed out: a combo action changes nothing and asks for one
/// injection, held down or stroked whole; a command action changes
/// nothing and asks the shell; a navigation action moves navigation
/// within the active profile and asks for a page write exactly when the
/// move rendered.
pub open spec fn spec_executed(
    s0: StateView,
    s1: StateView,
    act: ActionView,
    release: bool,
    cmds: Seq<SessionCommandView>,
) -> bool {
    match act {
        ActionView::Keys { keys } => s1 == s0 && cmds == seq![
            if release {
                SessionCommandView::Perform(keys)
            } else {
                SessionCommandView::Press(keys)
            },
        ],
        ActionView::Command { command } => s1 == s0 && cmds == seq![
            SessionCommandView::RunShell(command),
        ],
        ActionView::Navigate { navigate } => {
            &&& crate::state::frame_navigation(s0, s1)
            &&& (s1.nav_profile, s1.nav_page) == spec_nav_after_goto(s0, s0.nav_profile, navigate)
            &&& (!spec_resolves(s0, s0.nav_profile, navigate) ==> s1 == s0)
            &&& cmds.len() <= 1
            &&& (spec_nav_render_owed(s0, s0.nav_profile, navigate) ==> cmds.len() == 1)
            &&& (cmds.len() == 1 ==> (cmds[0] matches SessionCommandView::Render(mp) && (
            match s1.spec_active_page() {
                Some((pr, pg)) => spec_render_ok(s0, s1, pr, pg, mp),
                None => false,
            })))
        },
    }
}

/// How a reserved navigation key relates the session states and the
/// commands handed out: the step or toggle it stands for moves
/// navigation, brightness stays, and a page write is asked for exactly
/// when the move rendered.
pub open spec fn spec_nav_key_dispatched(
    s0: StateView,
    s1: StateView,
    key: u8,
    cmds: Seq<SessionCommandView>,
) -> bool {
    &&& s1.brightness == s0.brightness
    &&& (key == KEY_PREVIOUS ==> (s1.nav_profile, s1.nav_page) == spec_nav_after_page_step(
        s0,
        false,
    ) && s1.active_profile == s0.active_profile)
    &&& (key == KEY_NEXT ==> (s1.nav_profile, s1.nav_page) == spec_nav_after_page_step(s0, true)
        && s1.active_profile == s0.active_profile)
    &&& (key == KEY_HOME ==> (s1.nav_profile, s1.nav_page, s1.active_profile) == spec_toggle_home(
        s0,
    ))
    &&& cmds.len() <= 1
    &&& ((key == KEY_PREVIOUS || key == KEY_NEXT) ==> match spec_page_step_target(
        s0,
        key == KEY_NEXT,
    ) {
        None => cmds.len() == 0,
        Some(g) => spec_nav_render_owed(s0, s0.nav_profile, g) ==> cmds.len() == 1,
    })
    &&& ((key == KEY_HOME && s0.nav_profile != default_profile_spec() && spec_nav_render_owed(
        s0,
        default_profile_spec(),
        default_page_spec(),
    )) ==> cmds.len() == 1)
    &&& ((key == KEY_HOME && s0.nav_profile == default_profile_spec() && s0.active_profile
        != default_profile_spec() && assoc_get(s0.profiles, s0.active_profile) is Some
        && spec_nav_render_owed(s0, s0.active_profile, default_page_spec())) ==> cmds.len() == 1)
    &&& (cmds.len() == 1 ==> (cmds[0] matches SessionCommandView::Render(mp) && (
    match s1.spec_active_page() {
        Some((pr, pg)) => spec_render_ok(s0, s1, pr, pg, mp),
        None => false,
    })))
}

/// How one deck input event relates the session states and the commands
/// handed out: reserved keys navigate; other key-downs run the bound
/// action held; a key-up lets a bound combo go; an encoder tick runs
/// its direction's action stroked whole, except that the illumination
/// combo instead steps brightness by five and asks for a push to the
/// deck when one is connected; an encoder click runs its bound click
/// action; everything unbound changes nothing and asks for nothing.
pub open spec fn spec_dispatched(
    s0: StateView,
    s1: StateView,
    update: DeviceUpdate,
    cmds: Seq<SessionCommandView>,
) -> bool {
    match update {
        DeviceUpdate::ButtonDown(key) => {
            if spec_is_nav_key(key) {
                spec_nav_key_dispatched(s0, s1, key, cmds)
            } else {
                &&& s1.active_profile == s0.active_profile
                &&& s1.brightness == s0.brightness
                &&& match spec_button_action(s0, key) {
                    None => s1 == s0 && cmds.len() == 0,
                    Some(act) => spec_executed(s0, s1, act, false, cmds),
                }
            }
        },
        DeviceUpdate::ButtonUp(key) => s1 == s0 && (match spec_button_action(s0, key) {
            Some(ActionView::Keys { keys }) => cmds == seq![SessionCommandView::Release(keys)],
            _ => cmds.len() == 0,
        }),
        DeviceUpdate::EncoderTwist(dial, ticks) => match spec_encoder_actions(s0, dial) {
            None => s1 == s0 && cmds.len() == 0,
            Some(ea) => {
                let act = if ticks > 0 {
                    ea.plus
                } else {
                    ea.minus
                };
                if act matches ActionView::Keys { keys } && keys.spec_is_illumination() {
                    &&& s1 == (StateView {
                        brightness: spec_adjust_brightness(
                            s0.brightness,
                            if ticks > 0 {
                                5i8
                            } else {
                                -5i8
                            },
                        ),
                        ..s0
                    })
                    &&& cmds == if s0.device is Some {
                        seq![SessionCommandView::PushBrightness(s1.brightness)]
                    } else {
                        Seq::<SessionCommandView>::empty()
                    }
                } else {
                    spec_executed(s0, s1, act, true, cmds)
                }
            },
        },
        DeviceUpdate::EncoderDown(dial) => match spec_encoder_actions(s0, dial) {
            None => s1 == s0 && cmds.len() == 0,
            Some(ea) => match ea.click {
                None => s1 == s0 && cmds.len() == 0,
                Some(act) => spec_executed(s0, s1, act, true, cmds),
            },
        },
        DeviceUpdate::EncoderUp(_) => s1 == s0 && cmds.len() == 0,
    }
}

/// Law: an encoder tick whose resolved action is the illumination
/// combo steps brightness by exactly five in the tick's direction, and
/// never asks for key injection or a shell command — at most a
/// brightness push reaches the outside.
pub proof fn lemma_illumination_twist_steps_brightness(
    s0: StateView,
    s1: StateView,
    dial: u8,
    ticks: i8,
    cmds: Seq<SessionCommandView>,
)
    requires
        spec_dispatched(s0, s1, DeviceUpdate::EncoderTwist(dial, ticks), cmds),
        spec_encoder_actions(s0, dial) is Some,
        ({
            let ea = spec_encoder_actions(s0, dial)->Some_0;
            let act = if ticks > 0 {
                ea.plus
            } else {
                ea.minus
            };
            act matches ActionView::Keys { keys } && keys.spec_is_illumination()
        }),
    ensures
        s1.brightness == spec_adjust_brightness(
            s0.brightness,
            if ticks > 0 {
                5i8
            } else {
                -5i8
            },
        ),
        forall|i: int|
            0 <= i < cmds.len() ==> (#[trigger] cmds[i]) matches
                SessionCommandView::PushBrightness(_),
{
}

fn no_commands() -> (r: Vec<SessionCommand>)
    ensures
        r.deep_view() == Seq::<SessionCommandView>::empty(),
{
    let r: Vec<SessionCommand> = Vec::new();
    proof {
        assert(r.deep_view() =~= Seq::<SessionCommandView>::empty());
    }
    r
}

fn one_command(cmd: SessionCommand) -> (r: Vec<SessionCommand>)
    ensures
        r.deep_view() == seq![cmd@],
{
    let ghost cmdv = cmd@;
    let mut r: Vec<SessionCommand> = Vec::new();
    r.push(cmd);
    proof {
        assert(r.deep_view() =~= seq![cmdv]);
    }
    r
}

/// The outcome of offering a key to the navigation shortcuts.
pub enum NavigationOutcome {
    /// The key is not a navigation key; the session is untouched.
    NotNavigation,
    /// A navigation shortcut ran; the layout to write comes along when
    /// it rendered.
    Navigated(Option<MaterializedPage>),
}

/// A shortcut outcome recast as the navigation result it carries; the
/// not-a-navigation-key outcome carries no render, like a no-op.
pub open spec fn spec_outcome_result(r: Result<NavigationOutcome, NavigationError>) -> Result<
    Option<MaterializedPage>,
    NavigationError,
> {
    match r {
        Ok(NavigationOutcome::NotNavigation) => Ok(None),
        Ok(NavigationOutcome::Navigated(o)) => Ok(o),
        Err(e) => Err(e),
    }
}

impl State {
    /// Runs the navigation shortcut a reserved key stands for; any
    /// other key leaves the session untouched.
    pub fn handle_navigation_buttons(&mut self, key: u8) -> (r: Result<
        NavigationOutcome,
        NavigationError,
    >)
        requires
            old(self).wf(),
        ensures
            final(self).wf(),
            final(self)@.profiles == old(self)@.profiles,
            final(self)@.brightness == old(self)@.brightness,
            final(self)@.cache.capacity == old(self)@.cache.capacity,
            final(self)@.audio_output == old(self)@.audio_output,
            final(self)@.audio_input == old(self)@.audio_input,
            final(self)@.device == old(self)@.device,
            !spec_is_nav_key(key) ==> (final(self)@ == old(self)@ && (r matches Ok(
                NavigationOutcome::NotNavigation,
            ))),
            spec_is_nav_key(key) ==> !(r matches Ok(NavigationOutcome::NotNavigation)),
            key == KEY_PREVIOUS ==> ((final(self)@.nav_profile, final(self)@.nav_page)
                == spec_nav_after_page_step(old(self)@, false) && final(self)@.active_profile
                == old(self)@.active_profile),
            key == KEY_NEXT ==> ((final(self)@.nav_profile, final(self)@.nav_page)
                == spec_nav_after_page_step(old(self)@, true) && final(self)@.active_profile
                == old(self)@.active_profile),
            key == KEY_HOME ==> (
            final(self)@.nav_profile,
            final(self)@.nav_page,
            final(self)@.active_profile,
            ) == spec_toggle_home(old(self)@),
            key == KEY_PREVIOUS ==> spec_page_step_result(
                old(self)@,
                final(self)@,
                false,
                spec_outcome_result(r),
            ),
            key == KEY_NEXT ==> spec_page_step_result(
                old(self)@,
                final(self)@,
                true,
                spec_outcome_result(r),
            ),
            key == KEY_HOME ==> spec_toggle_result(old(self)@, final(self)@, spec_outcome_result(r)),
            r matches Ok(o) ==> (o matches NavigationOutcome::Navigated(p) ==> (p matches Some(mp)
                ==> (match final(self)@.spec_active_page() {
                Some((pr, pg)) => spec_render_ok(old(self)@, final(self)@, pr, pg, mp@),
                None => false,
            }))),
    {
        if key == KEY_PREVIOUS {
            match self.navigate_to_previous_page() {
                Ok(mp) => Ok(NavigationOutcome::Navigated(Some(mp))),
                Err(e) => Err(e),
            }
        } else if key == KEY_NEXT {
            match self.navigate_to_next_page() {
                Ok(mp) => Ok(NavigationOutcome::Navigated(Some(mp))),
                Err(e) => Err(e),
            }
        } else if key == KEY_HOME {
            match self.toggle_home() {
                Ok(o) => Ok(NavigationOutcome::Navigated(o)),
                Err(e) => Err(e),
            }
        } else {
            Ok(NavigationOutcome::NotNavigation)
        }
    }

    /// The action bound to a key on the active page, when there is one.
    pub fn get_button_action(&self, key: u8) -> (r: Option<Action>)
        ensures
            match spec_button_action(self@, key) {
                Some(a) => r matches Some(x) && x@ == a,
                None => r is None,
            },
    {
        match self.get_active_page() {
            None => None,
            Some((_profile, page)) => {
                match page.get_button(key) {
                    Some(b) => Some(b.action.clone()),
                    None => None,
                }
            },
        }
    }

    /// The bindings of an encoder of the active profile, when declared.
    pub fn get_encoder_actions(&self, dial: u8) -> (r: Option<EncoderActions>)
        ensures
            match spec_encoder_actions(self@, dial) {
                Some(ea) => r matches Some(x) && x@ == ea,
                None => r is None,
            },
    {
        match self.get_active_page() {
            None => None,
            Some((profile, _page)) => {
                match profile.manifest.get_encoder_actions(dial) {
                    Some(ea) => Some(ea.clone()),
                    None => None,
                }
            },
        }
    }

    /// Carries out one action: a combo is handed out to be held down,
    /// or stroked whole when `release` is set; a command line is handed
    /// to the shell; a navigation action moves within the active
    /// profile.
    pub fn execute_action(&mut self, action: Action, release: bool) -> (r: Vec<SessionCommand>)
        requires
            old(self).wf(),
        ensures
            final(self).wf(),
            spec_executed(old(self)@, final(self)@, action@, release, r.deep_view()),
    {
        match action {
            Action::Keys { keys } => {
                let cmd = if release {
                    SessionCommand::Perform(keys)
                } else {
                    SessionCommand::Press(keys)
                };
                let ghost cmdv = cmd@;
                let mut out: Vec<SessionCommand> = Vec::new();
                out.push(cmd);
                proof {
                    assert(out.deep_view() =~= seq![cmdv]);
                }
                out
            },
            Action::Command { command } => {
                let cmd = SessionCommand::RunShell(command);
                let ghost cmdv = cmd@;
                let mut out: Vec<SessionCommand> = Vec::new();
                out.push(cmd);
                proof {
                    assert(out.deep_view() =~= seq![cmdv]);
                }
                out
            },
            Action::Navigate { navigate } => {
                match self.navigate_to_page(navigate.as_str()) {
                    Ok(mp) => {
                        let cmd = SessionCommand::Render(mp);
                        let ghost cmdv = cmd@;
                        let mut out: Vec<SessionCommand> = Vec::new();
                        out.push(cmd);
                        proof {
                            assert(out.deep_view() =~= seq![cmdv]);
                        }
                        out
                    },
                    Err(_) => {
                        let out: Vec<SessionCommand> = Vec::new();
                        proof {
                            assert(out.deep_view() =~= Seq::<SessionCommandView>::empty());
                        }
                        out
                    },
                }
            },
        }
    }

    /// Dispatches one deck input event: navigation for the reserved
    /// keys, the bound action for other keys and for encoders, the
    /// brightness step for the illumination combo. The returned
    /// commands are what the outside loop must carry out, in order.
    pub fn handle_device_update(&mut self, update: &DeviceUpdate) -> (r: Vec<SessionCommand>)
        requires
            old(self).wf(),
        ensures
            final(self).wf(),
            final(self)@.profiles == old(self)@.profiles,
            final(self)@.audio_output == old(self)@.audio_output,
            final(self)@.audio_input == old(self)@.audio_input,
            final(self)@.device == old(self)@.device,
            final(self)@.cache.capacity == old(self)@.cache.capacity,
            spec_dispatched(old(self)@, final(self)@, *update, r.deep_view()),
    {
        match update {
            DeviceUpdate::ButtonDown(key) => {
                match self.handle_navigation_buttons(*key) {
                    Ok(NavigationOutcome::NotNavigation) => {
                        match self.get_button_action(*key) {
                            None => no_commands(),
                            Some(action) => self.execute_action(action, false),
                        }
                    },
                    Ok(NavigationOutcome::Navigated(Some(mp))) => one_command(
                        SessionCommand::Render(mp),
                    ),
                    Ok(NavigationOutcome::Navigated(None)) => no_commands(),
                    Err(_) => no_commands(),
                }
            },
            DeviceUpdate::ButtonUp(key) => {
                match self.get_button_action(*key) {
                    Some(Action::Keys { keys }) => one_command(SessionCommand::Release(keys)),
                    _ => no_commands(),
                }
            },
            DeviceUpdate::EncoderTwist(dial, ticks) => {
                match self.get_encoder_actions(*dial) {
                    None => no_commands(),
                    Some(ea) => {
                        let action = if *ticks > 0 {
                            ea.plus
                        } else {
                            ea.minus
                        };
                        let is_illumination = match &action {
                            Action::Keys { keys } => keys.is_illumination(),
                            _ => false,
                        };
                        if is_illumination {
                            let delta: i8 = if *ticks > 0 {
                                5
                            } else {
                                -5
                            };
                            match self.set_brightness(delta) {
                                Ok(b) => one_command(SessionCommand::PushBrightness(b)),
                                Err(_) => no_commands(),
                            }
                        } else {
                            self.execute_action(action, true)
                        }
                    },
                }
            },
            DeviceUpdate::EncoderDown(dial) => {
                match self.get_encoder_actions(*dial) {
                    None => no_commands(),
                    Some(ea) => {
                        match ea.click {
                            Some(action) => self.execute_action(action, true),
                            None => no_commands(),
                        }
                    },
                }
            },
            DeviceUpdate::EncoderUp(_) => no_commands(),
        }
    }
}

} // verus!
