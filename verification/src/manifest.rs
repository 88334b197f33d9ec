//! Profile manifest data model: device kinds, actions, buttons, pages.

use crate::images::{ButtonImage, ButtonImageView};
use crate::key_combo::{KeyCombo, KeyComboView};
use crate::{assoc_get, lemma_assoc_get_at, str_eq, unique_keys};
use vstd::prelude::*;

verus! {

/// The deck models this library drives. A manifest names one of these;
/// an unknown name is rejected at load time as a configuration error.
#[derive(Clone, Copy, Debug, PartialEq, Eq, Structural)]
pub enum DeviceKind {
    Akp03,
    Akp03E,
    Akp03R,
    Akp03RRev2,
    Akp153,
    Akp153E,
    Akp153R,
}

impl DeviceKind {
    /// Number of physical keys the deck reports, screen keys and the
    /// touch row together.
    pub fn key_count(&self) -> (n: u8)
        ensures
            n == self.spec_key_count(),
    {
        match self {
            DeviceKind::Akp03 | DeviceKind::Akp03E | DeviceKind::Akp03R
            | DeviceKind::Akp03RRev2 => 9,
            DeviceKind::Akp153 | DeviceKind::Akp153E | DeviceKind::Akp153R => 18,
        }
    }

    /// Number of keys that carry a small display of their own.
    pub fn display_key_count(&self) -> (n: u8)
        ensures
            n == self.spec_display_key_count(),
    {
        match self {
            DeviceKind::Akp03 | DeviceKind::Akp03E | DeviceKind::Akp03R
            | DeviceKind::Akp03RRev2 => 6,
            DeviceKind::Akp153 | DeviceKind::Akp153E | DeviceKind::Akp153R => 18,
        }
    }

    pub open spec fn spec_key_count(&self) -> u8 {
        match self {
            DeviceKind::Akp03 | DeviceKind::Akp03E | DeviceKind::Akp03R
            | DeviceKind::Akp03RRev2 => 9,
            DeviceKind::Akp153 | DeviceKind::Akp153E | DeviceKind::Akp153R => 18,
        }
    }

    pub open spec fn spec_display_key_count(&self) -> u8 {
        match self {
            DeviceKind::Akp03 | DeviceKind::Akp03E | DeviceKind::Akp03R
            | DeviceKind::Akp03RRev2 => 6,
            DeviceKind::Akp153 | DeviceKind::Akp153E | DeviceKind::Akp153R => 18,
        }
    }
}

/// Which device kind a manifest's device name stands for, or `None` when
/// the name is not one of the supported decks.
pub open spec fn spec_device_kind_of_name(s: Seq<char>) -> Option<DeviceKind> {
    if s == "akp03"@ {
        Some(DeviceKind::Akp03)
    } else if s == "akp03e"@ {
        Some(DeviceKind::Akp03E)
    } else if s == "akp03r"@ {
        Some(DeviceKind::Akp03R)
    } else if s == "akp03r_rev2"@ {
        Some(DeviceKind::Akp03RRev2)
    } else if s == "akp153"@ {
        Some(DeviceKind::Akp153)
    } else if s == "akp153e"@ {
        Some(DeviceKind::Akp153E)
    } else if s == "akp153r"@ {
        Some(DeviceKind::Akp153R)
    } else {
        None
    }
}

impl DeviceKind {
    /// Validates a manifest's device name. An unrecognized name yields
    /// `None`; loading code turns that into a typed configuration error
    /// instead of aborting.
    pub fn from_device_name(name: &str) -> (r: Option<DeviceKind>)
        ensures
            r == spec_device_kind_of_name(name@),
    {
        if str_eq(name, "akp03") {
            Some(DeviceKind::Akp03)
        } else if str_eq(name, "akp03e") {
            Some(DeviceKind::Akp03E)
        } else if str_eq(name, "akp03r") {
            Some(DeviceKind::Akp03R)
        } else if str_eq(name, "akp03r_rev2") {
            Some(DeviceKind::Akp03RRev2)
        } else if str_eq(name, "akp153") {
            Some(DeviceKind::Akp153)
        } else if str_eq(name, "akp153e") {
            Some(DeviceKind::Akp153E)
        } else if str_eq(name, "akp153r") {
            Some(DeviceKind::Akp153R)
        } else {
            None
        }
    }
}

/// Mathematical model of an [`Action`].
#[verifier::ext_equal]
pub enum ActionView {
    Keys { keys: KeyComboView },
    Command { command: Seq<char> },
    Navigate { navigate: Seq<char> },
}

/// What a button press or encoder tick does: simulate a key combo, run a
/// shell command, or switch the active page.
#[derive(Debug)]
pub enum Action {
    /// A key combination to simulate.
    Keys { keys: KeyCombo },
    /// A command line to hand to the shell.
    Command { command: String },
    /// The name of a page of the active profile to show.
    Navigate { navigate: String },
}

impl View for Action {
    type V = ActionView;

    open spec fn view(&self) -> ActionView {
        match self {
            Action::Keys { keys } => ActionView::Keys { keys: keys@ },
            Action::Command { command } => ActionView::Command { command: command@ },
            Action::Navigate { navigate } => ActionView::Navigate { navigate: navigate@ },
        }
    }
}

impl Clone for Action {
    fn clone(&self) -> (r: Self)
        ensures
            r@ == self@,
    {
        match self {
            Action::Keys { keys } => Action::Keys { keys: keys.clone() },
            Action::Command { command } => Action::Command { command: command.clone() },
            Action::Navigate { navigate } => Action::Navigate { navigate: navigate.clone() },
        }
    }
}

/// Mathematical model of [`EncoderActions`].
#[verifier::ext_equal]
pub struct EncoderActionsView {
    pub plus: ActionView,
    pub minus: ActionView,
    pub click: Option<ActionView>,
}

/// The bindings of one rotary encoder.
#[derive(Debug)]
pub struct EncoderActions {
    /// Performed on a clockwise tick.
    pub plus: Action,
    /// Performed on a counterclockwise tick.
    pub minus: Action,
    /// Performed on a click, when bound.
    pub click: Option<Action>,
}

impl View for EncoderActions {
    type V = EncoderActionsView;

    open spec fn view(&self) -> EncoderActionsView {
        EncoderActionsView {
            plus: self.plus@,
            minus: self.minus@,
            click: match self.click {
                Some(a) => Some(a@),
                None => None,
            },
        }
    }
}

impl Clone for EncoderActions {
    fn clone(&self) -> (r: Self)
        ensures
            r@ == self@,
    {
        EncoderActions {
            plus: self.plus.clone(),
            minus: self.minus.clone(),
            click: match &self.click {
                Some(a) => Some(a.clone()),
                None => None,
            },
        }
    }
}

/// Mathematical model of a [`Button`].
#[verifier::ext_equal]
pub struct ButtonView {
    pub image: ButtonImageView,
    pub action: ActionView,
}

/// One screen button: its image and the action it performs.
#[derive(Debug)]
pub struct Button {
    /// The image shown on the button.
    pub image: ButtonImage,
    /// The action performed when the button is pressed.
    pub action: Action,
}

impl View for Button {
    type V = ButtonView;

    open spec fn view(&self) -> ButtonView {
        ButtonView { image: self.image@, action: self.action@ }
    }
}

impl Clone for Button {
    fn clone(&self) -> (r: Self)
        ensures
            r@ == self@,
    {
        Button { image: self.image.clone(), action: self.action.clone() }
    }
}

/// Mathematical model of a [`Page`].
#[verifier::ext_equal]
pub struct PageView {
    pub buttons: Seq<(u8, ButtonView)>,
}

impl PageView {
    /// A well-formed page binds each slot index at most once, and only
    /// single-digit indices, as the manifest format allows.
    pub open spec fn wf(&self) -> bool {
        unique_keys(self.buttons) && forall|i: int|
            0 <= i < self.buttons.len() ==> self.buttons[i].0 < 10
    }
}

/// One page of a profile: buttons keyed by their physical slot index.
#[derive(Debug)]
pub struct Page {
    /// The buttons the page binds, keyed by slot index.
    pub buttons: Vec<(u8, Button)>,
}

/// The deep view of a slot-indexed button list.
pub open spec fn buttons_view(entries: Seq<(u8, Button)>) -> Seq<(u8, ButtonView)> {
    entries.map_values(|e: (u8, Button)| (e.0, e.1@))
}

impl View for Page {
    type V = PageView;

    open spec fn view(&self) -> PageView {
        PageView { buttons: buttons_view(self.buttons@) }
    }
}

impl Clone for Page {
    fn clone(&self) -> (r: Self)
        ensures
            r@ == self@,
    {
        let mut buttons: Vec<(u8, Button)> = Vec::new();
        let n = self.buttons.len();
        let mut i: usize = 0;
        while i < n
            invariant
                0 <= i <= n == self.buttons@.len(),
                buttons@.len() == i,
                forall|j: int|
                    0 <= j < i ==> buttons@[j].0 == self.buttons@[j].0 && buttons@[j].1@
                        == self.buttons@[j].1@,
            decreases n - i,
        {
            let e = &self.buttons[i];
            buttons.push((e.0, e.1.clone()));
            i = i + 1;
        }
        let r = Page { buttons };
        proof {
            assert(r@.buttons =~= self@.buttons);
        }
        r
    }
}

impl Page {
    /// The button bound to a physical key index, when one is.
    pub fn get_button(&self, index: u8) -> (r: Option<&Button>)
        ensures
            match r {
                Some(b) => assoc_get(self@.buttons, index) == Some(b@),
                None => assoc_get(self@.buttons, index) is None,
            },
    {
        let n = self.buttons.len();
        let mut i: usize = 0;
        while i < n
            invariant
                0 <= i <= n == self.buttons@.len(),
                forall|j: int| 0 <= j < i ==> self@.buttons[j].0 != index,
            decreases n - i,
        {
            if self.buttons[i].0 == index {
                proof {
                    lemma_assoc_get_at(self@.buttons, index, i as int);
                }
                return Some(&self.buttons[i].1);
            }
            i = i + 1;
        }
        proof {
            lemma_assoc_get_at(self@.buttons, index, n as int);
        }
        None
    }

    /// The page's buttons laid out slot by slot: entry `i` holds the
    /// button bound to slot `i`, or nothing when the slot is free.
    pub fn iter_buttons(&self, count: usize) -> (r: Vec<Option<&Button>>)
        requires
            count <= 256,
        ensures
            r@.len() == count,
            forall|i: int|
                0 <= i < count ==> match #[trigger] r@[i] {
                    Some(b) => assoc_get(self@.buttons, i as u8) == Some(b@),
                    None => assoc_get(self@.buttons, i as u8) is None,
                },
    {
        let mut r: Vec<Option<&Button>> = Vec::new();
        let mut i: usize = 0;
        while i < count
            invariant
                0 <= i <= count <= 256,
                r@.len() == i,
                forall|j: int|
                    0 <= j < i ==> match #[trigger] r@[j] {
                        Some(b) => assoc_get(self@.buttons, j as u8) == Some(b@),
                        None => assoc_get(self@.buttons, j as u8) is None,
                    },
            decreases count - i,
        {
            r.push(self.get_button(i as u8));
            i = i + 1;
        }
        r
    }
}

/// The position of a page name in a profile's page order.
pub open spec fn spec_page_index(order: Seq<Seq<char>>, name: Seq<char>) -> Option<int>
    decreases order.len(),
{
    if order.len() == 0 {
        None
    } else if order[0] == name {
        Some(0)
    } else {
        match spec_page_index(order.skip(1), name) {
            None => None,
            Some(i) => Some(i + 1),
        }
    }
}

/// What [`spec_page_index`] finding a position means: the name stands
/// there and nowhere earlier.
pub proof fn lemma_page_index_characterization(order: Seq<Seq<char>>, name: Seq<char>)
    ensures
        match spec_page_index(order, name) {
            Some(i) => 0 <= i < order.len() && order[i] == name && forall|j: int|
                0 <= j < i ==> order[j] != name,
            None => forall|j: int| 0 <= j < order.len() ==> order[j] != name,
        },
    decreases order.len(),
{
    if order.len() == 0 {
    } else if order[0] == name {
    } else {
        let t = order.skip(1);
        lemma_page_index_characterization(t, name);
        assert forall|j: int| 1 <= j < order.len() implies order[j] == t[j - 1] by {}
        match spec_page_index(t, name) {
            Some(i) => {
                assert forall|j: int| 0 <= j < i + 1 implies order[j] != name by {
                    if j > 0 {
                        assert(order[j] == t[j - 1]);
                    }
                }
            },
            None => {},
        }
    }
}

pub proof fn lemma_page_index_at(order: Seq<Seq<char>>, name: Seq<char>, i: int)
    requires
        0 <= i <= order.len(),
        forall|j: int| 0 <= j < i ==> order[j] != name,
        i < order.len() ==> order[i] == name,
    ensures
        i < order.len() ==> spec_page_index(order, name) == Some(i),
        i == order.len() ==> spec_page_index(order, name) is None,
    decreases i,
{
    if order.len() == 0 {
    } else if i == 0 {
    } else {
        let t = order.skip(1);
        assert forall|j: int| 0 <= j < i - 1 implies t[j] != name by {
            assert(t[j] == order[j + 1]);
        }
        if i < order.len() {
            assert(t[i - 1] == order[i]);
        }
        lemma_page_index_at(t, name, i - 1);
    }
}

/// Mathematical model of a [`Manifest`].
#[verifier::ext_equal]
pub struct ManifestView {
    pub pages_order: Seq<Seq<char>>,
    pub device: DeviceKind,
    pub pages: Seq<(Seq<char>, PageView)>,
    pub encoders: Seq<(u8, EncoderActionsView)>,
}

impl ManifestView {
    /// A well-formed manifest names each page and each encoder at most
    /// once, binds only the single-digit encoder indices the format
    /// allows, and holds only well-formed pages.
    pub open spec fn wf(&self) -> bool {
        &&& unique_keys(self.pages)
        &&& unique_keys(self.encoders)
        &&& forall|i: int| 0 <= i < self.encoders.len() ==> self.encoders[i].0 < 10
        &&& forall|i: int| 0 <= i < self.pages.len() ==> (#[trigger] self.pages[i].1).wf()
    }
}

/// A profile's declaration: its deck kind, its pages, the cyclic order
/// they are traversed in, and its encoder bindings.
#[derive(Debug)]
pub struct Manifest {
    /// Page names in traversal order.
    pub pages_order: Vec<String>,
    /// The deck kind the profile is laid out for.
    pub device: DeviceKind,
    /// Pages keyed by name.
    pub pages: Vec<(String, Page)>,
    /// Encoder bindings keyed by encoder index.
    pub encoders: Vec<(u8, EncoderActions)>,
}

/// The deep view of a name-keyed page list.
pub open spec fn pages_view(entries: Seq<(String, Page)>) -> Seq<(Seq<char>, PageView)> {
    entries.map_values(|e: (String, Page)| (e.0@, e.1@))
}

/// The deep view of an index-keyed encoder list.
pub open spec fn encoders_view(entries: Seq<(u8, EncoderActions)>) -> Seq<(
    u8,
    EncoderActionsView,
)> {
    entries.map_values(|e: (u8, EncoderActions)| (e.0, e.1@))
}

impl View for Manifest {
    type V = ManifestView;

    open spec fn view(&self) -> ManifestView {
        ManifestView {
            pages_order: self.pages_order.deep_view(),
            device: self.device,
            pages: pages_view(self.pages@),
            encoders: encoders_view(self.encoders@),
        }
    }
}

impl Clone for Manifest {
    fn clone(&self) -> (r: Self)
        ensures
            r@ == self@,
    {
        let mut pages_order: Vec<String> = Vec::new();
        let n = self.pages_order.len();
        let mut i: usize = 0;
        while i < n
            invariant
                0 <= i <= n == self.pages_order@.len(),
                pages_order@.len() == i,
                forall|j: int| 0 <= j < i ==> pages_order@[j]@ == self.pages_order@[j]@,
            decreases n - i,
        {
            pages_order.push(self.pages_order[i].clone());
            i = i + 1;
        }
        let mut pages: Vec<(String, Page)> = Vec::new();
        let n = self.pages.len();
        let mut i: usize = 0;
        while i < n
            invariant
                0 <= i <= n == self.pages@.len(),
                pages@.len() == i,
                forall|j: int|
                    0 <= j < i ==> pages@[j].0@ == self.pages@[j].0@ && pages@[j].1@
                        == self.pages@[j].1@,
            decreases n - i,
        {
            let e = &self.pages[i];
            pages.push((e.0.clone(), e.1.clone()));
            i = i + 1;
        }
        let mut encoders: Vec<(u8, EncoderActions)> = Vec::new();
        let n = self.encoders.len();
        let mut i: usize = 0;
        while i < n
            invariant
                0 <= i <= n == self.encoders@.len(),
                encoders@.len() == i,
                forall|j: int|
                    0 <= j < i ==> encoders@[j].0 == self.encoders@[j].0 && encoders@[j].1@
                        == self.encoders@[j].1@,
            decreases n - i,
        {
            let e = &self.encoders[i];
            encoders.push((e.0, e.1.clone()));
            i = i + 1;
        }
        let r = Manifest { pages_order, device: self.device, pages, encoders };
        proof {
            assert(r@.pages_order =~= self@.pages_order);
            assert(r@.pages =~= self@.pages);
            assert(r@.encoders =~= self@.encoders);
        }
        r
    }
}

impl Manifest {
    /// The page declared under a name, when one is.
    pub fn get_page(&self, name: &str) -> (r: Option<&Page>)
        ensures
            match r {
                Some(p) => assoc_get(self@.pages, name@) == Some(p@),
                None => assoc_get(self@.pages, name@) is None,
            },
    {
        let n = self.pages.len();
        let mut i: usize = 0;
        while i < n
            invariant
                0 <= i <= n == self.pages@.len(),
                forall|j: int| 0 <= j < i ==> self@.pages[j].0 != name@,
            decreases n - i,
        {
            if str_eq(self.pages[i].0.as_str(), name) {
                proof {
                    lemma_assoc_get_at(self@.pages, name@, i as int);
                }
                return Some(&self.pages[i].1);
            }
            i = i + 1;
        }
        proof {
            lemma_assoc_get_at(self@.pages, name@, n as int);
        }
        None
    }

    /// The bindings of an encoder index, when any are declared.
    pub fn get_encoder_actions(&self, index: u8) -> (r: Option<&EncoderActions>)
        ensures
            match r {
                Some(a) => assoc_get(self@.encoders, index) == Some(a@),
                None => assoc_get(self@.encoders, index) is None,
            },
    {
        let n = self.encoders.len();
        let mut i: usize = 0;
        while i < n
            invariant
                0 <= i <= n == self.encoders@.len(),
                forall|j: int| 0 <= j < i ==> self@.encoders[j].0 != index,
            decreases n - i,
        {
            if self.encoders[i].0 == index {
                proof {
                    lemma_assoc_get_at(self@.encoders, index, i as int);
                }
                return Some(&self.encoders[i].1);
            }
            i = i + 1;
        }
        proof {
            lemma_assoc_get_at(self@.encoders, index, n as int);
        }
        None
    }

    /// The position of a page name in the traversal order, when the name
    /// occurs in it.
    pub fn page_index(&self, name: &str) -> (r: Option<usize>)
        ensures
            match r {
                Some(i) => spec_page_index(self@.pages_order, name@) == Some(i as int),
                None => spec_page_index(self@.pages_order, name@) is None,
            },
    {
        let n = self.pages_order.len();
        let mut i: usize = 0;
        while i < n
            invariant
                0 <= i <= n == self.pages_order@.len(),
                forall|j: int| 0 <= j < i ==> self@.pages_order[j] != name@,
            decreases n - i,
        {
            if str_eq(self.pages_order[i].as_str(), name) {
                proof {
                    lemma_page_index_at(self@.pages_order, name@, i as int);
                }
                return Some(i);
            }
            i = i + 1;
        }
        proof {
            lemma_page_index_at(self@.pages_order, name@, n as int);
        }
        None
    }

    /// The deck kind the profile is laid out for.
    pub fn kind(&self) -> (r: DeviceKind)
        ensures
            r == self@.device,
    {
        self.device
    }
}

} // verus!
