//! The render pipeline: resolving a page's button images through the
//! cache and shaping what is written to the deck. The device writes
//! themselves happen outside the library; a successful render hands the
//! caller the materialized page to write, already checked against the
//! connected deck's key count.

use crate::images::{
    lemma_cache_hit_preserves_bindings, spec_button_image_source, spec_cache_insert,
    spec_join_path, ButtonImage, ButtonImageView, ImageCacheView, ImageError,
};
use crate::manifest::{Page, PageView};
use crate::materialized_page::MaterializedPage;
use crate::profile::{Profile, ProfileView};
use crate::state::{State, StateView};
use crate::assoc_get;
use vstd::prelude::*;

verus! {

/// How rendering a page can fail.
#[derive(Debug)]
pub enum RenderError {
    /// No deck is connected.
    NoDevice,
    /// The page holds more slots than the connected deck has keys;
    /// carries the deck's key count, the first slot that does not fit.
    ButtonIndexOutOfBounds(usize),
    /// The navigation names resolve to no profile or page.
    NoActivePage,
    /// A button's image could not be resolved or decoded.
    ImageSourceError(ImageError),
}

/// Whether two session states agree on everything except the image
/// cache's entries: what rendering may touch, and nothing else.
pub open spec fn frame_render(a: StateView, b: StateView) -> bool {
    &&& b == (StateView { cache: b.cache, ..a })
    &&& b.cache.capacity == a.cache.capacity
}

/// One slot's share of a materialization, between two cache states: a
/// free slot loads nothing and leaves the cache alone; a bound slot
/// holds some bitmap that was inserted under the slot's resolved cache
/// key — and where that key was already cached, the bitmap is the
/// cached one, not a fresh decode.
pub open spec fn spec_slot_loaded(
    profile: ProfileView,
    page: PageView,
    audio_in: Seq<char>,
    audio_out: Seq<char>,
    before: ImageCacheView,
    after: ImageCacheView,
    slot: Option<image::DynamicImage>,
    i: int,
) -> bool {
    match assoc_get(page.buttons, i as u8) {
        None => slot is None && after == before,
        Some(b) => match spec_button_image_source(b.image, audio_in, audio_out) {
            None => false,
            Some(rel) => {
                let key = spec_join_path(profile.path, rel);
                &&& slot matches Some(img) && after == spec_cache_insert(before, key, img) && (
                match assoc_get(before.entries, key) {
                    Some(cached) => img == cached,
                    None => true,
                })
            },
        },
    }
}

/// The first `n` slots of a materialization, threaded through the cache
/// in index order: some chain of intermediate cache states joins `c0`
/// to `c1`, one [`spec_slot_loaded`] step per slot.
pub open spec fn spec_loaded_through_cache(
    profile: ProfileView,
    page: PageView,
    audio_in: Seq<char>,
    audio_out: Seq<char>,
    c0: ImageCacheView,
    c1: ImageCacheView,
    mp: Seq<Option<image::DynamicImage>>,
    n: int,
) -> bool
    decreases n,
{
    if n <= 0 {
        c1 == c0
    } else {
        exists|mid: ImageCacheView|
            {
                &&& #[trigger] spec_slot_loaded(
                    profile,
                    page,
                    audio_in,
                    audio_out,
                    mid,
                    c1,
                    mp[n - 1],
                    n - 1,
                )
                &&& spec_loaded_through_cache(profile, page, audio_in, audio_out, c0, mid, mp, n - 1)
            }
    }
}

/// One more slot extends the chain.
proof fn lemma_loaded_through_cache_step(
    profile: ProfileView,
    page: PageView,
    audio_in: Seq<char>,
    audio_out: Seq<char>,
    c0: ImageCacheView,
    mid: ImageCacheView,
    c1: ImageCacheView,
    mp: Seq<Option<image::DynamicImage>>,
    n: int,
)
    requires
        n >= 0,
        spec_loaded_through_cache(profile, page, audio_in, audio_out, c0, mid, mp, n),
        spec_slot_loaded(profile, page, audio_in, audio_out, mid, c1, mp[n], n),
    ensures
        spec_loaded_through_cache(profile, page, audio_in, audio_out, c0, c1, mp, n + 1),
{
    assert(spec_slot_loaded(
        profile,
        page,
        audio_in,
        audio_out,
        mid,
        c1,
        mp[(n + 1) - 1],
        (n + 1) - 1,
    ));
}

/// The fold reads only the first `n` slots of the layout.
proof fn lemma_loaded_through_cache_prefix(
    profile: ProfileView,
    page: PageView,
    audio_in: Seq<char>,
    audio_out: Seq<char>,
    c0: ImageCacheView,
    c1: ImageCacheView,
    mp1: Seq<Option<image::DynamicImage>>,
    mp2: Seq<Option<image::DynamicImage>>,
    n: int,
)
    requires
        spec_loaded_through_cache(profile, page, audio_in, audio_out, c0, c1, mp1, n),
        forall|k: int| 0 <= k < n ==> mp1[k] == mp2[k],
    ensures
        spec_loaded_through_cache(profile, page, audio_in, audio_out, c0, c1, mp2, n),
    decreases n,
{
    if n <= 0 {
    } else {
        let mid = choose|mid: ImageCacheView|
            {
                &&& #[trigger] spec_slot_loaded(
                    profile,
                    page,
                    audio_in,
                    audio_out,
                    mid,
                    c1,
                    mp1[n - 1],
                    n - 1,
                )
                &&& spec_loaded_through_cache(
                    profile,
                    page,
                    audio_in,
                    audio_out,
                    c0,
                    mid,
                    mp1,
                    n - 1,
                )
            };
        lemma_loaded_through_cache_prefix(
            profile,
            page,
            audio_in,
            audio_out,
            c0,
            mid,
            mp1,
            mp2,
            n - 1,
        );
        assert(spec_slot_loaded(profile, page, audio_in, audio_out, mid, c1, mp2[n - 1], n - 1));
    }
}

/// Whether every bound slot of the page resolves to a source whose
/// cache key is already cached: the inputs on which materialization
/// owes success, because no decode is needed.
pub open spec fn spec_page_sources_cached(
    profile: ProfileView,
    page: PageView,
    audio_in: Seq<char>,
    audio_out: Seq<char>,
    cache: ImageCacheView,
) -> bool {
    forall|i: int|
        0 <= i < profile.manifest.device.spec_display_key_count() ==> match #[trigger] assoc_get(
            page.buttons,
            i as u8,
        ) {
            None => true,
            Some(b) => match spec_button_image_source(b.image, audio_in, audio_out) {
                None => false,
                Some(rel) => assoc_get(cache.entries, spec_join_path(profile.path, rel)) is Some,
            },
        }
}

/// When each image-source failure arises: a load failure carries the
/// resolved cache key of some bound slot; a missing default carries the
/// device name under which some bound slot's keyed choice resolves to
/// nothing; no other image failure is ever reported.
pub open spec fn spec_materialize_error(
    profile: ProfileView,
    page: PageView,
    audio_in: Seq<char>,
    audio_out: Seq<char>,
    e: ImageError,
) -> bool {
    let count = profile.manifest.device.spec_display_key_count() as int;
    match e {
        ImageError::LoadError(p, _) => exists|i: int|
            0 <= i < count && match #[trigger] assoc_get(page.buttons, i as u8) {
                None => false,
                Some(b) => match spec_button_image_source(b.image, audio_in, audio_out) {
                    None => false,
                    Some(rel) => p@ == spec_join_path(profile.path, rel),
                },
            },
        ImageError::DefaultImageNotFound(k) => exists|i: int|
            0 <= i < count && match #[trigger] assoc_get(page.buttons, i as u8) {
                None => false,
                Some(b) => {
                    &&& spec_button_image_source(b.image, audio_in, audio_out) is None
                    &&& (b.image matches ButtonImageView::AudioInput { .. } ==> k@ == audio_in)
                    &&& (b.image matches ButtonImageView::AudioOutput { .. } ==> k@ == audio_out)
                },
            },
        ImageError::ImageNotFound(_) => false,
    }
}

/// What a successful render hands the caller: a deck is connected, the
/// page fits on it, the layout is the page materialized, and each bound
/// slot's bitmap went through the cache under the slot's resolved key —
/// so a key cached beforehand yields the cached bitmap.
pub open spec fn spec_render_ok(
    s0: StateView,
    s1: StateView,
    profile: ProfileView,
    page: PageView,
    mp: Seq<Option<image::DynamicImage>>,
) -> bool {
    &&& s0.device is Some
    &&& spec_materialized(profile, page, mp)
    &&& profile.manifest.device.spec_display_key_count() <= s0.device->Some_0.spec_key_count()
    &&& spec_loaded_through_cache(
        profile,
        page,
        s0.audio_input,
        s0.audio_output,
        s0.cache,
        s1.cache,
        mp,
        profile.manifest.device.spec_display_key_count() as int,
    )
}

/// When each render failure arises: no deck for [`RenderError::NoDevice`],
/// a page wider than the deck for the bounds failure (carrying the deck's
/// key count), an image of some bound slot that would not resolve or
/// decode for the source failure; a render that was handed its page never
/// reports the active page missing.
pub open spec fn spec_render_err(
    s0: StateView,
    profile: ProfileView,
    page: PageView,
    e: RenderError,
) -> bool {
    match e {
        RenderError::NoDevice => s0.device is None,
        RenderError::ButtonIndexOutOfBounds(i) => s0.device matches Some(k)
            && i == k.spec_key_count() as int && profile.manifest.device.spec_display_key_count()
            > k.spec_key_count(),
        RenderError::ImageSourceError(ie) => spec_materialize_error(
            profile,
            page,
            s0.audio_input,
            s0.audio_output,
            ie,
        ),
        RenderError::NoActivePage => false,
    }
}

/// The inputs on which a render owes success: nothing outside the
/// library gets to decide, because every bound slot's image is already
/// cached under its resolved key (a page with no buttons trivially so),
/// a deck is connected, and the page fits on it.
pub open spec fn spec_render_owed(s0: StateView, profile: ProfileView, page: PageView) -> bool {
    &&& spec_page_sources_cached(profile, page, s0.audio_input, s0.audio_output, s0.cache)
    &&& s0.device matches Some(k) && profile.manifest.device.spec_display_key_count()
        <= k.spec_key_count()
}

/// The shape of a materialized page for a profile and page: one slot
/// per display key of the profile's deck kind, a slot holding an image
/// exactly where the page binds a button. Which bitmap a bound slot
/// holds is fixed by [`spec_loaded_through_cache`].
pub open spec fn spec_materialized(
    profile: ProfileView,
    page: PageView,
    mp: Seq<Option<image::DynamicImage>>,
) -> bool {
    &&& mp.len() == profile.manifest.device.spec_display_key_count() as int
    &&& forall|i: int|
        0 <= i < mp.len() ==> ((#[trigger] mp[i]) is Some <==> assoc_get(
            page.buttons,
            i as u8,
        ) is Some)
}

impl State {
    /// Resolves and decodes every button image of a page, slot by slot
    /// in index order, through the shared cache. The first slot whose
    /// image cannot be resolved or decoded fails the whole page.
    pub fn materialize_page(&mut self, profile: &Profile, page: &Page) -> (r: Result<
        MaterializedPage,
        RenderError,
    >)
        requires
            old(self).wf(),
        ensures
            final(self).wf(),
            frame_render(old(self)@, final(self)@),
            match r {
                Ok(mp) => spec_materialized(profile@, page@, mp@) && spec_loaded_through_cache(
                    profile@,
                    page@,
                    old(self)@.audio_input,
                    old(self)@.audio_output,
                    old(self)@.cache,
                    final(self)@.cache,
                    mp@,
                    profile@.manifest.device.spec_display_key_count() as int,
                ),
                Err(e) => e matches RenderError::ImageSourceError(ie) && spec_materialize_error(
                    profile@,
                    page@,
                    old(self)@.audio_input,
                    old(self)@.audio_output,
                    ie,
                ),
            },
            spec_page_sources_cached(
                profile@,
                page@,
                old(self)@.audio_input,
                old(self)@.audio_output,
                old(self)@.cache,
            ) ==> r is Ok,
            page@.buttons.len() == 0 ==> r is Ok,
    {
        let count = profile.manifest.kind().display_key_count() as usize;
        let loader = profile.get_loader();
        let slots = page.iter_buttons(count);
        let audio_in = self.audio_input_device.clone();
        let audio_out = self.audio_output_device.clone();
        let ghost ain = old(self)@.audio_input;
        let ghost aout = old(self)@.audio_output;
        let ghost cache0 = old(self)@.cache;
        let ghost cached_hyp = spec_page_sources_cached(profile@, page@, ain, aout, cache0);
        let mut images: Vec<Option<image::DynamicImage>> = Vec::new();
        let mut i: usize = 0;
        while i < count
            invariant
                0 <= i <= count <= 256,
                old(self).wf(),
                self@.cache.wf(),
                frame_render(old(self)@, self@),
                count == profile@.manifest.device.spec_display_key_count() as int,
                slots@.len() == count,
                forall|j: int|
                    0 <= j < count ==> match #[trigger] slots@[j] {
                        Some(b) => assoc_get(page@.buttons, j as u8) == Some(b@),
                        None => assoc_get(page@.buttons, j as u8) is None,
                    },
                images@.len() == i,
                forall|j: int|
                    0 <= j < i ==> ((#[trigger] images@[j]) is Some <==> assoc_get(
                        page@.buttons,
                        j as u8,
                    ) is Some),
                loader@ == profile@.path,
                audio_in@ == ain,
                audio_out@ == aout,
                ain == old(self)@.audio_input,
                aout == old(self)@.audio_output,
                cache0 == old(self)@.cache,
                cached_hyp == spec_page_sources_cached(profile@, page@, ain, aout, cache0),
                spec_loaded_through_cache(
                    profile@,
                    page@,
                    ain,
                    aout,
                    cache0,
                    self@.cache,
                    images@,
                    i as int,
                ),
                cached_hyp ==> forall|k2: Seq<char>|
                    #[trigger] assoc_get(self@.cache.entries, k2) == assoc_get(cache0.entries, k2),
            decreases count - i,
        {
            let ghost mid = self@.cache;
            let ghost images_before = images@;
            match slots[i] {
                None => {
                    images.push(None);
                    proof {
                        lemma_loaded_through_cache_prefix(
                            profile@,
                            page@,
                            ain,
                            aout,
                            cache0,
                            mid,
                            images_before,
                            images@,
                            i as int,
                        );
                        assert(spec_slot_loaded(
                            profile@,
                            page@,
                            ain,
                            aout,
                            mid,
                            self@.cache,
                            images@[i as int],
                            i as int,
                        ));
                        lemma_loaded_through_cache_step(
                            profile@,
                            page@,
                            ain,
                            aout,
                            cache0,
                            mid,
                            self@.cache,
                            images@,
                            i as int,
                        );
                    }
                },
                Some(button) => {
                    let res = match &button.image {
                        ButtonImage::Source { src } => loader.open(
                            &mut self.image_cache,
                            src.as_str(),
                        ),
                        ButtonImage::AudioInput { audio_input } => loader.open_from_image_map(
                            &mut self.image_cache,
                            audio_input,
                            audio_in.as_str(),
                        ),
                        ButtonImage::AudioOutput { audio_output } => loader.open_from_image_map(
                            &mut self.image_cache,
                            audio_output,
                            audio_out.as_str(),
                        ),
                    };
                    proof {
                        assert(assoc_get(page@.buttons, i as u8) == Some(button@));
                    }
                    match res {
                        Ok(img) => {
                            images.push(Some(img));
                            proof {
                                lemma_loaded_through_cache_prefix(
                                    profile@,
                                    page@,
                                    ain,
                                    aout,
                                    cache0,
                                    mid,
                                    images_before,
                                    images@,
                                    i as int,
                                );
                                let rel = spec_button_image_source(button@.image, ain, aout)->Some_0;
                                let key = spec_join_path(profile@.path, rel);
                                assert(spec_slot_loaded(
                                    profile@,
                                    page@,
                                    ain,
                                    aout,
                                    mid,
                                    self@.cache,
                                    images@[i as int],
                                    i as int,
                                ));
                                lemma_loaded_through_cache_step(
                                    profile@,
                                    page@,
                                    ain,
                                    aout,
                                    cache0,
                                    mid,
                                    self@.cache,
                                    images@,
                                    i as int,
                                );
                                if cached_hyp {
                                    assert(assoc_get(mid.entries, key) == assoc_get(
                                        cache0.entries,
                                        key,
                                    ));
                                    assert(assoc_get(mid.entries, key) == Some(img));
                                    lemma_cache_hit_preserves_bindings(mid, key, img);
                                }
                            }
                        },
                        Err(e) => {
                            proof {
                                if page@.buttons.len() == 0 {
                                    assert(assoc_get(page@.buttons, i as u8) is None);
                                }
                                assert(spec_materialize_error(profile@, page@, ain, aout, e));
                                if cached_hyp {
                                    // under the all-cached hypothesis every
                                    // slot is a cache hit, so this failure
                                    // cannot arise
                                    assert(false);
                                }
                            }
                            return Err(RenderError::ImageSourceError(e));
                        },
                    }
                },
            }
            i = i + 1;
        }
        Ok(MaterializedPage(images))
    }

    /// Materializes a page and checks it against the connected deck:
    /// fails without a deck, and when the page has more slots than the
    /// deck has keys. On success the caller writes the returned layout
    /// to the deck, slot by slot, cleared slots left blank.
    pub fn render_page(&mut self, profile: &Profile, page: &Page) -> (r: Result<
        MaterializedPage,
        RenderError,
    >)
        requires
            old(self).wf(),
        ensures
            final(self).wf(),
            frame_render(old(self)@, final(self)@),
            match r {
                Ok(mp) => spec_render_ok(old(self)@, final(self)@, profile@, page@, mp@),
                Err(e) => spec_render_err(old(self)@, profile@, page@, e),
            },
            spec_render_owed(old(self)@, profile@, page@) ==> r is Ok,
    {
        let mp = match self.materialize_page(profile, page) {
            Ok(mp) => mp,
            Err(e) => {
                return Err(e);
            },
        };
        match self.device {
            None => Err(RenderError::NoDevice),
            Some(kind) => {
                let kc = kind.key_count() as usize;
                if mp.0.len() > kc {
                    Err(RenderError::ButtonIndexOutOfBounds(kc))
                } else {
                    Ok(mp)
                }
            },
        }
    }

    /// The profile and page the navigation names stand at, when both
    /// resolve.
    pub fn get_active_page(&self) -> (r: Option<(Profile, Page)>)
        ensures
            match self@.spec_active_page() {
                None => r is None,
                Some((pr, pg)) => r matches Some((p, g)) && p@ == pr && g@ == pg,
            },
    {
        let (profile, page) = self.get_current_profile_and_page();
        self.get_page(profile.as_str(), page.as_str())
    }

    /// Renders the page navigation stands at; fails with no active page
    /// when the navigation names resolve to none.
    pub fn render_active_page(&mut self) -> (r: Result<MaterializedPage, RenderError>)
        requires
            old(self).wf(),
        ensures
            final(self).wf(),
            frame_render(old(self)@, final(self)@),
            match old(self)@.spec_active_page() {
                None => r matches Err(RenderError::NoActivePage) && final(self)@ == old(self)@,
                Some((pr, pg)) => match r {
                    Ok(mp) => spec_render_ok(old(self)@, final(self)@, pr, pg, mp@),
                    Err(e) => spec_render_err(old(self)@, pr, pg, e),
                },
            },
            match old(self)@.spec_active_page() {
                None => true,
                Some((pr, pg)) => spec_render_owed(old(self)@, pr, pg) ==> r is Ok,
            },
    {
        match self.get_active_page() {
            None => Err(RenderError::NoActivePage),
            Some((profile, page)) => self.render_page(&profile, &page),
        }
    }

    /// Hands the caller the brightness to push to the deck, or fails
    /// when no deck is connected.
    pub fn apply_brightness(&self) -> (r: Result<u8, RenderError>)
        ensures
            match r {
                Ok(b) => self@.device is Some && b == self@.brightness,
                Err(e) => self@.device is None && e matches RenderError::NoDevice,
            },
    {
        match self.device {
            None => Err(RenderError::NoDevice),
            Some(_) => Ok(self.brightness),
        }
    }

    /// Adjusts the stored brightness by a signed step, wrapping at the
    /// byte bounds, and hands the caller the new value to push to the
    /// deck when one is connected.
    pub fn set_brightness(&mut self, delta: i8) -> (r: Result<u8, RenderError>)
        ensures
            final(self)@ == (StateView {
                brightness: spec_adjust_brightness(old(self)@.brightness, delta),
                ..old(self)@
            }),
            match r {
                Ok(b) => old(self)@.device is Some && b == final(self)@.brightness,
                Err(e) => old(self)@.device is None && e matches RenderError::NoDevice,
            },
    {
        let base: i32 = self.brightness as i32 + delta as i32;
        let nb: u8 = if base < 0 {
            (base + 256) as u8
        } else if base > 255 {
            (base - 256) as u8
        } else {
            base as u8
        };
        self.brightness = nb;
        proof {
            assert(final(self)@ =~= (StateView {
                brightness: spec_adjust_brightness(old(self)@.brightness, delta),
                ..old(self)@
            }));
        }
        self.apply_brightness()
    }
}

/// Brightness after a signed step: a byte that wraps around at its
/// bounds, as unsigned arithmetic on the stored value does.
pub open spec fn spec_adjust_brightness(b: u8, delta: i8) -> u8 {
    let x = b as int + delta as int;
    if x < 0 {
        (x + 256) as u8
    } else if x > 255 {
        (x - 256) as u8
    } else {
        x as u8
    }
}

} // verus!
