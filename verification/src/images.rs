//! Button imagery: image sources, the bounded decoded-image cache, and
//! the loader that resolves a button's source to a decoded bitmap.

use crate::{
    assoc_get, lemma_assoc_get_at, lemma_remove_key_absent, lemma_remove_key_at,
    lemma_remove_key_props, remove_key, str_eq, unique_keys,
};
use vstd::prelude::*;

verus! {

/// Decoded bitmap handed to the deck, from the imaging crate; the
/// library moves such values around without looking inside them.
#[verifier::external_type_specification]
#[verifier::external_body]
pub struct ExDynamicImage(image::DynamicImage);

/// Relies on `image::DynamicImage::clone`: it copies the bitmap, variant
/// and buffer alike, so the copy equals its input.
#[verifier::external_body]
pub fn clone_dynamic_image(img: &image::DynamicImage) -> (r: image::DynamicImage)
    ensures
        r == *img,
{
    img.clone()
}

/// Relies on `image::open`: it reads and decodes the image file at the
/// given path. What comes back depends on what is on disk, so nothing is
/// assumed of the bitmap; a failure is rendered into its report.
#[verifier::external_body]
fn open_image(path: &str) -> (r: Result<image::DynamicImage, String>)
{
    match image::open(path) {
        Ok(img) => Ok(img),
        Err(e) => Err(e.to_string()),
    }
}

/// Mathematical model of an [`ImageCache`].
#[verifier::ext_equal]
pub struct ImageCacheView {
    /// Cached bitmaps keyed by resolved path, most recently used first.
    pub entries: Seq<(Seq<char>, image::DynamicImage)>,
    /// The fixed bound on how many entries the cache holds.
    pub capacity: int,
}

impl ImageCacheView {
    /// The cache never exceeds its bound, holds each key once, and was
    /// created with room for at least one entry.
    pub open spec fn wf(&self) -> bool {
        &&& self.capacity >= 1
        &&& unique_keys(self.entries)
        &&& self.entries.len() <= self.capacity
    }
}

/// How an insertion changes the cache: the key moves to the front bound
/// to the new bitmap, and when that would exceed the bound, the least
/// recently used entry — the last — leaves.
pub open spec fn spec_cache_insert(
    c: ImageCacheView,
    key: Seq<char>,
    img: image::DynamicImage,
) -> ImageCacheView {
    let pushed = seq![(key, img)] + remove_key(c.entries, key);
    ImageCacheView {
        entries: if pushed.len() > c.capacity {
            pushed.take(c.capacity)
        } else {
            pushed
        },
        capacity: c.capacity,
    }
}

/// The deep view of the cache's entry list.
pub open spec fn cache_entries_view(entries: Seq<(String, image::DynamicImage)>) -> Seq<
    (Seq<char>, image::DynamicImage),
> {
    entries.map_values(|e: (String, image::DynamicImage)| (e.0@, e.1))
}

proof fn lemma_cache_entries_view_index(entries: Seq<(String, image::DynamicImage)>, i: int)
    requires
        0 <= i < entries.len(),
    ensures
        cache_entries_view(entries).len() == entries.len(),
        cache_entries_view(entries)[i] == (entries[i].0@, entries[i].1),
{
}

/// A bounded cache of decoded button bitmaps keyed by resolved path.
/// Lookups refresh an entry's recency; insertions past the bound evict
/// the least recently used entry. The cache is the library's own so
/// that these recency and eviction laws are proved rather than assumed
/// of an outside store: the bitmaps it holds are opaque outside values,
/// of which a trusted collection contract could say nothing checkable.
pub struct ImageCache {
    entries: Vec<(String, image::DynamicImage)>,
    capacity: usize,
}

impl View for ImageCache {
    type V = ImageCacheView;

    closed spec fn view(&self) -> ImageCacheView {
        ImageCacheView {
            entries: cache_entries_view(self.entries@),
            capacity: self.capacity as int,
        }
    }
}

impl ImageCache {
    /// Shorthand for the view being well formed.
    pub open spec fn wf(&self) -> bool {
        self@.wf()
    }

    /// An empty cache with room for `capacity` entries.
    pub fn new(capacity: usize) -> (r: ImageCache)
        requires
            capacity >= 1,
        ensures
            r.wf(),
            r@.entries == Seq::<(Seq<char>, image::DynamicImage)>::empty(),
            r@.capacity == capacity as int,
    {
        let r = ImageCache { entries: Vec::new(), capacity };
        proof {
            assert(r@.entries =~= Seq::<(Seq<char>, image::DynamicImage)>::empty());
        }
        r
    }

    /// How many entries the cache holds.
    pub fn len(&self) -> (r: usize)
        ensures
            r == self@.entries.len(),
    {
        self.entries.len()
    }

    /// Whether the cache holds nothing.
    pub fn is_empty(&self) -> (r: bool)
        ensures
            r == (self@.entries.len() == 0),
    {
        self.entries.is_empty()
    }

    /// The bitmap cached under a key, if any; a hit also marks the entry
    /// as most recently used.
    pub fn get(&mut self, key: &str) -> (r: Option<image::DynamicImage>)
        requires
            old(self).wf(),
        ensures
            final(self).wf(),
            match assoc_get(old(self)@.entries, key@) {
                Some(img) => r == Some(img) && final(self)@ == spec_cache_insert(
                    old(self)@,
                    key@,
                    img,
                ),
                None => r is None && final(self)@ == old(self)@,
            },
    {
        let ghost entries0 = self@.entries;
        let n = self.entries.len();
        let mut i: usize = 0;
        while i < n
            invariant
                0 <= i <= n == self.entries@.len(),
                entries0.len() == n,
                cache_entries_view(self.entries@) == entries0,
                self.capacity == old(self).capacity,
                self.entries@ == old(self).entries@,
                entries0 == old(self)@.entries,
                old(self).wf(),
                forall|j: int| 0 <= j < i ==> entries0[j].0 != key@,
            decreases n - i,
        {
            if str_eq(self.entries[i].0.as_str(), key) {
                proof {
                    lemma_cache_entries_view_index(self.entries@, i as int);
                    assert(entries0[i as int].0 == self.entries@[i as int].0@);
                    lemma_assoc_get_at(entries0, key@, i as int);
                    assert(unique_keys(entries0));
                    assert forall|j: int|
                        0 <= j < entries0.len() && j != i implies (#[trigger] entries0[j]).0
                        != key@ by {
                        if j > i {
                            assert(entries0[i as int].0 != entries0[j].0);
                        }
                    }
                    lemma_remove_key_at(entries0, key@, i as int);
                    lemma_remove_key_props(entries0, key@);
                }
                let pair = self.entries.remove(i);
                let img = clone_dynamic_image(&pair.1);
                self.entries.insert(0, pair);
                proof {
                    assert(self@.entries =~= seq![(key@, img)] + remove_key(entries0, key@));
                    let fresh = spec_cache_insert(old(self)@, key@, img);
                    assert(remove_key(entries0, key@).len() == n - 1);
                    assert(n <= old(self)@.capacity);
                    assert(fresh.entries == self@.entries);
                    assert(final(self)@ =~= fresh);
                    assert forall|a: int, b: int|
                        0 <= a < b < self@.entries.len() implies (#[trigger] self@.entries[a]).0
                        != (#[trigger] self@.entries[b]).0 by {
                        let removed = remove_key(entries0, key@);
                        if a == 0 {
                            assert(self@.entries[b] == removed[b - 1]);
                        } else {
                            assert(self@.entries[a] == removed[a - 1]);
                            assert(self@.entries[b] == removed[b - 1]);
                        }
                    }
                }
                return Some(img);
            }
            i = i + 1;
        }
        proof {
            lemma_assoc_get_at(entries0, key@, n as int);
            assert(final(self)@ =~= old(self)@);
        }
        None
    }

    /// Binds a key to a bitmap at the front of the cache, evicting the
    /// least recently used entry when the bound would be exceeded.
    pub fn put(&mut self, key: String, image: image::DynamicImage)
        requires
            old(self).wf(),
        ensures
            final(self).wf(),
            final(self)@ == spec_cache_insert(old(self)@, key@, image),
    {
        let ghost entries0 = self@.entries;
        let n = self.entries.len();
        let mut idx: Option<usize> = None;
        let mut i: usize = 0;
        while i < n
            invariant_except_break
                idx is None,
            invariant
                0 <= i <= n == self.entries@.len(),
                entries0.len() == n,
                cache_entries_view(self.entries@) == entries0,
                self.capacity == old(self).capacity,
                self.entries@ == old(self).entries@,
                forall|j: int| 0 <= j < i ==> entries0[j].0 != key@,
            ensures
                self.capacity == old(self).capacity,
                self.entries@ == old(self).entries@,
                cache_entries_view(self.entries@) == entries0,
                entries0.len() == n,
                match idx {
                    Some(k) => k < n && entries0[k as int].0 == key@ && forall|j: int|
                        0 <= j < k ==> entries0[j].0 != key@,
                    None => forall|j: int| 0 <= j < n ==> entries0[j].0 != key@,
                },
            decreases n - i,
        {
            if str_eq(self.entries[i].0.as_str(), key.as_str()) {
                proof {
                    lemma_cache_entries_view_index(self.entries@, i as int);
                }
                idx = Some(i);
                break;
            }
            i = i + 1;
        }
        match idx {
            Some(k) => {
                proof {
                    lemma_remove_key_at(entries0, key@, k as int);
                }
                let _ = self.entries.remove(k);
            },
            None => {
                proof {
                    lemma_remove_key_absent(entries0, key@);
                }
            },
        }
        proof {
            assert(cache_entries_view(self.entries@) =~= remove_key(entries0, key@));
            lemma_remove_key_props(entries0, key@);
        }
        let ghost removed = cache_entries_view(self.entries@);
        self.entries.insert(0, (key, image));
        proof {
            assert(cache_entries_view(self.entries@) =~= seq![(key@, image)] + removed);
        }
        let ghost pushed = cache_entries_view(self.entries@);
        proof {
            assert forall|a: int, b: int|
                0 <= a < b < pushed.len() implies (#[trigger] pushed[a]).0 != (
            #[trigger] pushed[b]).0 by {
                if a == 0 {
                    assert(pushed[b] == removed[b - 1]);
                } else {
                    assert(pushed[a] == removed[a - 1]);
                    assert(pushed[b] == removed[b - 1]);
                }
            }
        }
        if self.entries.len() > self.capacity {
            let _ = self.entries.pop();
            proof {
                assert(cache_entries_view(self.entries@) =~= pushed.take(self.capacity as int));
            }
        }
        proof {
            let fresh = spec_cache_insert(old(self)@, key@, image);
            assert(fresh.entries == cache_entries_view(self.entries@));
            assert(final(self)@ =~= fresh);
            let es = self@.entries;
            assert forall|a: int, b: int|
                0 <= a < b < es.len() implies (#[trigger] es[a]).0 != (#[trigger] es[b]).0 by {
                assert(es[a] == pushed[a]);
                assert(es[b] == pushed[b]);
            }
        }
    }
}

/// Laws of the cache: a lookup right after an insertion of a key finds
/// exactly the bitmap inserted, without another decode; and an insertion
/// of a fresh key into a full cache keeps the bound and drops exactly
/// the least recently used entry.
/// An insertion that rebinds an already cached key to its own cached
/// bitmap — what a cache hit does — reorders recency only: every key
/// keeps its binding and none is evicted.
pub proof fn lemma_cache_hit_preserves_bindings(
    c: ImageCacheView,
    key: Seq<char>,
    img: image::DynamicImage,
)
    requires
        c.wf(),
        assoc_get(c.entries, key) == Some(img),
    ensures
        spec_cache_insert(c, key, img).wf(),
        forall|k2: Seq<char>|
            #[trigger] assoc_get(spec_cache_insert(c, key, img).entries, k2) == assoc_get(
                c.entries,
                k2,
            ),
{
    crate::lemma_assoc_get_position(c.entries, key);
    let i = choose|i: int|
        0 <= i < c.entries.len() && (#[trigger] c.entries[i]).0 == key && c.entries[i].1 == img
            && forall|j: int| 0 <= j < i ==> c.entries[j].0 != key;
    assert forall|j: int|
        0 <= j < c.entries.len() && j != i implies (#[trigger] c.entries[j]).0 != key by {
        if j > i {
            assert(c.entries[i].0 != c.entries[j].0);
        }
    }
    lemma_remove_key_at(c.entries, key, i);
    lemma_remove_key_props(c.entries, key);
    let removed = remove_key(c.entries, key);
    assert(removed.len() == c.entries.len() - 1);
    let pushed = seq![(key, img)] + removed;
    assert(pushed.len() <= c.capacity);
    let fresh = spec_cache_insert(c, key, img).entries;
    assert(fresh == pushed);
    assert forall|a: int, b: int|
        0 <= a < b < fresh.len() implies (#[trigger] fresh[a]).0 != (#[trigger] fresh[b]).0 by {
        if a == 0 {
            assert(fresh[b] == removed[b - 1]);
        } else {
            assert(fresh[a] == removed[a - 1]);
            assert(fresh[b] == removed[b - 1]);
        }
    }
    assert forall|k2: Seq<char>| #[trigger] assoc_get(fresh, k2) == assoc_get(c.entries, k2) by {
        if k2 == key {
            assert(fresh[0] == (key, img));
            assert(assoc_get(fresh, k2) == Some(img));
        } else {
            assert(fresh.skip(1) =~= removed);
            assert(assoc_get(fresh, k2) == assoc_get(removed, k2));
        }
    }
}

pub proof fn lemma_cache_hit_and_eviction(
    c: ImageCacheView,
    key: Seq<char>,
    img: image::DynamicImage,
)
    requires
        c.wf(),
    ensures
        assoc_get(spec_cache_insert(c, key, img).entries, key) == Some(img),
        spec_cache_insert(c, key, img).wf(),
        (c.entries.len() == c.capacity && assoc_get(c.entries, key) is None) ==> {
            &&& spec_cache_insert(c, key, img).entries.len() == c.capacity
            &&& assoc_get(spec_cache_insert(c, key, img).entries, c.entries.last().0) is None
        },
{
    let pushed = seq![(key, img)] + remove_key(c.entries, key);
    lemma_remove_key_props(c.entries, key);
    let fresh = spec_cache_insert(c, key, img).entries;
    // the inserted binding stands at the front, so the lookup ends there
    if pushed.len() > c.capacity {
        assert(fresh == pushed.take(c.capacity));
        assert(fresh[0] == (key, img));
    } else {
        assert(fresh[0] == (key, img));
    }
    assert(assoc_get(fresh, key) == Some(img));
    // the bound holds
    assert(fresh.len() <= c.capacity);
    // uniqueness carries over from the reduced list
    assert forall|a: int, b: int|
        0 <= a < b < fresh.len() implies (#[trigger] fresh[a]).0 != (#[trigger] fresh[b]).0 by {
        let removed = remove_key(c.entries, key);
        assert(fresh[a] == pushed[a]);
        assert(fresh[b] == pushed[b]);
        if a == 0 {
            assert(pushed[b] == removed[b - 1]);
        } else {
            assert(pushed[a] == removed[a - 1]);
            assert(pushed[b] == removed[b - 1]);
        }
    }
    if c.entries.len() == c.capacity && assoc_get(c.entries, key) is None {
        crate::lemma_assoc_get_none_implies_absent(c.entries, key);
        lemma_remove_key_absent(c.entries, key);
        assert(pushed.len() == c.capacity + 1);
        assert(fresh == pushed.take(c.capacity));
        let lru = c.entries.last();
        // the evicted key occurs nowhere in what is kept
        assert forall|j: int| 0 <= j < fresh.len() implies (#[trigger] fresh[j]).0 != lru.0 by {
            if j == 0 {
                assert(fresh[0].0 == key);
                assert(c.entries[c.entries.len() - 1] == lru);
            } else {
                assert(fresh[j] == c.entries[j - 1]);
                assert(c.entries[c.entries.len() - 1] == lru);
            }
        }
        lemma_assoc_get_at(fresh, lru.0, fresh.len() as int);
    }
}

/// The cache key an image path resolves to: the path joined onto the
/// profile's directory.
pub open spec fn spec_join_path(base: Seq<char>, rel: Seq<char>) -> Seq<char> {
    base + "/"@ + rel
}

/// Loads a profile's button images by relative path, through the shared
/// bounded cache.
pub struct ButtonImageLoader {
    profile_path: String,
}

impl View for ButtonImageLoader {
    type V = Seq<char>;

    closed spec fn view(&self) -> Seq<char> {
        self.profile_path@
    }
}

impl ButtonImageLoader {
    /// A loader rooted at a profile's directory.
    pub fn new(profile_path: String) -> (r: ButtonImageLoader)
        ensures
            r@ == profile_path@,
    {
        ButtonImageLoader { profile_path }
    }

    /// The bitmap for an image path relative to the profile directory:
    /// the cached decode when the resolved path is cached, else a fresh
    /// decode, which is then cached. A decode failure leaves the cache
    /// unchanged and carries the resolved path.
    pub fn open(&self, cache: &mut ImageCache, path: &str) -> (r: Result<
        image::DynamicImage,
        ImageError,
    >)
        requires
            old(cache).wf(),
        ensures
            final(cache).wf(),
            final(cache)@.capacity == old(cache)@.capacity,
            ({
                let key = spec_join_path(self@, path@);
                match r {
                    Ok(img) => final(cache)@ == spec_cache_insert(old(cache)@, key, img) && (
                    match assoc_get(old(cache)@.entries, key) {
                        Some(cached) => img == cached,
                        None => true,
                    }),
                    Err(e) => {
                        &&& assoc_get(old(cache)@.entries, key) is None
                        &&& final(cache)@ == old(cache)@
                        &&& e matches ImageError::LoadError(p, _) && p@ == key
                    },
                }
            }),
    {
        let mut key = self.profile_path.clone();
        key.append("/");
        key.append(path);
        match cache.get(key.as_str()) {
            Some(img) => Ok(img),
            None => {
                match open_image(key.as_str()) {
                    Ok(img) => {
                        let copy = clone_dynamic_image(&img);
                        cache.put(key, copy);
                        Ok(img)
                    },
                    Err(report) => Err(ImageError::LoadError(key, report)),
                }
            },
        }
    }

    /// The bitmap for a keyed image choice: the entry under the device
    /// name, or the `"default"` entry when the name has none, loaded as
    /// [`ButtonImageLoader::open`] does; with neither entry the choice is
    /// rejected and the cache left unchanged.
    pub fn open_from_image_map(
        &self,
        cache: &mut ImageCache,
        images: &Vec<(String, String)>,
        key: &str,
    ) -> (r: Result<image::DynamicImage, ImageError>)
        requires
            old(cache).wf(),
        ensures
            final(cache).wf(),
            final(cache)@.capacity == old(cache)@.capacity,
            ({
                match spec_resolve_image_map(string_pairs_view(images@), key@) {
                    None => {
                        &&& r matches Err(ImageError::DefaultImageNotFound(k)) && k@ == key@
                        &&& final(cache)@ == old(cache)@
                    },
                    Some(rel) => {
                        let cache_key = spec_join_path(self@, rel);
                        match r {
                            Ok(img) => final(cache)@ == spec_cache_insert(
                                old(cache)@,
                                cache_key,
                                img,
                            ) && (match assoc_get(old(cache)@.entries, cache_key) {
                                Some(cached) => img == cached,
                                None => true,
                            }),
                            Err(e) => {
                                &&& assoc_get(old(cache)@.entries, cache_key) is None
                                &&& final(cache)@ == old(cache)@
                                &&& e matches ImageError::LoadError(p, _) && p@ == cache_key
                            },
                        }
                    },
                }
            }),
    {
        match resolve_image_map(images, key) {
            Ok(rel) => self.open(cache, rel.as_str()),
            Err(e) => Err(e),
        }
    }
}

/// Mathematical model of a [`ButtonImage`].
#[verifier::ext_equal]
pub enum ButtonImageView {
    Source { src: Seq<char> },
    AudioInput { audio_input: Seq<(Seq<char>, Seq<char>)> },
    AudioOutput { audio_output: Seq<(Seq<char>, Seq<char>)> },
}

/// The image a screen button shows: either one fixed file, or a file
/// chosen by the current audio input or output device's name. A keyed
/// choice is expected to carry a `"default"` entry to fall back on.
#[derive(Debug)]
pub enum ButtonImage {
    /// A path to a static image file, relative to the profile directory.
    Source { src: String },
    /// Image paths keyed by audio input device name.
    AudioInput { audio_input: Vec<(String, String)> },
    /// Image paths keyed by audio output device name.
    AudioOutput { audio_output: Vec<(String, String)> },
}

/// The deep view of a list of string pairs.
pub open spec fn string_pairs_view(entries: Seq<(String, String)>) -> Seq<(Seq<char>, Seq<char>)> {
    entries.map_values(|e: (String, String)| (e.0@, e.1@))
}

impl View for ButtonImage {
    type V = ButtonImageView;

    open spec fn view(&self) -> ButtonImageView {
        match self {
            ButtonImage::Source { src } => ButtonImageView::Source { src: src@ },
            ButtonImage::AudioInput { audio_input } => ButtonImageView::AudioInput {
                audio_input: string_pairs_view(audio_input@),
            },
            ButtonImage::AudioOutput { audio_output } => ButtonImageView::AudioOutput {
                audio_output: string_pairs_view(audio_output@),
            },
        }
    }
}

fn clone_string_pairs(v: &Vec<(String, String)>) -> (r: Vec<(String, String)>)
    ensures
        string_pairs_view(r@) == string_pairs_view(v@),
{
    let mut r: Vec<(String, String)> = Vec::new();
    let n = v.len();
    let mut i: usize = 0;
    while i < n
        invariant
            0 <= i <= n == v@.len(),
            r@.len() == i,
            forall|j: int| 0 <= j < i ==> r@[j].0@ == v@[j].0@ && r@[j].1@ == v@[j].1@,
        decreases n - i,
    {
        let e = &v[i];
        r.push((e.0.clone(), e.1.clone()));
        i = i + 1;
    }
    proof {
        assert(string_pairs_view(r@) =~= string_pairs_view(v@));
    }
    r
}

impl Clone for ButtonImage {
    fn clone(&self) -> (r: Self)
        ensures
            r@ == self@,
    {
        match self {
            ButtonImage::Source { src } => ButtonImage::Source { src: src.clone() },
            ButtonImage::AudioInput { audio_input } => ButtonImage::AudioInput {
                audio_input: clone_string_pairs(audio_input),
            },
            ButtonImage::AudioOutput { audio_output } => ButtonImage::AudioOutput {
                audio_output: clone_string_pairs(audio_output),
            },
        }
    }
}

/// How loading a button's image can fail.
#[derive(Debug)]
pub enum ImageError {
    /// The file could not be opened or decoded; carries the resolved
    /// path and the decoder's report.
    LoadError(String, String),
    /// No image is known under the given name.
    ImageNotFound(String),
    /// A keyed image choice has no entry for the device name and no
    /// `"default"` entry either; carries the device name.
    DefaultImageNotFound(String),
}

/// The path a keyed image choice resolves to for a device name: the
/// entry under that name, or the `"default"` entry when the name has
/// none, or nothing when both are missing.
pub open spec fn spec_resolve_image_map(
    entries: Seq<(Seq<char>, Seq<char>)>,
    key: Seq<char>,
) -> Option<Seq<char>> {
    match assoc_get(entries, key) {
        Some(p) => Some(p),
        None => assoc_get(entries, "default"@),
    }
}

/// Looks up `key` in a list of string pairs.
fn assoc_get_string<'a>(entries: &'a Vec<(String, String)>, key: &str) -> (r: Option<&'a String>)
    ensures
        match r {
            Some(p) => assoc_get(string_pairs_view(entries@), key@) == Some(p@),
            None => assoc_get(string_pairs_view(entries@), key@) is None,
        },
{
    let n = entries.len();
    let mut i: usize = 0;
    while i < n
        invariant
            0 <= i <= n == entries@.len(),
            forall|j: int| 0 <= j < i ==> string_pairs_view(entries@)[j].0 != key@,
        decreases n - i,
    {
        if str_eq(entries[i].0.as_str(), key) {
            proof {
                lemma_assoc_get_at(string_pairs_view(entries@), key@, i as int);
            }
            return Some(&entries[i].1);
        }
        i = i + 1;
    }
    proof {
        lemma_assoc_get_at(string_pairs_view(entries@), key@, n as int);
    }
    None
}

/// Resolves a keyed image choice for a device name, falling back to the
/// `"default"` entry when the name has no entry of its own.
pub fn resolve_image_map<'a>(entries: &'a Vec<(String, String)>, key: &str) -> (r: Result<
    &'a String,
    ImageError,
>)
    ensures
        match r {
            Ok(p) => spec_resolve_image_map(string_pairs_view(entries@), key@) == Some(p@),
            Err(e) => spec_resolve_image_map(string_pairs_view(entries@), key@) is None && (
            e matches ImageError::DefaultImageNotFound(k) && k@ == key@),
        },
{
    match assoc_get_string(entries, key) {
        Some(p) => Ok(p),
        None => {
            match assoc_get_string(entries, "default") {
                Some(p) => Ok(p),
                None => Err(ImageError::DefaultImageNotFound(key.to_owned())),
            }
        },
    }
}

/// The image path a button's declaration stands for, relative to the
/// profile directory: a static source is the path itself; a keyed
/// choice resolves under the current audio input or output device's
/// name, with the `"default"` fallback; a keyed choice with neither
/// entry stands for nothing.
pub open spec fn spec_button_image_source(
    img: ButtonImageView,
    audio_in: Seq<char>,
    audio_out: Seq<char>,
) -> Option<Seq<char>> {
    match img {
        ButtonImageView::Source { src } => Some(src),
        ButtonImageView::AudioInput { audio_input } => spec_resolve_image_map(
            audio_input,
            audio_in,
        ),
        ButtonImageView::AudioOutput { audio_output } => spec_resolve_image_map(
            audio_output,
            audio_out,
        ),
    }
}

/// Law: a keyed image choice that declares only a `"default"` entry
/// resolves to that entry whatever device name is current.
pub proof fn lemma_default_image_covers_all_names(
    entries: Seq<(Seq<char>, Seq<char>)>,
    key: Seq<char>,
)
    requires
        entries.len() == 1,
        entries[0].0 == "default"@,
    ensures
        spec_resolve_image_map(entries, key) == Some(entries[0].1),
{
    if key == "default"@ {
        lemma_assoc_get_at(entries, key, 0);
    } else {
        lemma_assoc_get_at(entries, key, 1);
        lemma_assoc_get_at(entries, "default"@, 0);
    }
}

} // verus!
