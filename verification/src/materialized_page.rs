//! A page with its button images resolved and decoded, ready to be
//! written to the deck slot by slot.

use crate::images::clone_dynamic_image;
use vstd::prelude::*;

verus! {

/// How materializing a page can fail when a slot's image cannot be
/// loaded; carries the resolved path and the decoder's report.
#[derive(Debug)]
pub enum MaterializedPageError {
    ImageError(String, String),
}

/// A page's decoded button bitmaps in slot order. A slot holding nothing
/// shows no image and is left cleared on the deck.
pub struct MaterializedPage(pub Vec<Option<image::DynamicImage>>);

impl View for MaterializedPage {
    type V = Seq<Option<image::DynamicImage>>;

    open spec fn view(&self) -> Seq<Option<image::DynamicImage>> {
        self.0@
    }
}

impl Clone for MaterializedPage {
    fn clone(&self) -> (r: Self)
        ensures
            r@ == self@,
    {
        let mut slots: Vec<Option<image::DynamicImage>> = Vec::new();
        let n = self.0.len();
        let mut i: usize = 0;
        while i < n
            invariant
                0 <= i <= n == self.0@.len(),
                slots@.len() == i,
                forall|j: int| 0 <= j < i ==> slots@[j] == self.0@[j],
            decreases n - i,
        {
            match &self.0[i] {
                Some(img) => slots.push(Some(clone_dynamic_image(img))),
                None => slots.push(None),
            }
            i = i + 1;
        }
        let r = MaterializedPage(slots);
        proof {
            assert(r@ =~= self@);
        }
        r
    }
}

impl MaterializedPage {
    /// An empty layout of the given slot count, every slot cleared.
    pub fn new(size: usize) -> (r: MaterializedPage)
        ensures
            r@.len() == size,
            forall|i: int| 0 <= i < size ==> r@[i] is None,
    {
        let mut slots: Vec<Option<image::DynamicImage>> = Vec::new();
        let mut i: usize = 0;
        while i < size
            invariant
                0 <= i <= size,
                slots@.len() == i,
                forall|j: int| 0 <= j < i ==> slots@[j] is None,
            decreases size - i,
        {
            slots.push(None);
            i = i + 1;
        }
        MaterializedPage(slots)
    }
}

} // verus!
