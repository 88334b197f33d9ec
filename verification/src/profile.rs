//! A loaded profile: one application's pages and encoder bindings.

use crate::images::ButtonImageLoader;
use crate::manifest::{Manifest, ManifestView};
use vstd::prelude::*;

verus! {

/// Mathematical model of a [`Profile`].
#[verifier::ext_equal]
pub struct ProfileView {
    pub name: Seq<char>,
    pub manifest: ManifestView,
    pub path: Seq<char>,
}

impl ProfileView {
    /// A profile is well formed when its manifest is.
    pub open spec fn wf(&self) -> bool {
        self.manifest.wf()
    }
}

/// A named profile: the declaration loaded from its manifest and the
/// directory its image paths are relative to.
#[derive(Debug)]
pub struct Profile {
    /// The profile's name, also the application it is bound to.
    pub name: String,
    /// The loaded declaration.
    pub manifest: Manifest,
    /// The profile's directory.
    pub path: String,
}

impl View for Profile {
    type V = ProfileView;

    open spec fn view(&self) -> ProfileView {
        ProfileView { name: self.name@, manifest: self.manifest@, path: self.path@ }
    }
}

impl Clone for Profile {
    fn clone(&self) -> (r: Self)
        ensures
            r@ == self@,
    {
        Profile { name: self.name.clone(), manifest: self.manifest.clone(), path: self.path.clone() }
    }
}

impl Profile {
    /// An image loader rooted at this profile's directory.
    pub fn get_loader(&self) -> (r: ButtonImageLoader)
        ensures
            r@ == self@.path,
    {
        ButtonImageLoader::new(self.path.clone())
    }
}

} // verus!
