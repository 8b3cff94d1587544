//! The toolchain store: which version tags are installed.
//!
//! The store on disk holds one immutable directory per installed tag.  The
//! shell observes the store by listing those directories and hands the tags
//! in; the model below is what every planner consults.

use vstd::prelude::*;
use crate::text::{vec_contains_str, views_of};

verus! {

/// The observed toolchain store: the tags with an install directory.
pub struct StoreState {
    pub installed: Vec<String>,
}

impl View for StoreState {
    type V = Seq<Seq<char>>;

    open spec fn view(&self) -> Seq<Seq<char>> {
        views_of(self.installed@)
    }
}

impl StoreState {
    /// An empty store: no toolchain installed.
    pub fn new() -> (r: StoreState)
        ensures
            r@ == Seq::<Seq<char>>::empty(),
    {
        let r = StoreState { installed: Vec::new() };
        assert(r@ =~= Seq::<Seq<char>>::empty());
        r
    }

    /// Whether `tag` has an install directory.
    pub fn is_installed(&self, tag: &str) -> (b: bool)
        ensures
            b == self@.contains(tag@),
    {
        vec_contains_str(&self.installed, tag)
    }

    /// Records that a fresh install of `tag` has completed.
    pub fn record_install(&mut self, tag: String)
        ensures
            final(self)@ == old(self)@.push(tag@),
    {
        let ghost t = tag@;
        self.installed.push(tag);
        assert(self@ =~= old(self)@.push(t));
    }
}

} // verus!
