//! What an analysis runs against.

use crate::library::{Library, LibraryView};
use vstd::prelude::*;

verus! {

/// The surroundings of an analysis: the library of resolved types.
#[derive(Debug, PartialEq, Eq)]
pub struct Env {
    pub library: Library,
}

/// The mathematical content of an [`Env`].
pub ghost struct EnvView {
    pub library: LibraryView,
}

impl View for Env {
    type V = EnvView;

    open spec fn view(&self) -> EnvView {
        EnvView { library: self.library@ }
    }
}

} // verus!
