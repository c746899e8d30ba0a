//! The platform-qualified name fragments of a release asset.

use vstd::prelude::*;

verus! {

/// Abstract value of an optional string: the characters, when present.
pub open spec fn opt_view(o: Option<String>) -> Option<Seq<char>> {
    match o {
        Some(s) => Some(s@),
        None => None,
    }
}

/// Name fragments of the release asset to download, one per platform the
/// release may target. Absence of a field means the tool offers no build
/// for that platform (or, in user configuration, no override for it).
#[derive(Debug, PartialEq, Eq)]
pub struct AssetName {
    pub linux: Option<String>,
    pub macos: Option<String>,
    pub windows: Option<String>,
}

/// Abstract value of an [`AssetName`].
pub struct AssetNameView {
    pub linux: Option<Seq<char>>,
    pub macos: Option<Seq<char>>,
    pub windows: Option<Seq<char>>,
}

impl View for AssetName {
    type V = AssetNameView;

    open spec fn view(&self) -> AssetNameView {
        AssetNameView {
            linux: opt_view(self.linux),
            macos: opt_view(self.macos),
            windows: opt_view(self.windows),
        }
    }
}

impl AssetNameView {
    /// All three fragments absent.
    pub open spec fn empty() -> AssetNameView {
        AssetNameView { linux: None, macos: None, windows: None }
    }
}

impl AssetName {
    /// The record with every fragment absent.
    pub fn empty() -> (r: AssetName)
        ensures
            r@ == AssetNameView::empty(),
    {
        AssetName { linux: None, macos: None, windows: None }
    }
}

} // verus!
