//! Fully-resolved installation descriptor for one tool.

use vstd::prelude::*;

use crate::model::asset_name::AssetName;
use crate::model::asset_name::AssetNameView;

verus! {

/// Which release of a tool to download.
#[derive(Debug, PartialEq, Eq)]
pub enum ToolInfoTag {
    /// The latest published release.
    Latest,
    /// A specific release tag.
    Specific(String),
}

/// Abstract value of a [`ToolInfoTag`].
pub enum ToolInfoTagView {
    Latest,
    Specific(Seq<char>),
}

impl View for ToolInfoTag {
    type V = ToolInfoTagView;

    open spec fn view(&self) -> ToolInfoTagView {
        match self {
            ToolInfoTag::Latest => ToolInfoTagView::Latest,
            ToolInfoTag::Specific(s) => ToolInfoTagView::Specific(s@),
        }
    }
}

/// Everything needed to install one tool: where its releases live, what the
/// executable is called, and which asset of a release to take per platform.
#[derive(Debug, PartialEq, Eq)]
pub struct ToolInfo {
    pub owner: String,
    pub repo: String,
    pub exe_name: String,
    pub asset_name: AssetName,
    pub tag: ToolInfoTag,
}

/// Abstract value of a [`ToolInfo`].
pub struct ToolInfoView {
    pub owner: Seq<char>,
    pub repo: Seq<char>,
    pub exe_name: Seq<char>,
    pub asset_name: AssetNameView,
    pub tag: ToolInfoTagView,
}

impl View for ToolInfo {
    type V = ToolInfoView;

    open spec fn view(&self) -> ToolInfoView {
        ToolInfoView {
            owner: self.owner@,
            repo: self.repo@,
            exe_name: self.exe_name@,
            asset_name: self.asset_name@,
            tag: self.tag@,
        }
    }
}

} // verus!
