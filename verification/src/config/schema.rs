//! The configuration model: a store directory plus per-tool override records.

use vstd::prelude::*;

use crate::model::asset_name::opt_view;
use crate::model::asset_name::AssetName;
use crate::model::asset_name::AssetNameView;

verus! {

/// User intent to override or fully define installation of one tool. Every
/// field is independently optional; `exe_name` defaults to `repo` downstream
/// when absent.
#[derive(Debug, PartialEq, Eq)]
pub struct ConfigAsset {
    pub owner: Option<String>,
    pub repo: Option<String>,
    pub exe_name: Option<String>,
    pub asset_name: AssetName,
    pub tag: Option<String>,
}

/// Abstract value of a [`ConfigAsset`].
pub struct ConfigAssetView {
    pub owner: Option<Seq<char>>,
    pub repo: Option<Seq<char>>,
    pub exe_name: Option<Seq<char>>,
    pub asset_name: AssetNameView,
    pub tag: Option<Seq<char>>,
}

impl View for ConfigAsset {
    type V = ConfigAssetView;

    open spec fn view(&self) -> ConfigAssetView {
        ConfigAssetView {
            owner: opt_view(self.owner),
            repo: opt_view(self.repo),
            exe_name: opt_view(self.exe_name),
            asset_name: self.asset_name@,
            tag: opt_view(self.tag),
        }
    }
}

impl ConfigAssetView {
    /// The record with every override field absent.
    pub open spec fn empty() -> ConfigAssetView {
        ConfigAssetView {
            owner: None,
            repo: None,
            exe_name: None,
            asset_name: AssetNameView::empty(),
            tag: None,
        }
    }
}

/// Global configuration: the directory tools are installed into, and one
/// override record per configured tool, keyed by tool name. A key occurs at
/// most once; later bindings in the source document overwrite earlier ones.
#[derive(Debug, PartialEq, Eq)]
pub struct Config {
    /// Directory to store all locally downloaded tools; shell-expandable.
    pub store_directory: String,
    /// Override record of each configured tool.
    pub tools: Vec<(String, ConfigAsset)>,
}

/// Abstract value of a [`Config`].
pub struct ConfigView {
    pub store_directory: Seq<char>,
    pub tools: Seq<(Seq<char>, ConfigAssetView)>,
}

/// Abstract value of a tool mapping: each entry as key and record values.
pub open spec fn tools_view(tools: Seq<(String, ConfigAsset)>) -> Seq<
    (Seq<char>, ConfigAssetView),
> {
    tools.map_values(|p: (String, ConfigAsset)| (p.0@, p.1@))
}

impl View for Config {
    type V = ConfigView;

    open spec fn view(&self) -> ConfigView {
        ConfigView { store_directory: self.store_directory@, tools: tools_view(self.tools@) }
    }
}

} // verus!
