//! The builtin registry: a fixed, compiled-in mapping from tool name to a
//! fully-specified installation descriptor, used as the default wherever the
//! configuration omits fields.

use vstd::prelude::*;

use crate::model::asset_name::AssetName;
use crate::model::asset_name::AssetNameView;
use crate::model::tool::ToolInfo;
use crate::model::tool::ToolInfoTag;
use crate::model::tool::ToolInfoTagView;
use crate::model::tool::ToolInfoView;
use crate::text::str_eq;

verus! {

/// The registry as a mathematical function: the descriptor a tool name maps
/// to, or nothing for a name the registry does not know.
pub open spec fn builtin_tool(tool_name: Seq<char>) -> Option<ToolInfoView> {
    if tool_name == "bat"@ {
        Some(
            ToolInfoView {
                owner: "sharkdp"@,
                repo: "bat"@,
                exe_name: "bat"@,
                asset_name: AssetNameView {
                    linux: Some("x86_64-unknown-linux-musl"@),
                    macos: Some("x86_64-apple-darwin"@),
                    windows: Some("x86_64-pc-windows-msvc"@),
                },
                tag: ToolInfoTagView::Latest,
            },
        )
    } else if tool_name == "difftastic"@ {
        Some(
            ToolInfoView {
                owner: "Wilfred"@,
                repo: "difftastic"@,
                exe_name: "difft"@,
                asset_name: AssetNameView {
                    linux: Some("x86_64-unknown-linux-gnu"@),
                    macos: Some("x86_64-apple-darwin"@),
                    windows: Some("x86_64-pc-windows-msvc"@),
                },
                tag: ToolInfoTagView::Latest,
            },
        )
    } else if tool_name == "exa"@ {
        Some(
            ToolInfoView {
                owner: "ogham"@,
                repo: "exa"@,
                exe_name: "exa"@,
                asset_name: AssetNameView {
                    linux: Some("linux-x86_64-musl"@),
                    macos: Some("macos-x86_64"@),
                    windows: None,
                },
                tag: ToolInfoTagView::Latest,
            },
        )
    } else if tool_name == "fd"@ {
        Some(
            ToolInfoView {
                owner: "sharkdp"@,
                repo: "fd"@,
                exe_name: "fd"@,
                asset_name: AssetNameView {
                    linux: Some("x86_64-unknown-linux-musl"@),
                    macos: Some("x86_64-apple-darwin"@),
                    windows: Some("x86_64-pc-windows-msvc"@),
                },
                tag: ToolInfoTagView::Latest,
            },
        )
    } else if tool_name == "ripgrep"@ {
        Some(
            ToolInfoView {
                owner: "BurntSushi"@,
                repo: "ripgrep"@,
                exe_name: "rg"@,
                asset_name: AssetNameView {
                    linux: Some("unknown-linux-musl"@),
                    macos: Some("apple-darwin"@),
                    windows: Some("x86_64-pc-windows-msvc"@),
                },
                tag: ToolInfoTagView::Latest,
            },
        )
    } else if tool_name == "tool-sync"@ {
        Some(
            ToolInfoView {
                owner: "chshersh"@,
                repo: "tool-sync"@,
                exe_name: "tool"@,
                asset_name: AssetNameView {
                    linux: Some("x86_64-unknown-linux-gnu"@),
                    macos: Some("x86_64-apple-darwin"@),
                    windows: Some("x86_64-pc-windows-msvc"@),
                },
                tag: ToolInfoTagView::Latest,
            },
        )
    } else {
        None
    }
}

/// Gets the descriptor of a known tool from the builtin registry. A pure
/// lookup over fixed data: an unknown name returns nothing, and the caller
/// must treat that as "the configuration has to fully specify this tool".
pub fn lookup_tool(tool_name: &str) -> (r: Option<ToolInfo>)
    ensures
        r is Some <==> builtin_tool(tool_name@) is Some,
        r matches Some(info) ==> builtin_tool(tool_name@) == Some(info@),
{
    if str_eq(tool_name, "bat") {
        Some(
            ToolInfo {
                owner: "sharkdp".to_owned(),
                repo: "bat".to_owned(),
                exe_name: "bat".to_owned(),
                asset_name: AssetName {
                    linux: Some("x86_64-unknown-linux-musl".to_owned()),
                    macos: Some("x86_64-apple-darwin".to_owned()),
                    windows: Some("x86_64-pc-windows-msvc".to_owned()),
                },
                tag: ToolInfoTag::Latest,
            },
        )
    } else if str_eq(tool_name, "difftastic") {
        Some(
            ToolInfo {
                owner: "Wilfred".to_owned(),
                repo: "difftastic".to_owned(),
                exe_name: "difft".to_owned(),
                asset_name: AssetName {
                    linux: Some("x86_64-unknown-linux-gnu".to_owned()),
                    macos: Some("x86_64-apple-darwin".to_owned()),
                    windows: Some("x86_64-pc-windows-msvc".to_owned()),
                },
                tag: ToolInfoTag::Latest,
            },
        )
    } else if str_eq(tool_name, "exa") {
        Some(
            ToolInfo {
                owner: "ogham".to_owned(),
                repo: "exa".to_owned(),
                exe_name: "exa".to_owned(),
                asset_name: AssetName {
                    linux: Some("linux-x86_64-musl".to_owned()),
                    macos: Some("macos-x86_64".to_owned()),
                    windows: None,
                },
                tag: ToolInfoTag::Latest,
            },
        )
    } else if str_eq(tool_name, "fd") {
        Some(
            ToolInfo {
                owner: "sharkdp".to_owned(),
                repo: "fd".to_owned(),
                exe_name: "fd".to_owned(),
                asset_name: AssetName {
                    linux: Some("x86_64-unknown-linux-musl".to_owned()),
                    macos: Some("x86_64-apple-darwin".to_owned()),
                    windows: Some("x86_64-pc-windows-msvc".to_owned()),
                },
                tag: ToolInfoTag::Latest,
            },
        )
    } else if str_eq(tool_name, "ripgrep") {
        Some(
            ToolInfo {
                owner: "BurntSushi".to_owned(),
                repo: "ripgrep".to_owned(),
                exe_name: "rg".to_owned(),
                asset_name: AssetName {
                    linux: Some("unknown-linux-musl".to_owned()),
                    macos: Some("apple-darwin".to_owned()),
                    windows: Some("x86_64-pc-windows-msvc".to_owned()),
                },
                tag: ToolInfoTag::Latest,
            },
        )
    } else if str_eq(tool_name, "tool-sync") {
        Some(
            ToolInfo {
                owner: "chshersh".to_owned(),
                repo: "tool-sync".to_owned(),
                exe_name: "tool".to_owned(),
                asset_name: AssetName {
                    linux: Some("x86_64-unknown-linux-gnu".to_owned()),
                    macos: Some("x86_64-apple-darwin".to_owned()),
                    windows: Some("x86_64-pc-windows-msvc".to_owned()),
                },
                tag: ToolInfoTag::Latest,
            },
        )
    } else {
        None
    }
}

} // verus!
