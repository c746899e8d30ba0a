use tool_sync::config::document::TomlValue;
use tool_sync::config::decode::decode_config;
use tool_sync::config::parse::parse_string;
use tool_sync::config::parse::TomlError;
use tool_sync::config::schema::Config;
use tool_sync::config::schema::ConfigAsset;
use tool_sync::model::asset_name::AssetName;

fn empty_asset() -> ConfigAsset {
    ConfigAsset {
        owner: None,
        repo: None,
        exe_name: None,
        asset_name: AssetName { linux: None, macos: None, windows: None },
        tag: None,
    }
}

#[test]
fn empty_file() {
    let toml = "";
    let res = parse_string(toml);

    assert_eq!(res, Err(TomlError::Decode));
}

#[test]
fn store_directory_is_dotted() {
    let toml = "store.directory = \"pancake\"";
    let res = parse_string(toml);

    assert_eq!(res, Err(TomlError::Decode));
}

#[test]
fn store_directory_is_a_number() {
    let toml = "store_directory = 42";
    let res = parse_string(toml);

    assert_eq!(res, Err(TomlError::Decode));
}

#[test]
fn only_store_directory() {
    let toml = "store_directory = \"pancake\"";
    let res = parse_string(toml);

    let cfg = Config { store_directory: String::from("pancake"), tools: Vec::new() };

    assert_eq!(res, Ok(cfg));
}

#[test]
fn single_empty_tool() {
    let toml = r#"
            store_directory = "pancake"

            [ripgrep]
        "#;

    let res = parse_string(toml);

    let cfg = Config {
        store_directory: String::from("pancake"),
        tools: vec![("ripgrep".to_owned(), empty_asset())],
    };

    assert_eq!(res, Ok(cfg));
}

#[test]
fn two_empty_tools() {
    let toml = r#"
            store_directory = "pancake"

            [ripgrep]
            [bat]
        "#;

    let res = parse_string(toml);

    let cfg = Config {
        store_directory: String::from("pancake"),
        tools: vec![("bat".to_owned(), empty_asset()), ("ripgrep".to_owned(), empty_asset())],
    };

    assert_eq!(res, Ok(cfg));
}

#[test]
fn single_partial_tool() {
    let toml = r#"
            store_directory = "pancake"

            [ripgrep]
            owner = "me"
            asset_name.linux = "R2D2"
        "#;

    let res = parse_string(toml);

    let cfg = Config {
        store_directory: String::from("pancake"),
        tools: vec![(
            "ripgrep".to_owned(),
            ConfigAsset {
                owner: Some("me".to_owned()),
                repo: None,
                exe_name: None,
                asset_name: AssetName {
                    linux: Some("R2D2".to_owned()),
                    macos: None,
                    windows: None,
                },
                tag: None,
            },
        )],
    };

    assert_eq!(res, Ok(cfg));
}

#[test]
fn single_full_tool() {
    let toml = r#"
            store_directory = "pancake"

            [ripgrep]
            owner = "me"
            repo = "some_repo"
            exe_name = "rg"
            asset_name.linux = "R2D2"
            asset_name.macos = "C3-PO"
            asset_name.windows = "IG-88"
            tag = "4.2.0"
        "#;

    let res = parse_string(toml);

    let cfg = Config {
        store_directory: String::from("pancake"),
        tools: vec![(
            "ripgrep".to_owned(),
            ConfigAsset {
                owner: Some("me".to_owned()),
                repo: Some("some_repo".to_owned()),
                exe_name: Some("rg".to_owned()),
                asset_name: AssetName {
                    linux: Some("R2D2".to_owned()),
                    macos: Some("C3-PO".to_owned()),
                    windows: Some("IG-88".to_owned()),
                },
                tag: Some("4.2.0".to_owned()),
            },
        )],
    };

    assert_eq!(res, Ok(cfg));
}

#[test]
fn parse_error_is_distinct_from_decode_error() {
    let res = parse_string("=");

    assert!(matches!(res, Err(TomlError::Parse(_))));
}

#[test]
fn decode_rejects_non_table_document() {
    let doc = TomlValue::Str("store_directory".to_owned());

    assert_eq!(decode_config(&doc), None);
}

#[test]
fn decode_later_duplicate_key_overwrites_earlier() {
    let doc = TomlValue::Table(vec![
        ("store_directory".to_owned(), TomlValue::Str("pancake".to_owned())),
        (
            "ripgrep".to_owned(),
            TomlValue::Table(vec![("owner".to_owned(), TomlValue::Str("first".to_owned()))]),
        ),
        (
            "ripgrep".to_owned(),
            TomlValue::Table(vec![("owner".to_owned(), TomlValue::Str("second".to_owned()))]),
        ),
    ]);

    let cfg = decode_config(&doc).unwrap();

    assert_eq!(cfg.tools.len(), 1);
    assert_eq!(cfg.tools[0].0, "ripgrep");
    assert_eq!(cfg.tools[0].1.owner, Some("second".to_owned()));
}

#[test]
fn decode_skips_scalar_keys_and_keeps_wrong_typed_fields_absent() {
    let toml = r#"
            store_directory = "pancake"
            stray = 3

            [bat]
            owner = 17
            asset_name = "not-a-table"
        "#;

    let res = parse_string(toml);

    let cfg = Config {
        store_directory: String::from("pancake"),
        tools: vec![("bat".to_owned(), empty_asset())],
    };

    assert_eq!(res, Ok(cfg));
}

#[test]
fn empty_asset_name_table_decodes_like_an_absent_one() {
    let toml = r#"
            store_directory = "pancake"

            [bat]
            asset_name = {}
        "#;

    let res = parse_string(toml);

    let cfg = Config {
        store_directory: String::from("pancake"),
        tools: vec![("bat".to_owned(), empty_asset())],
    };

    assert_eq!(res, Ok(cfg));
}

#[test]
fn display_decode_error() {
    assert_eq!(TomlError::Decode.display(), "[Decode Error]");
}

#[test]
fn display_io_error() {
    assert_eq!(TomlError::IO("gone".to_owned()).display(), "[IO Error] gone");
}

#[test]
fn display_parse_error() {
    assert_eq!(TomlError::Parse("bad".to_owned()).display(), "[Parsing Error] bad");
}
