use std::io::Write;

use tool_sync::sync::archive::Archive;
use tool_sync::sync::archive::ArchiveType;
use tool_sync::sync::db::lookup_tool;
use tool_sync::sync::progress::SyncProgress;

fn targz_of_empty_archive() -> Vec<u8> {
    let builder = tar::Builder::new(Vec::new());
    let tar_bytes = builder.into_inner().unwrap();
    let mut encoder = flate2::write::GzEncoder::new(Vec::new(), flate2::Compression::default());
    encoder.write_all(&tar_bytes).unwrap();
    encoder.finish().unwrap()
}

fn zip_with_one_entry(name: &str, contents: &[u8]) -> Vec<u8> {
    let mut writer = zip::ZipWriter::new(std::io::Cursor::new(Vec::new()));
    let options = zip::write::SimpleFileOptions::default();
    writer.start_file(name, options).unwrap();
    writer.write_all(contents).unwrap();
    writer.finish().unwrap().into_inner()
}

#[test]
fn classify_tar_gz_strips_suffix() {
    let archive = Archive::from("a/foo.tar.gz", "tmp", "rg", "foo.tar.gz").unwrap();

    assert_eq!(archive.archive_type, ArchiveType::TarGz("foo".to_owned()));
    assert_eq!(archive.archive_path, "a/foo.tar.gz");
    assert_eq!(archive.tmp_dir, "tmp");
    assert_eq!(archive.exe_name, "rg");
}

#[test]
fn classify_zip_strips_suffix() {
    let archive = Archive::from("a/foo.zip", "tmp", "rg", "foo.zip").unwrap();

    assert_eq!(archive.archive_type, ArchiveType::Zip("foo".to_owned()));
}

#[test]
fn classify_rejects_unknown_suffix() {
    assert!(Archive::from("a/foo.rar", "tmp", "rg", "foo.rar").is_none());
}

#[test]
fn unpack_tar_gz_returns_path_under_stripped_suffix() {
    let data = targz_of_empty_archive();
    let archive = Archive::from("unused", ".", "mytool", "mytool-2.1.tar.gz").unwrap();

    let unpacked = archive.unpack(&data).unwrap();

    // The path is computed, not checked to exist after the unpack.
    assert_eq!(unpacked.tool_path, "./mytool-2.1/mytool");
    assert!(unpacked.payload.is_none());
}

#[test]
fn unpack_zip_reads_the_bin_entry() {
    let data = zip_with_one_entry("bin/rg", b"the executable bytes");
    let archive = Archive::from("unused", "tmp", "rg", "rg-x86.zip").unwrap();

    let unpacked = archive.unpack(&data).unwrap();

    assert_eq!(unpacked.tool_path, "tmp/rg");
    assert_eq!(unpacked.payload, Some(b"the executable bytes".to_vec()));
}

#[test]
fn unpack_zip_without_bin_entry_fails() {
    let data = zip_with_one_entry("rg", b"misplaced");
    let archive = Archive::from("unused", "tmp", "rg", "rg-x86.zip").unwrap();

    let res = archive.unpack(&data);

    assert!(res.is_err());
}

#[test]
fn unpack_garbage_tar_gz_fails() {
    let archive = Archive::from("unused", ".", "mytool", "mytool-2.1.tar.gz").unwrap();

    assert!(archive.unpack(b"not gzip data").is_err());
}

#[test]
fn unpack_garbage_zip_fails() {
    let archive = Archive::from("unused", "tmp", "rg", "rg-x86.zip").unwrap();

    assert!(archive.unpack(b"not a zip at all").is_err());
}

#[test]
fn lookup_known_tool() {
    let info = lookup_tool("ripgrep").unwrap();

    assert_eq!(info.owner, "BurntSushi");
    assert_eq!(info.repo, "ripgrep");
    assert_eq!(info.exe_name, "rg");
    assert_eq!(info.asset_name.linux, Some("unknown-linux-musl".to_owned()));
    assert_eq!(info.asset_name.macos, Some("apple-darwin".to_owned()));
    assert_eq!(info.asset_name.windows, Some("x86_64-pc-windows-msvc".to_owned()));
}

#[test]
fn lookup_tool_without_windows_build() {
    let info = lookup_tool("exa").unwrap();

    assert_eq!(info.asset_name.windows, None);
}

#[test]
fn lookup_unknown_tool() {
    assert!(lookup_tool("tokei").is_none());
}

#[test]
fn test_max_tag_size_specific() {
    let tags: Vec<String> = vec![
        String::from("v10.10.100"),
        String::from("latest"),
        String::from("latest"),
    ];
    let tools: Vec<String> = vec![
        String::from("ripgrep"),
        String::from("bat"),
        String::from("exa"),
    ];

    let progres = SyncProgress::new(tools, tags);

    // v10.10.100 is 10 characters
    assert_eq!(progres.max_tag_size, 10);
    // ripgrep is 7 characters
    assert_eq!(progres.max_tool_size, 7);
}

#[test]
fn test_max_tag_size_latest() {
    let tags: Vec<String> = vec![
        String::from("latest"),
        String::from("latest"),
        String::from("latest"),
    ];
    let tools: Vec<String> = vec![
        String::from("ripgrep"),
        String::from("bat"),
        String::from("exa"),
    ];

    let progres = SyncProgress::new(tools, tags);

    // latest is 6 characters so it should default to 8
    assert_eq!(progres.max_tag_size, 8);
    // ripgrep is 7 characters
    assert_eq!(progres.max_tool_size, 7);
}

#[test]
fn tag_width_floors_with_no_tags() {
    let progress = SyncProgress::new(vec![String::from("bat")], Vec::new());

    assert_eq!(progress.max_tag_size, 8);
    assert_eq!(progress.max_tool_size, 3);
}

#[test]
fn fmt_prefix_pads_both_columns() {
    let progress = SyncProgress::new(vec![String::from("bat")], vec![String::from("v1")]);

    let prefix = progress.fmt_prefix("* ", "bat", "v1");

    assert_eq!(prefix, "* bat v1      ");
}
