//! Classifying a downloaded release asset by its archive container format,
//! and extracting the named executable out of it.
//!
//! Two container formats are supported, recognised by the asset name's
//! suffix: a gzip-compressed tar stream (`.tar.gz`) and a zip file (`.zip`).
//! Any other suffix is an unsupported format and yields no [`Archive`].

use vstd::prelude::*;

use crate::text::ends_with;
use crate::text::strip_suffix_of;
use vstd::string::StringExecFns;

verus! {

/// Archive container format, carrying the asset name with the recognised
/// suffix stripped: the base directory fragment used to locate the payload.
#[derive(Debug, PartialEq, Eq)]
pub enum ArchiveType {
    /// A zip file.
    Zip(String),
    /// A gzip-compressed tar stream.
    TarGz(String),
}

/// Abstract value of an [`ArchiveType`].
pub enum ArchiveTypeView {
    Zip(Seq<char>),
    TarGz(Seq<char>),
}

impl View for ArchiveType {
    type V = ArchiveTypeView;

    open spec fn view(&self) -> ArchiveTypeView {
        match self {
            ArchiveType::Zip(base) => ArchiveTypeView::Zip(base@),
            ArchiveType::TarGz(base) => ArchiveTypeView::TarGz(base@),
        }
    }
}

/// The container format an asset name denotes: the `.tar.gz` suffix is
/// tried first, then `.zip`; the remainder becomes the base fragment.
pub open spec fn classify_spec(asset_name: Seq<char>) -> Option<ArchiveTypeView> {
    if ends_with(asset_name, ".tar.gz"@) {
        Some(ArchiveTypeView::TarGz(asset_name.take(asset_name.len() - ".tar.gz"@.len())))
    } else if ends_with(asset_name, ".zip"@) {
        Some(ArchiveTypeView::Zip(asset_name.take(asset_name.len() - ".zip"@.len())))
    } else {
        None
    }
}

/// One extraction operation: the downloaded file, the temporary directory to
/// extract into, the executable to pull out, and the container format.
#[derive(Debug, PartialEq, Eq)]
pub struct Archive {
    pub archive_path: String,
    pub tmp_dir: String,
    pub exe_name: String,
    pub archive_type: ArchiveType,
}

/// Abstract value of an [`Archive`].
pub struct ArchiveView {
    pub archive_path: Seq<char>,
    pub tmp_dir: Seq<char>,
    pub exe_name: Seq<char>,
    pub archive_type: ArchiveTypeView,
}

impl View for Archive {
    type V = ArchiveView;

    open spec fn view(&self) -> ArchiveView {
        ArchiveView {
            archive_path: self.archive_path@,
            tmp_dir: self.tmp_dir@,
            exe_name: self.exe_name@,
            archive_type: self.archive_type@,
        }
    }
}

/// The path extraction leaves the executable at: under the base directory
/// the tar container expands to, or directly under the temporary directory
/// for a zip.
pub open spec fn tool_path_spec(a: ArchiveView) -> Seq<char> {
    match a.archive_type {
        ArchiveTypeView::TarGz(base) => a.tmp_dir + "/"@ + base + "/"@ + a.exe_name,
        ArchiveTypeView::Zip(_) => a.tmp_dir + "/"@ + a.exe_name,
    }
}

/// The fixed path a zip archive must hold the executable at.
pub open spec fn zip_entry_name_spec(exe_name: Seq<char>) -> Seq<char> {
    "bin/"@ + exe_name
}

/// What extraction produced: the path the executable belongs at, and, for a
/// zip, the entry's bytes, which the caller materialises at that path. For a
/// tar container the whole tree is already on disk and `payload` is absent.
pub struct Unpacked {
    pub tool_path: String,
    pub payload: Option<Vec<u8>>,
}

/// An extraction failure, carrying the underlying error's message verbatim.
#[derive(Debug)]
pub struct ArchiveError {
    pub message: String,
}

/// The bytes of the entry called `name` inside the zip archive `data`, when
/// the archive is well formed and holds one: a function of the bytes and the
/// name alone.
pub uninterp spec fn zip_entry_of(data: Seq<u8>, name: Seq<char>) -> Option<Seq<u8>>;

/// Relies on `zip::ZipArchive::new` over an in-memory reader,
/// `ZipArchive::by_name` and `std::io::Read::read_to_end`: the named entry's
/// bytes are determined by the archive bytes and the name alone; any failure
/// (not a zip, entry absent, corrupt stream) is reported as the error's
/// message, and nothing is written anywhere.
#[verifier::external_body]
fn zip_read_entry(data: &[u8], name: &str) -> (r: Result<Vec<u8>, String>)
    ensures
        r matches Ok(bytes) ==> zip_entry_of(data@, name@) == Some(bytes@),
        r is Err <==> zip_entry_of(data@, name@) is None,
{
    let cursor = std::io::Cursor::new(data);
    let mut archive = match zip::ZipArchive::new(cursor) {
        Ok(a) => a,
        Err(e) => return Err(e.to_string()),
    };
    let mut entry = match archive.by_name(name) {
        Ok(f) => f,
        Err(e) => return Err(e.to_string()),
    };
    let mut out: Vec<u8> = Vec::new();
    match std::io::Read::read_to_end(&mut entry, &mut out) {
        Ok(_) => Ok(out),
        Err(e) => Err(e.to_string()),
    }
}

/// Relies on `flate2::read::GzDecoder`, `tar::Archive::new` and
/// `tar::Archive::unpack`: decompresses the gzip stream and unpacks every
/// entry of the tar container beneath `dest`, creating it when missing. The
/// outcome depends on the filesystem, so nothing more is stated of it.
#[verifier::external_body]
fn targz_unpack_all(data: &[u8], dest: &str) -> (r: Result<(), String>) {
    let decoder = flate2::read::GzDecoder::new(data);
    let mut archive = tar::Archive::new(decoder);
    match archive.unpack(dest) {
        Ok(_) => Ok(()),
        Err(e) => Err(e.to_string()),
    }
}

impl Archive {
    /// Classifies an asset by its name: `Some` exactly when the name ends in
    /// one of the two recognised suffixes, with the stripped remainder as the
    /// base fragment.
    pub fn from(archive_path: &str, tmp_dir: &str, exe_name: &str, asset_name: &str) -> (r: Option<
        Archive,
    >)
        ensures
            r is Some <==> classify_spec(asset_name@) is Some,
            r matches Some(a) ==> a@.archive_path == archive_path@ && a@.tmp_dir == tmp_dir@
                && a@.exe_name == exe_name@ && classify_spec(asset_name@) == Some(a@.archive_type),
    {
        let archive_type = match strip_suffix_of(asset_name, ".tar.gz") {
            Some(base) => ArchiveType::TarGz(base),
            None => match strip_suffix_of(asset_name, ".zip") {
                Some(base) => ArchiveType::Zip(base),
                None => {
                    return None;
                },
            },
        };
        Some(
            Archive {
                archive_path: archive_path.to_owned(),
                tmp_dir: tmp_dir.to_owned(),
                exe_name: exe_name.to_owned(),
                archive_type,
            },
        )
    }

    /// Extracts the executable from the archive's bytes. For a tar container
    /// the whole tree is expanded beneath the temporary directory and the
    /// executable's path is computed, not checked to exist; for a zip, the
    /// single entry `bin/{exe_name}` is read out and handed back, failing
    /// when it is absent. Either way the returned path is
    /// [`tool_path_spec`]'s value.
    pub fn unpack(&self, data: &[u8]) -> (r: Result<Unpacked, ArchiveError>)
        ensures
            r matches Ok(u) ==> u.tool_path@ == tool_path_spec(self@),
            r matches Ok(u) ==> match self@.archive_type {
                ArchiveTypeView::TarGz(_) => u.payload is None,
                ArchiveTypeView::Zip(_) => u.payload matches Some(bytes) && Some(bytes@)
                    == zip_entry_of(data@, zip_entry_name_spec(self@.exe_name)),
            },
            self@.archive_type matches ArchiveTypeView::Zip(_) ==> ((r is Err) <==> zip_entry_of(
                data@,
                zip_entry_name_spec(self@.exe_name),
            ) is None),
    {
        match &self.archive_type {
            ArchiveType::TarGz(base) => {
                if let Err(message) = targz_unpack_all(data, self.tmp_dir.as_str()) {
                    return Err(ArchiveError { message });
                }
                let mut tool_path = self.tmp_dir.clone();
                tool_path.append("/");
                tool_path.append(base.as_str());
                tool_path.append("/");
                tool_path.append(self.exe_name.as_str());
                Ok(Unpacked { tool_path, payload: None })
            },
            ArchiveType::Zip(_) => {
                let mut entry_name = String::from_str("bin/");
                entry_name.append(self.exe_name.as_str());
                match zip_read_entry(data, entry_name.as_str()) {
                    Ok(bytes) => {
                        let mut tool_path = self.tmp_dir.clone();
                        tool_path.append("/");
                        tool_path.append(self.exe_name.as_str());
                        Ok(Unpacked { tool_path, payload: Some(bytes) })
                    },
                    Err(message) => Err(ArchiveError { message }),
                }
            },
        }
    }
}

} // verus!
