//! Reading a configuration document out of TOML text. Tokenization is the
//! parser crate's business and is trusted; everything after it — converting
//! the parsed tree into the document model and decoding that model — is
//! verified. TOML parsing is a function of the text alone, so the document a
//! text denotes bears a name, [`toml_doc_of`], and the contracts here are
//! exact over it.

use vstd::prelude::*;

use crate::config::decode::decode_config;
use crate::config::decode::decode_ok;
use crate::config::decode::decoded_config;
use crate::config::decode::lemma_decode_trunc;
use crate::config::document::doc_truncate;
use crate::config::document::doc_view;
use crate::config::document::entries_view;
use crate::config::document::trunc_entries;
use crate::config::document::DocView;
use crate::config::document::TomlValue;
use crate::config::schema::Config;
use vstd::string::StringExecFns;

verus! {

broadcast use crate::config::document::lemma_entries_view;

/// How reading a configuration can fail: an unreadable file, text that is
/// not valid TOML, or a document without the required shape. Parse errors
/// and decode errors are distinct and reported apart.
#[derive(Debug, PartialEq, Eq)]
pub enum TomlError {
    IO(String),
    Parse(String),
    Decode,
}

impl TomlError {
    /// A human-readable rendering of the error.
    pub fn display(&self) -> (r: String)
        ensures
            self matches TomlError::IO(m) ==> r@ == "[IO Error] "@ + m@,
            self matches TomlError::Parse(m) ==> r@ == "[Parsing Error] "@ + m@,
            self is Decode ==> r@ == "[Decode Error]"@,
    {
        match self {
            TomlError::IO(m) => {
                let mut s = String::from_str("[IO Error] ");
                s.append(m.as_str());
                s
            },
            TomlError::Parse(m) => {
                let mut s = String::from_str("[Parsing Error] ");
                s.append(m.as_str());
                s
            },
            TomlError::Decode => String::from_str("[Decode Error]"),
        }
    }
}

#[verifier::external_type_specification]
#[verifier::external_body]
pub struct ExTomlParsedValue(toml::Value);

/// The document that TOML text denotes, when the text is valid TOML: a
/// function of the text alone.
pub uninterp spec fn toml_doc_of(s: Seq<char>) -> Option<DocView>;

/// What a parsed TOML value holds, as a document node: a function of the
/// value alone, read out through the three accessors below.
pub uninterp spec fn toml_value_model(v: toml::Value) -> DocView;

/// Relies on `str::parse::<toml::Table>` (the toml crate's `FromStr`):
/// parsing succeeds exactly on valid TOML text and yields the text's
/// document; on invalid syntax the error is rendered to its message.
#[verifier::external_body]
fn parse_toml_value(contents: &str) -> (r: Result<toml::Value, String>)
    ensures
        r is Ok <==> toml_doc_of(contents@) is Some,
        r matches Ok(v) ==> Some(toml_value_model(v)) == toml_doc_of(contents@),
{
    match contents.parse::<toml::Table>() {
        Ok(table) => Ok(toml::Value::Table(table)),
        Err(e) => Err(e.to_string()),
    }
}

/// Relies on `toml::Value::as_str`: `Some` exactly when the value is a TOML
/// string, handed out as an owned copy.
#[verifier::external_body]
fn value_as_string(v: &toml::Value) -> (r: Option<String>)
    ensures
        r is Some <==> toml_value_model(*v) is Str,
        r matches Some(s) ==> toml_value_model(*v) == DocView::Str(s@),
{
    v.as_str().map(String::from)
}

/// Relies on `toml::Value::as_table`: `Some` exactly when the value is a
/// TOML table; its entries come out in the table's own (key-sorted) order,
/// each key at most once, as cloned pairs.
#[verifier::external_body]
fn value_table_entries(v: &toml::Value) -> (r: Option<Vec<(String, toml::Value)>>)
    ensures
        r is Some <==> toml_value_model(*v) is Table,
        r matches Some(es) ==> (toml_value_model(*v) matches DocView::Table(m) && m.len()
            == es@.len() && forall|i: int|
            0 <= i < es@.len() ==> m[i] == (es@[i].0@, toml_value_model(#[trigger] es@[i].1))),
{
    v.as_table().map(|t| t.iter().map(|(k, x)| (k.clone(), x.clone())).collect())
}

/// How deep [`to_document`] follows nested tables. The decoder reads at most
/// four levels (top-level table, tool table, `asset_name` table, its string
/// fields), so by [`lemma_decode_trunc`] the cut cannot change what a
/// document decodes to.
const DOCUMENT_DEPTH: u64 = 16;

/// Converts a parsed TOML tree into the document model, keeping strings and
/// tables and collapsing every other kind of value — and any nesting beyond
/// `depth` — into [`TomlValue::Other`].
fn to_document(v: &toml::Value, depth: u64) -> (r: TomlValue)
    ensures
        doc_view(r) == doc_truncate(toml_value_model(*v), depth as nat),
    decreases depth,
{
    if depth == 0 {
        return TomlValue::Other;
    }
    match value_as_string(v) {
        Some(s) => TomlValue::Str(s),
        None => match value_table_entries(v) {
            Some(entries) => {
                let ghost m = toml_value_model(*v)->Table_0;
                let mut out: Vec<(String, TomlValue)> = Vec::new();
                let mut i: usize = 0;
                while i < entries.len()
                    invariant
                        depth >= 1,
                        i <= entries@.len(),
                        m.len() == entries@.len(),
                        forall|k: int|
                            0 <= k < entries@.len() ==> m[k] == (
                                entries@[k].0@,
                                toml_value_model(#[trigger] entries@[k].1),
                            ),
                        out@.len() == i,
                        entries_view(out@) =~= trunc_entries(m, (depth - 1) as nat).take(i as int),
                    decreases entries.len() - i,
                {
                    let child = to_document(&entries[i].1, depth - 1);
                    out.push((entries[i].0.clone(), child));
                    proof {
                        assert(entries_view(out@) =~= trunc_entries(m, (depth - 1) as nat).take(
                            i + 1,
                        ));
                    }
                    i += 1;
                }
                proof {
                    assert(entries_view(out@) =~= trunc_entries(m, (depth - 1) as nat));
                }
                TomlValue::Table(out)
            },
            None => TomlValue::Other,
        },
    }
}

/// Parses TOML text and decodes it into a configuration. A parse error comes
/// back exactly for text that is not valid TOML; a valid document yields its
/// decoded configuration exactly when decoding succeeds, and the decode
/// error otherwise. The two error kinds are never conflated.
pub fn parse_string(contents: &str) -> (r: Result<Config, TomlError>)
    ensures
        r matches Err(TomlError::Parse(_)) <==> toml_doc_of(contents@) is None,
        toml_doc_of(contents@) matches Some(d) ==> ((r is Ok) <==> decode_ok(d)),
        toml_doc_of(contents@) matches Some(d) ==> (r matches Err(e) ==> e is Decode),
        toml_doc_of(contents@) matches Some(d) ==> (r matches Ok(c) ==> c@ == decoded_config(d)),
{
    match parse_toml_value(contents) {
        Err(m) => Err(TomlError::Parse(m)),
        Ok(v) => {
            let doc = to_document(&v, DOCUMENT_DEPTH);
            proof {
                lemma_decode_trunc(toml_value_model(v), DOCUMENT_DEPTH as nat);
            }
            match decode_config(&doc) {
                None => Err(TomlError::Decode),
                Some(config) => Ok(config),
            }
        },
    }
}

} // verus!
