//! Decoding of an untyped configuration document into the configuration
//! model. Decoding is permissive: a field of the wrong type counts as absent.
//! Only two conditions fail it: the document is not a table, or the
//! `store_directory` key is missing or not a string.

use vstd::prelude::*;

use crate::config::document::doc_truncate;
use crate::config::document::doc_view;
use crate::config::document::entries_view;
use crate::config::document::table_get;
use crate::config::document::table_get_ref;
use crate::config::document::trunc_entries;
use crate::config::document::DocView;
use crate::config::document::TomlValue;
use crate::config::schema::tools_view;
use crate::config::schema::Config;
use crate::config::schema::ConfigAsset;
use crate::config::schema::ConfigAssetView;
use crate::config::schema::ConfigView;
use crate::model::asset_name::opt_view;
use crate::model::asset_name::AssetName;
use crate::model::asset_name::AssetNameView;
use crate::text::str_eq;

verus! {

broadcast use crate::config::document::lemma_entries_view;

/// The string bound to `key` among `entries`, when there is one.
pub open spec fn str_by_key_spec(entries: Seq<(Seq<char>, DocView)>, key: Seq<char>) -> Option<
    Seq<char>,
> {
    match table_get(entries, key) {
        Some(DocView::Str(s)) => Some(s),
        _ => None,
    }
}

/// The asset-name record decoded from a tool table: the `asset_name`
/// sub-table field by field when it is present, all fragments absent
/// otherwise.
pub open spec fn asset_name_spec(entries: Seq<(Seq<char>, DocView)>) -> AssetNameView {
    match table_get(entries, "asset_name"@) {
        Some(DocView::Table(t)) => AssetNameView {
            linux: str_by_key_spec(t, "linux"@),
            macos: str_by_key_spec(t, "macos"@),
            windows: str_by_key_spec(t, "windows"@),
        },
        _ => AssetNameView::empty(),
    }
}

/// The override record decoded from one tool table.
pub open spec fn asset_spec(entries: Seq<(Seq<char>, DocView)>) -> ConfigAssetView {
    ConfigAssetView {
        owner: str_by_key_spec(entries, "owner"@),
        repo: str_by_key_spec(entries, "repo"@),
        exe_name: str_by_key_spec(entries, "exe_name"@),
        asset_name: asset_name_spec(entries),
        tag: str_by_key_spec(entries, "tag"@),
    }
}

/// Some entry of `tools` is keyed by `key`.
pub open spec fn has_tool(tools: Seq<(Seq<char>, ConfigAssetView)>, key: Seq<char>) -> bool {
    exists|i: int| 0 <= i < tools.len() && tools[i].0 == key
}

/// Binds `key` to `asset` in `tools`: replaces the first entry with that key,
/// or appends when the key is new.
pub open spec fn upsert(
    tools: Seq<(Seq<char>, ConfigAssetView)>,
    key: Seq<char>,
    asset: ConfigAssetView,
) -> Seq<(Seq<char>, ConfigAssetView)>
    decreases tools.len(),
{
    if tools.len() == 0 {
        seq![(key, asset)]
    } else if tools.first().0 == key {
        seq![(key, asset)] + tools.drop_first()
    } else {
        seq![tools.first()] + upsert(tools.drop_first(), key, asset)
    }
}

proof fn lemma_upsert_update(
    tools: Seq<(Seq<char>, ConfigAssetView)>,
    key: Seq<char>,
    asset: ConfigAssetView,
    j: int,
)
    requires
        0 <= j < tools.len(),
        tools[j].0 == key,
        forall|i: int| 0 <= i < j ==> tools[i].0 != key,
    ensures
        upsert(tools, key, asset) == tools.update(j, (key, asset)),
    decreases tools.len(),
{
    if j == 0 {
        assert(seq![(key, asset)] + tools.drop_first() =~= tools.update(0, (key, asset)));
    } else {
        assert(forall|i: int|
            0 <= i < j - 1 ==> tools.drop_first()[i].0 == tools[i + 1].0 && tools[i + 1].0
                != key);
        lemma_upsert_update(tools.drop_first(), key, asset, j - 1);
        assert(seq![tools.first()] + tools.drop_first().update(j - 1, (key, asset)) =~= tools.update(
            j,
            (key, asset),
        ));
    }
}

proof fn lemma_upsert_push(
    tools: Seq<(Seq<char>, ConfigAssetView)>,
    key: Seq<char>,
    asset: ConfigAssetView,
)
    requires
        !has_tool(tools, key),
    ensures
        upsert(tools, key, asset) == tools.push((key, asset)),
    decreases tools.len(),
{
    if tools.len() == 0 {
        assert(seq![(key, asset)] =~= tools.push((key, asset)));
    } else {
        assert(!has_tool(tools.drop_first(), key)) by {
            assert(forall|i: int|
                0 <= i < tools.drop_first().len() ==> tools.drop_first()[i].0 == tools[i + 1].0);
        }
        lemma_upsert_push(tools.drop_first(), key, asset);
        assert(seq![tools.first()] + tools.drop_first().push((key, asset)) =~= tools.push(
            (key, asset),
        ));
    }
}

/// The tool mapping decoded from the top-level entries: each table-valued
/// entry becomes an override record under its key, processed in order, later
/// bindings overwriting earlier ones; entries of any other kind are skipped.
pub open spec fn tools_spec(entries: Seq<(Seq<char>, DocView)>) -> Seq<
    (Seq<char>, ConfigAssetView),
>
    decreases entries.len(),
{
    if entries.len() == 0 {
        Seq::empty()
    } else {
        let prev = tools_spec(entries.drop_last());
        match entries.last().1 {
            DocView::Table(t) => upsert(prev, entries.last().0, asset_spec(t)),
            _ => prev,
        }
    }
}

/// Table-valued entries among `entries`.
pub open spec fn num_tables(entries: Seq<(Seq<char>, DocView)>) -> nat
    decreases entries.len(),
{
    if entries.len() == 0 {
        0
    } else if entries.last().1 is Table {
        num_tables(entries.drop_last()) + 1
    } else {
        num_tables(entries.drop_last())
    }
}

proof fn lemma_upsert_keys(
    tools: Seq<(Seq<char>, ConfigAssetView)>,
    key: Seq<char>,
    asset: ConfigAssetView,
)
    ensures
        forall|k: Seq<char>|
            has_tool(upsert(tools, key, asset), k) ==> k == key || has_tool(tools, k),
    decreases tools.len(),
{
    if tools.len() == 0 {
    } else if tools.first().0 == key {
        assert forall|k: Seq<char>| has_tool(upsert(tools, key, asset), k) implies k == key
            || has_tool(tools, k) by {
            let i = choose|i: int|
                0 <= i < upsert(tools, key, asset).len() && upsert(tools, key, asset)[i].0 == k;
            if i > 0 {
                assert(tools[i].0 == k);
            }
        }
    } else {
        lemma_upsert_keys(tools.drop_first(), key, asset);
        assert forall|k: Seq<char>| has_tool(upsert(tools, key, asset), k) implies k == key
            || has_tool(tools, k) by {
            let i = choose|i: int|
                0 <= i < upsert(tools, key, asset).len() && upsert(tools, key, asset)[i].0 == k;
            if i == 0 {
                assert(tools[0].0 == k);
            } else {
                assert(upsert(tools.drop_first(), key, asset)[i - 1].0 == k);
                assert(has_tool(upsert(tools.drop_first(), key, asset), k));
                if k != key {
                    assert(has_tool(tools.drop_first(), k));
                    let j = choose|j: int|
                        0 <= j < tools.drop_first().len() && tools.drop_first()[j].0 == k;
                    assert(tools.drop_first()[j] == tools[j + 1]);
                }
            }
        }
    }
}

/// Keys occur at most once.
pub open spec fn keys_unique(tools: Seq<(Seq<char>, ConfigAssetView)>) -> bool {
    forall|i: int, j: int| 0 <= i < j < tools.len() ==> tools[i].0 != tools[j].0
}

proof fn lemma_upsert_unique(
    tools: Seq<(Seq<char>, ConfigAssetView)>,
    key: Seq<char>,
    asset: ConfigAssetView,
)
    requires
        keys_unique(tools),
    ensures
        keys_unique(upsert(tools, key, asset)),
    decreases tools.len(),
{
    if tools.len() == 0 {
    } else if tools.first().0 == key {
        assert forall|i: int, j: int|
            0 <= i < j < upsert(tools, key, asset).len() implies upsert(tools, key, asset)[i].0
            != upsert(tools, key, asset)[j].0 by {
            assert(upsert(tools, key, asset)[j] == tools[j]);
            if i > 0 {
                assert(upsert(tools, key, asset)[i] == tools[i]);
            } else {
                assert(tools[0].0 != tools[j].0);
            }
        }
    } else {
        assert(keys_unique(tools.drop_first())) by {
            assert(forall|i: int|
                0 <= i < tools.drop_first().len() ==> tools.drop_first()[i] == tools[i + 1]);
        }
        lemma_upsert_unique(tools.drop_first(), key, asset);
        lemma_upsert_keys(tools.drop_first(), key, asset);
        assert forall|i: int, j: int|
            0 <= i < j < upsert(tools, key, asset).len() implies upsert(tools, key, asset)[i].0
            != upsert(tools, key, asset)[j].0 by {
            let rest = upsert(tools.drop_first(), key, asset);
            assert(upsert(tools, key, asset)[j] == rest[j - 1]);
            if i > 0 {
                assert(upsert(tools, key, asset)[i] == rest[i - 1]);
            } else {
                if tools[0].0 == rest[j - 1].0 {
                    assert(has_tool(rest, tools[0].0));
                    assert(tools[0].0 == key || has_tool(tools.drop_first(), tools[0].0));
                    if has_tool(tools.drop_first(), tools[0].0) {
                        let w = choose|w: int|
                            0 <= w < tools.drop_first().len() && tools.drop_first()[w].0
                                == tools[0].0;
                        assert(tools[w + 1].0 == tools[0].0);
                    }
                }
            }
        }
    }
}

proof fn lemma_tools_spec_keys(entries: Seq<(Seq<char>, DocView)>)
    ensures
        forall|k: Seq<char>|
            has_tool(tools_spec(entries), k) ==> exists|j: int|
                0 <= j < entries.len() && entries[j].0 == k,
    decreases entries.len(),
{
    if entries.len() == 0 {
    } else {
        lemma_tools_spec_keys(entries.drop_last());
        let prev = tools_spec(entries.drop_last());
        assert forall|k: Seq<char>| has_tool(tools_spec(entries), k) implies exists|j: int|
            0 <= j < entries.len() && entries[j].0 == k by {
            match entries.last().1 {
                DocView::Table(t) => {
                    lemma_upsert_keys(prev, entries.last().0, asset_spec(t));
                    if k == entries.last().0 {
                        assert(entries[entries.len() - 1].0 == k);
                    } else {
                        assert(has_tool(prev, k));
                        let j = choose|j: int|
                            0 <= j < entries.drop_last().len() && entries.drop_last()[j].0 == k;
                        assert(entries[j].0 == k);
                    }
                },
                _ => {
                    let j = choose|j: int|
                        0 <= j < entries.drop_last().len() && entries.drop_last()[j].0 == k;
                    assert(entries[j].0 == k);
                },
            }
        }
    }
}

/// Law: the decoded tool mapping is keyed — each tool name occurs at most
/// once, whatever the document held; a later binding replaced the earlier
/// one rather than standing beside it.
pub proof fn lemma_decoded_keys_unique(entries: Seq<(Seq<char>, DocView)>)
    ensures
        keys_unique(tools_spec(entries)),
    decreases entries.len(),
{
    if entries.len() == 0 {
    } else {
        lemma_decoded_keys_unique(entries.drop_last());
        match entries.last().1 {
            DocView::Table(t) => {
                lemma_upsert_unique(tools_spec(entries.drop_last()), entries.last().0, asset_spec(t));
            },
            _ => {},
        }
    }
}

/// Some table-valued entry of `entries` is keyed by `k`.
pub open spec fn table_key(entries: Seq<(Seq<char>, DocView)>, k: Seq<char>) -> bool {
    exists|j: int|
        0 <= j < entries.len() && (#[trigger] entries[j].0) == k && entries[j].1 is Table
}

/// Law: in a document whose table-valued entries are all empty and whose
/// keys are distinct, the decoded tool mapping has exactly one entry per
/// empty tool table, under that table's key, with every override field
/// absent. In particular a document of a store directory and N empty tool
/// tables decodes to N such entries.
pub proof fn lemma_empty_tool_tables(entries: Seq<(Seq<char>, DocView)>)
    requires
        forall|i: int, j: int| 0 <= i < j < entries.len() ==> entries[i].0 != entries[j].0,
        forall|i: int|
            0 <= i < entries.len() ==> ((#[trigger] entries[i].1) matches DocView::Table(t)
                ==> t.len() == 0),
    ensures
        tools_spec(entries).len() == num_tables(entries),
        forall|i: int|
            0 <= i < tools_spec(entries).len() ==> tools_spec(entries)[i].1
                == ConfigAssetView::empty(),
        forall|i: int|
            0 <= i < tools_spec(entries).len() ==> table_key(
                entries,
                (#[trigger] tools_spec(entries)[i]).0,
            ),
    decreases entries.len(),
{
    if entries.len() == 0 {
    } else {
        let head = entries.drop_last();
        assert(forall|i: int|
            0 <= i < head.len() ==> ((#[trigger] head[i].1) matches DocView::Table(t)
                ==> t.len() == 0));
        lemma_empty_tool_tables(head);
        let prev = tools_spec(head);
        assert forall|i: int| 0 <= i < prev.len() implies table_key(entries, prev[i].0) by {
            assert(table_key(head, prev[i].0));
            let j = choose|j: int|
                0 <= j < head.len() && (#[trigger] head[j].0) == prev[i].0 && head[j].1 is Table;
            assert(entries[j].0 == prev[i].0 && entries[j].1 is Table);
        }
        match entries.last().1 {
            DocView::Table(t) => {
                assert(!has_tool(prev, entries.last().0)) by {
                    lemma_tools_spec_keys(head);
                    if has_tool(prev, entries.last().0) {
                        let j = choose|j: int|
                            0 <= j < head.len() && head[j].0 == entries.last().0;
                        assert(entries[j].0 == entries[entries.len() - 1].0);
                    }
                }
                lemma_upsert_push(prev, entries.last().0, asset_spec(t));
                assert(asset_spec(t) == ConfigAssetView::empty());
                assert(entries[entries.len() - 1].1 is Table);
                assert(table_key(entries, entries.last().0));
                assert forall|i: int| 0 <= i < tools_spec(entries).len() implies table_key(
                    entries,
                    (#[trigger] tools_spec(entries)[i]).0,
                ) by {
                    if i < prev.len() {
                        assert(tools_spec(entries)[i] == prev[i]);
                    } else {
                        assert(tools_spec(entries)[i].0 == entries.last().0);
                    }
                }
            },
            _ => {
                assert(tools_spec(entries) == prev);
            },
        }
    }
}

/// Law: a document whose `store_directory` key is missing, or bound to
/// anything but a string, never decodes — there is no silent default. With
/// [`decode_config`]'s contract, decoding such a document always fails.
pub proof fn lemma_store_directory_required(es: Seq<(Seq<char>, DocView)>)
    requires
        !(table_get(es, "store_directory"@) matches Some(DocView::Str(_))),
    ensures
        !decode_ok(DocView::Table(es)),
{
}

/// Law: a fully populated tool table round-trips every field into the
/// corresponding override record unchanged.
pub proof fn lemma_full_table_round_trip(
    entries: Seq<(Seq<char>, DocView)>,
    owner: Seq<char>,
    repo: Seq<char>,
    exe_name: Seq<char>,
    tag: Seq<char>,
    sub: Seq<(Seq<char>, DocView)>,
    linux: Seq<char>,
    macos: Seq<char>,
    windows: Seq<char>,
)
    requires
        table_get(entries, "owner"@) == Some(DocView::Str(owner)),
        table_get(entries, "repo"@) == Some(DocView::Str(repo)),
        table_get(entries, "exe_name"@) == Some(DocView::Str(exe_name)),
        table_get(entries, "tag"@) == Some(DocView::Str(tag)),
        table_get(entries, "asset_name"@) == Some(DocView::Table(sub)),
        table_get(sub, "linux"@) == Some(DocView::Str(linux)),
        table_get(sub, "macos"@) == Some(DocView::Str(macos)),
        table_get(sub, "windows"@) == Some(DocView::Str(windows)),
    ensures
        asset_spec(entries).owner == Some(owner),
        asset_spec(entries).repo == Some(repo),
        asset_spec(entries).exe_name == Some(exe_name),
        asset_spec(entries).tag == Some(tag),
        asset_spec(entries).asset_name.linux == Some(linux),
        asset_spec(entries).asset_name.macos == Some(macos),
        asset_spec(entries).asset_name.windows == Some(windows),
{
}

/// Decoding succeeds exactly when the document is a table whose
/// `store_directory` key holds a string.
pub open spec fn decode_ok(d: DocView) -> bool {
    d matches DocView::Table(es) && str_by_key_spec(es, "store_directory"@) is Some
}

/// The configuration a decodable document denotes.
pub open spec fn decoded_config(d: DocView) -> ConfigView
    recommends
        decode_ok(d),
{
    match d {
        DocView::Table(es) => match str_by_key_spec(es, "store_directory"@) {
            Some(sd) => ConfigView { store_directory: sd, tools: tools_spec(es) },
            None => ConfigView { store_directory: Seq::empty(), tools: Seq::empty() },
        },
        _ => ConfigView { store_directory: Seq::empty(), tools: Seq::empty() },
    }
}

proof fn lemma_table_get_trunc(entries: Seq<(Seq<char>, DocView)>, key: Seq<char>, depth: nat)
    ensures
        table_get(trunc_entries(entries, depth), key) == match table_get(entries, key) {
            Some(v) => Some(doc_truncate(v, depth)),
            None => None::<DocView>,
        },
    decreases entries.len(),
{
    if entries.len() == 0 {
    } else {
        assert(trunc_entries(entries, depth).drop_last() =~= trunc_entries(
            entries.drop_last(),
            depth,
        ));
        assert(trunc_entries(entries, depth).last() == (
            entries.last().0,
            doc_truncate(entries.last().1, depth),
        ));
        lemma_table_get_trunc(entries.drop_last(), key, depth);
    }
}

proof fn lemma_str_by_key_trunc(entries: Seq<(Seq<char>, DocView)>, key: Seq<char>, depth: nat)
    requires
        depth >= 1,
    ensures
        str_by_key_spec(trunc_entries(entries, depth), key) == str_by_key_spec(entries, key),
{
    lemma_table_get_trunc(entries, key, depth);
}

proof fn lemma_asset_trunc(entries: Seq<(Seq<char>, DocView)>, depth: nat)
    requires
        depth >= 2,
    ensures
        asset_spec(trunc_entries(entries, depth)) == asset_spec(entries),
{
    lemma_str_by_key_trunc(entries, "owner"@, depth);
    lemma_str_by_key_trunc(entries, "repo"@, depth);
    lemma_str_by_key_trunc(entries, "exe_name"@, depth);
    lemma_str_by_key_trunc(entries, "tag"@, depth);
    lemma_table_get_trunc(entries, "asset_name"@, depth);
    match table_get(entries, "asset_name"@) {
        Some(DocView::Table(t)) => {
            lemma_str_by_key_trunc(t, "linux"@, (depth - 1) as nat);
            lemma_str_by_key_trunc(t, "macos"@, (depth - 1) as nat);
            lemma_str_by_key_trunc(t, "windows"@, (depth - 1) as nat);
        },
        _ => {},
    }
}

proof fn lemma_tools_trunc(entries: Seq<(Seq<char>, DocView)>, depth: nat)
    requires
        depth >= 3,
    ensures
        tools_spec(trunc_entries(entries, depth)) == tools_spec(entries),
    decreases entries.len(),
{
    if entries.len() == 0 {
        assert(trunc_entries(entries, depth) =~= Seq::<(Seq<char>, DocView)>::empty());
    } else {
        assert(trunc_entries(entries, depth).drop_last() =~= trunc_entries(
            entries.drop_last(),
            depth,
        ));
        assert(trunc_entries(entries, depth).last() == (
            entries.last().0,
            doc_truncate(entries.last().1, depth),
        ));
        lemma_tools_trunc(entries.drop_last(), depth);
        match entries.last().1 {
            DocView::Table(t) => {
                lemma_asset_trunc(t, (depth - 1) as nat);
            },
            _ => {},
        }
    }
}

/// Truncating a document below what the decoder reads changes nothing it
/// decides: four levels (table, tool table, `asset_name` table, its strings)
/// are all it ever inspects.
pub proof fn lemma_decode_trunc(d: DocView, depth: nat)
    requires
        depth >= 4,
    ensures
        decode_ok(doc_truncate(d, depth)) == decode_ok(d),
        decoded_config(doc_truncate(d, depth)) == decoded_config(d),
{
    match d {
        DocView::Table(es) => {
            lemma_str_by_key_trunc(es, "store_directory"@, (depth - 1) as nat);
            lemma_tools_trunc(es, (depth - 1) as nat);
        },
        _ => {},
    }
}

/// Looks `key` up among `entries` and keeps it only when it is a string.
pub fn str_by_key(entries: &Vec<(String, TomlValue)>, key: &str) -> (r: Option<String>)
    ensures
        opt_view(r) == str_by_key_spec(entries_view(entries@), key@),
{
    match table_get_ref(entries, key) {
        Some(TomlValue::Str(s)) => Some(s.clone()),
        Some(TomlValue::Table(_)) => None,
        Some(TomlValue::Other) => None,
        None => None,
    }
}

/// Decodes the `asset_name` sub-table of one tool table.
pub fn decode_asset_name(entries: &Vec<(String, TomlValue)>) -> (r: AssetName)
    ensures
        r@ == asset_name_spec(entries_view(entries@)),
{
    match table_get_ref(entries, "asset_name") {
        Some(TomlValue::Table(t)) => AssetName {
            linux: str_by_key(t, "linux"),
            macos: str_by_key(t, "macos"),
            windows: str_by_key(t, "windows"),
        },
        Some(TomlValue::Str(_)) => AssetName::empty(),
        Some(TomlValue::Other) => AssetName::empty(),
        None => AssetName::empty(),
    }
}

/// Decodes one tool table into an override record; fields of the wrong type
/// are treated as absent.
pub fn decode_config_asset(entries: &Vec<(String, TomlValue)>) -> (r: ConfigAsset)
    ensures
        r@ == asset_spec(entries_view(entries@)),
{
    let owner = str_by_key(entries, "owner");
    let repo = str_by_key(entries, "repo");
    let exe_name = str_by_key(entries, "exe_name");
    let asset_name = decode_asset_name(entries);
    let tag = str_by_key(entries, "tag");
    ConfigAsset { owner, repo, exe_name, asset_name, tag }
}

fn upsert_tool(tools: &mut Vec<(String, ConfigAsset)>, key: String, asset: ConfigAsset)
    ensures
        tools_view(final (tools)@) == upsert(tools_view(old(tools)@), key@, asset@),
{
    let ghost kv = key@;
    let ghost av = asset@;
    let n = tools.len();
    let mut j: usize = 0;
    while j < n
        invariant
            j <= n,
            n == tools@.len(),
            tools@ == old(tools)@,
            forall|k: int| 0 <= k < j ==> tools@[k].0@ != kv,
            key@ == kv,
            asset@ == av,
        decreases n - j,
    {
        if str_eq(tools[j].0.as_str(), key.as_str()) {
            tools.remove(j);
            tools.insert(j, (key, asset));
            proof {
                assert(tools@ =~= old(tools)@.update(j as int, (old(tools)@[j as int].0, old(
                    tools,
                )@[j as int].1)).update(j as int, tools@[j as int]));
                assert(tools_view(tools@) =~= tools_view(old(tools)@).update(
                    j as int,
                    (kv, av),
                ));
                lemma_upsert_update(tools_view(old(tools)@), kv, av, j as int);
            }
            return ;
        }
        j += 1;
    }
    tools.push((key, asset));
    proof {
        assert(tools_view(tools@) =~= tools_view(old(tools)@).push((kv, av)));
        assert(!has_tool(tools_view(old(tools)@), kv));
        lemma_upsert_push(tools_view(old(tools)@), kv, av);
    }
}

/// Decodes a whole document. Fails exactly when the document is not a table
/// or its `store_directory` key is missing or not a string — never by
/// silently defaulting; every other stray or mistyped key is tolerated.
pub fn decode_config(doc: &TomlValue) -> (r: Option<Config>)
    ensures
        r is Some <==> decode_ok(doc_view(*doc)),
        r matches Some(c) ==> c@ == decoded_config(doc_view(*doc)),
{
    let entries = match doc {
        TomlValue::Table(es) => es,
        TomlValue::Str(_) => {
            return None;
        },
        TomlValue::Other => {
            return None;
        },
    };
    let store_directory = match str_by_key(entries, "store_directory") {
        Some(s) => s,
        None => {
            return None;
        },
    };
    let ghost ev = entries_view(entries@);
    let mut tools: Vec<(String, ConfigAsset)> = Vec::new();
    let mut i: usize = 0;
    while i < entries.len()
        invariant
            i <= entries@.len(),
            ev == entries_view(entries@),
            tools_view(tools@) == tools_spec(ev.take(i as int)),
        decreases entries@.len() - i,
    {
        proof {
            assert(ev.take(i + 1).drop_last() =~= ev.take(i as int));
            assert(ev.take(i + 1).last() == ev[i as int]);
            assert(ev[i as int] == (entries@[i as int].0@, doc_view(entries@[i as int].1)));
        }
        match &entries[i].1 {
            TomlValue::Table(t) => {
                let asset = decode_config_asset(t);
                let key = entries[i].0.clone();
                upsert_tool(&mut tools, key, asset);
            },
            TomlValue::Str(_) => {},
            TomlValue::Other => {},
        }
        i += 1;
    }
    proof {
        assert(ev.take(entries@.len() as int) =~= ev);
        assert(tools_view(tools@) =~= tools_spec(ev));
    }
    Some(Config { store_directory, tools })
}

} // verus!
