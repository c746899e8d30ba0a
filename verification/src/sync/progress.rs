//! Sizing and layout of the per-tool progress display: the column widths
//! computed from the tool and tag names, and the aligned prefix line each
//! indicator shows. Rendering itself is a display concern and lives with the
//! caller; this module only computes.

use vstd::prelude::*;

use vstd::string::StrSliceExecFns;
use vstd::string::StringExecFns;

verus! {

/// Floor for the tag column: a typical version string such as `v0.10.10` is
/// already eight characters wide.
pub const MIN_TAG_SIZE: usize = 8;

/// The length of the longest name in the list, zero for an empty list.
pub open spec fn max_name_len(names: Seq<String>) -> nat
    decreases names.len(),
{
    if names.len() == 0 {
        0
    } else {
        let rest = max_name_len(names.drop_last());
        if names.last()@.len() > rest {
            names.last()@.len()
        } else {
            rest
        }
    }
}

/// The tag column's width: the longest tag name, floored at
/// [`MIN_TAG_SIZE`]; the floor alone for an empty list.
pub open spec fn tag_width(tags: Seq<String>) -> nat {
    if max_name_len(tags) > MIN_TAG_SIZE {
        max_name_len(tags)
    } else {
        MIN_TAG_SIZE as nat
    }
}

/// `s` padded with spaces on the right up to `width`; unchanged when already
/// that wide.
pub open spec fn pad_right(s: Seq<char>, width: nat) -> Seq<char> {
    if s.len() >= width {
        s
    } else {
        s + Seq::new((width - s.len()) as nat, |i: int| ' ')
    }
}

/// Column widths for a set of concurrently-rendered progress indicators,
/// sized once from every tool name and tag name they will show.
#[derive(Debug, PartialEq, Eq)]
pub struct SyncProgress {
    pub max_tool_size: usize,
    pub max_tag_size: usize,
}

impl SyncProgress {
    /// Sizes the columns: the tool column by the longest tool name, the tag
    /// column by the longest tag name with a floor of [`MIN_TAG_SIZE`]. The
    /// tool list must be non-empty.
    pub fn new(tools: Vec<String>, tags: Vec<String>) -> (r: SyncProgress)
        requires
            tools@.len() > 0,
        ensures
            r.max_tool_size == max_name_len(tools@),
            r.max_tag_size == tag_width(tags@),
    {
        let mut max_tool_size: usize = 0;
        let mut i: usize = 0;
        while i < tools.len()
            invariant
                i <= tools@.len(),
                max_tool_size == max_name_len(tools@.take(i as int)),
            decreases tools@.len() - i,
        {
            proof {
                assert(tools@.take(i + 1).drop_last() =~= tools@.take(i as int));
                assert(tools@.take(i + 1).last() == tools@[i as int]);
            }
            let len = tools[i].as_str().unicode_len();
            if len > max_tool_size {
                max_tool_size = len;
            }
            i += 1;
        }
        let mut max_tag_size: usize = MIN_TAG_SIZE;
        let mut j: usize = 0;
        while j < tags.len()
            invariant
                j <= tags@.len(),
                max_tag_size == tag_width(tags@.take(j as int)),
            decreases tags@.len() - j,
        {
            proof {
                assert(tags@.take(j + 1).drop_last() =~= tags@.take(j as int));
                assert(tags@.take(j + 1).last() == tags@[j as int]);
            }
            let len = tags[j].as_str().unicode_len();
            if len > max_tag_size {
                max_tag_size = len;
            }
            j += 1;
        }
        proof {
            assert(tools@.take(tools@.len() as int) =~= tools@);
            assert(tags@.take(tags@.len() as int) =~= tags@);
        }
        SyncProgress { max_tool_size, max_tag_size }
    }

    /// The aligned prefix of one indicator's line: the given glyph, then the
    /// tool name and the tag name, each padded to its column.
    pub fn fmt_prefix(&self, emoji: &str, tool_name: &str, tag_name: &str) -> (r: String)
        ensures
            r@ == emoji@ + pad_right(tool_name@, self.max_tool_size as nat) + " "@ + pad_right(
                tag_name@,
                self.max_tag_size as nat,
            ),
    {
        let mut out = emoji.to_owned();
        append_padded(&mut out, tool_name, self.max_tool_size);
        out.append(" ");
        append_padded(&mut out, tag_name, self.max_tag_size);
        out
    }
}

/// Appends `name` to `out`, then spaces until `width` characters of `name`
/// and padding stand appended.
fn append_padded(out: &mut String, name: &str, width: usize)
    ensures
        final (out)@ == old(out)@ + pad_right(name@, width as nat),
{
    let ghost prefix = out@;
    out.append(name);
    let len = name.unicode_len();
    proof {
        assert(out@ =~= prefix + name@ + Seq::new(0, |i: int| ' '));
    }
    let mut k: usize = len;
    while k < width
        invariant
            len == name@.len(),
            len <= k,
            k <= width || k == len,
            out@ == prefix + name@ + Seq::new((k - len) as nat, |i: int| ' '),
        decreases width - k,
    {
        proof {
            reveal_strlit(" ");
        }
        out.append(" ");
        k += 1;
        proof {
            assert(out@ =~= prefix + name@ + Seq::new((k - len) as nat, |i: int| ' '));
        }
    }
    proof {
        assert(out@ =~= prefix + pad_right(name@, width as nat));
    }
}

} // verus!
