//! The layout catalog: the static mapping from a column-family name to
//! the (key decoder, value decoder) pair used for its rows. Lookup is
//! total — an unrecognized name falls back to hex on both sides, so
//! iteration never fails for want of a layout.

use vstd::prelude::*;

verus! {

use crate::decode::Decoder;
use crate::text::str_eq;

/// The decoder pair resolved for one column family.
#[derive(Clone, Copy, Debug, PartialEq, Eq, Structural)]
pub struct Layout {
    pub key: Decoder,
    pub value: Decoder,
}

/// The catalog as a total function on names.
pub open spec fn spec_layout(name: Seq<char>) -> Layout {
    if name == "archives"@ {
        Layout { key: Decoder::UnsignedInt32, value: Decoder::Blob }
    } else if name == "key_blocks"@ {
        Layout { key: Decoder::UnsignedInt32, value: Decoder::FullBlockId }
    } else if name == "shard_states"@ {
        Layout { key: Decoder::ShortBlockId, value: Decoder::ShardStateTriple }
    } else if name == "prev1"@ || name == "prev2"@ || name == "next1"@ || name == "next2"@ {
        Layout { key: Decoder::Hex, value: Decoder::FullBlockId }
    } else if name == "package_entries"@ {
        Layout { key: Decoder::PackageEntryId, value: Decoder::Blob }
    } else if name == "node_states"@ {
        Layout { key: Decoder::NodeState, value: Decoder::NodeState }
    } else {
        Layout { key: Decoder::Hex, value: Decoder::Hex }
    }
}

/// Whether a name is one the catalog recognizes specially.
pub open spec fn recognized_name(name: Seq<char>) -> bool {
    name == "archives"@ || name == "key_blocks"@ || name == "shard_states"@ || name == "prev1"@
        || name == "prev2"@ || name == "next1"@ || name == "next2"@ || name == "package_entries"@
        || name == "node_states"@
}

/// Lookup is total: every name resolves to some pair, and any name the
/// catalog does not recognize resolves to hex on both sides.
pub proof fn lemma_catalog_total(name: Seq<char>)
    ensures
        !recognized_name(name) ==> spec_layout(name) == (Layout {
            key: Decoder::Hex,
            value: Decoder::Hex,
        }),
{
}

/// Resolve a column-family name to its decoder pair.
pub fn layout_for(name: &str) -> (r: Layout)
    ensures
        r == spec_layout(name@),
{
    if str_eq(name, "archives") {
        Layout { key: Decoder::UnsignedInt32, value: Decoder::Blob }
    } else if str_eq(name, "key_blocks") {
        Layout { key: Decoder::UnsignedInt32, value: Decoder::FullBlockId }
    } else if str_eq(name, "shard_states") {
        Layout { key: Decoder::ShortBlockId, value: Decoder::ShardStateTriple }
    } else if str_eq(name, "prev1") || str_eq(name, "prev2") || str_eq(name, "next1") || str_eq(
        name,
        "next2",
    ) {
        Layout { key: Decoder::Hex, value: Decoder::FullBlockId }
    } else if str_eq(name, "package_entries") {
        Layout { key: Decoder::PackageEntryId, value: Decoder::Blob }
    } else if str_eq(name, "node_states") {
        Layout { key: Decoder::NodeState, value: Decoder::NodeState }
    } else {
        Layout { key: Decoder::Hex, value: Decoder::Hex }
    }
}

} // verus!
