//! The byte decoders: one total decoding function per binary layout.
//! Every decoder accepts a byte slice of any length; mis-sized input
//! yields a sentinel `<invalid {hex}>` string instead of a failure.

use vstd::prelude::*;

verus! {

use vstd::slice::slice_subrange;
use vstd::string::StringExecFns;
use vstd::string::StringSliceAdditionalSpecFns;
use crate::text::{
    hex_seq,
    dec_seq,
    signed_dec_seq,
    pad_width2,
    hex_lower,
    u64_decimal,
    signed_decimal_chars,
    chars_to_string,
    bytes_eq,
};

/// The closed set of binary layouts the viewer understands.
#[derive(Clone, Copy, Debug, PartialEq, Eq, Structural)]
pub enum Decoder {
    UnsignedInt32,
    Hex,
    ShortBlockId,
    FullBlockId,
    ShardStateTriple,
    Blob,
    PackageEntryId,
    NodeState,
}

/// The big-endian unsigned 32-bit value held by a 4-byte sequence.
pub open spec fn be_u32(v: Seq<u8>) -> nat
    recommends
        v.len() == 4,
{
    (v[0] * 0x1000000 + v[1] * 0x10000 + v[2] * 0x100 + v[3]) as nat
}

/// The big-endian signed 32-bit value held by a 4-byte sequence
/// (two's complement).
pub open spec fn workchain_val(v: Seq<u8>) -> int
    recommends
        v.len() == 4,
{
    if be_u32(v) < 0x80000000 {
        be_u32(v) as int
    } else {
        be_u32(v) - 0x100000000
    }
}

/// The sentinel rendering for bytes that do not fit a layout.
pub open spec fn invalid_seq(v: Seq<u8>) -> Seq<char> {
    "<invalid "@ + hex_seq(v) + ">"@
}

/// Big-endian `u32` as a decimal string; anything not 4 bytes long is
/// rendered through the sentinel.
pub open spec fn uint32_seq(v: Seq<u8>) -> Seq<char> {
    if v.len() == 4 {
        dec_seq(be_u32(v))
    } else {
        invalid_seq(v)
    }
}

/// The three leading fields of a block identifier, read from the first
/// 16 bytes: `{workchain:2}:{shard:016x}:{seqno}` with the workchain a
/// signed 32-bit at [0, 4), the shard an unsigned 64-bit shown as 16 hex
/// digits at [4, 12), and the seqno an unsigned 32-bit at [12, 16).
pub open spec fn short_id_fields(v: Seq<u8>) -> Seq<char>
    recommends
        v.len() >= 16,
{
    pad_width2(signed_dec_seq(workchain_val(v.subrange(0, 4)))) + ":"@ + hex_seq(
        v.subrange(4, 12),
    ) + ":"@ + dec_seq(be_u32(v.subrange(12, 16)))
}

/// A 16-byte short block identifier.
pub open spec fn short_block_id_seq(v: Seq<u8>) -> Seq<char> {
    if v.len() == 16 {
        short_id_fields(v)
    } else {
        invalid_seq(v)
    }
}

/// An 80-byte full block identifier: the short fields followed by the
/// root hash at [16, 48) and the file hash at [48, 80), both in hex.
pub open spec fn full_block_id_seq(v: Seq<u8>) -> Seq<char> {
    if v.len() == 80 {
        short_id_fields(v.subrange(0, 16)) + ":"@ + hex_seq(v.subrange(16, 48)) + ":"@ + hex_seq(
            v.subrange(48, 80),
        )
    } else {
        invalid_seq(v)
    }
}

/// A 96-byte triple of state root, root hash and file hash.
pub open spec fn shard_state_seq(v: Seq<u8>) -> Seq<char> {
    if v.len() == 96 {
        "state_root: "@ + hex_seq(v.subrange(0, 32)) + ", root_hash: "@ + hex_seq(
            v.subrange(32, 64),
        ) + ", file_hash: "@ + hex_seq(v.subrange(64, 96))
    } else {
        invalid_seq(v)
    }
}

/// An opaque blob is shown only by its length.
pub open spec fn blob_seq(v: Seq<u8>) -> Seq<char> {
    "<"@ + dec_seq(v.len()) + " bytes>"@
}

/// The name of a package entry type byte.
pub open spec fn package_type_seq(b: u8) -> Seq<char> {
    if b == 0 {
        "block"@
    } else if b == 1 {
        "proof"@
    } else if b == 2 {
        "proof_link"@
    } else {
        "unknown"@
    }
}

/// A 49-byte package entry identifier: the short fields, the root hash
/// at [16, 48) in hex, and the package type byte at offset 48 by name.
pub open spec fn package_entry_id_seq(v: Seq<u8>) -> Seq<char> {
    if v.len() == 49 {
        short_id_fields(v.subrange(0, 16)) + ":"@ + hex_seq(v.subrange(16, 48)) + ": "@
            + package_type_seq(v[48])
    } else {
        invalid_seq(v)
    }
}

/// The node-state keys whose values hold a full block identifier.
pub open spec fn full_block_id_key(c: Seq<u8>) -> bool {
    c == "background_sync_low".spec_bytes() || c == "background_sync_high".spec_bytes() || c
        == "LastMcBlockId".spec_bytes() || c == "InitMcBlockId".spec_bytes() || c
        == "ShardsClientMcBlockId".spec_bytes()
}

/// A three-byte version triple shown as `{v0}.{v1}.{v2}` in decimal;
/// any other length yields a version-specific sentinel.
pub open spec fn version_seq(v: Seq<u8>) -> Seq<char> {
    if v.len() == 3 {
        dec_seq(v[0] as nat) + "."@ + dec_seq(v[1] as nat) + "."@ + dec_seq(v[2] as nat)
    } else {
        "<invalid version "@ + hex_seq(v) + ">"@
    }
}

/// What `String::from_utf8_lossy` renders for a byte sequence: a
/// function of the bytes alone.
pub uninterp spec fn utf8_lossy_seq(v: Seq<u8>) -> Seq<char>;

/// The context-sensitive node-state decoder. A row whose key bytes equal
/// its value bytes stores a raw string and is decoded as lossy UTF-8
/// (this mirrors the producing system's convention; a binary record that
/// happens to equal its own key is indistinguishable from such a row).
/// Otherwise the key name selects the layout of the value.
pub open spec fn node_state_seq(c: Seq<u8>, v: Seq<u8>) -> Seq<char> {
    if c == v {
        utf8_lossy_seq(v)
    } else if full_block_id_key(c) {
        full_block_id_seq(v)
    } else if c == "last_uploaded_archive".spec_bytes() {
        uint32_seq(v)
    } else if c == "db_version".spec_bytes() {
        version_seq(v)
    } else {
        hex_seq(v)
    }
}

impl Decoder {
    /// What each decoder renders for context bytes `c` and value bytes
    /// `v`; only `NodeState` reads the context.
    pub open spec fn spec_decode(self, c: Seq<u8>, v: Seq<u8>) -> Seq<char> {
        match self {
            Decoder::UnsignedInt32 => uint32_seq(v),
            Decoder::Hex => hex_seq(v),
            Decoder::ShortBlockId => short_block_id_seq(v),
            Decoder::FullBlockId => full_block_id_seq(v),
            Decoder::ShardStateTriple => shard_state_seq(v),
            Decoder::Blob => blob_seq(v),
            Decoder::PackageEntryId => package_entry_id_seq(v),
            Decoder::NodeState => node_state_seq(c, v),
        }
    }

    /// Decode value bytes under this layout, with the row's key bytes as
    /// context. Total: every input yields a display string.
    pub fn decode(self, ctx: &[u8], value: &[u8]) -> (r: String)
        ensures
            r@ == self.spec_decode(ctx@, value@),
    {
        match self {
            Decoder::UnsignedInt32 => decode_uint32(value),
            Decoder::Hex => hex_lower(value),
            Decoder::ShortBlockId => decode_short_block_id(value),
            Decoder::FullBlockId => decode_full_block_id(value),
            Decoder::ShardStateTriple => decode_shard_state(value),
            Decoder::Blob => decode_blob(value),
            Decoder::PackageEntryId => decode_package_entry_id(value),
            Decoder::NodeState => decode_node_state(ctx, value),
        }
    }
}

/// Any byte slice whose length is not 4 renders, under the unsigned
/// 32-bit decoder, as a string that begins with `<invalid`.
pub proof fn lemma_uint32_invalid_prefix(v: Seq<u8>)
    requires
        v.len() != 4,
    ensures
        uint32_seq(v).len() >= 8,
        uint32_seq(v).subrange(0, 8) == "<invalid"@,
{
    reveal_strlit("<invalid ");
    reveal_strlit("<invalid");
    assert(uint32_seq(v).subrange(0, 8) =~= "<invalid"@);
}

/// An 80-byte full block identifier renders as the short identifier of
/// its first 16 bytes followed by the two 32-byte hashes in hex, each
/// preceded by a colon.
pub proof fn lemma_full_id_structure(v: Seq<u8>)
    requires
        v.len() == 80,
    ensures
        full_block_id_seq(v) == short_block_id_seq(v.subrange(0, 16)) + ":"@ + hex_seq(
            v.subrange(16, 48),
        ) + ":"@ + hex_seq(v.subrange(48, 80)),
{
    assert(v.subrange(0, 16).len() == 16);
}

/// A 49-byte package entry identifier ends in the name of its type
/// byte: `": proof"` for type 1, `": unknown"` for any byte outside the
/// named set.
pub proof fn lemma_package_entry_type_suffix(v: Seq<u8>)
    requires
        v.len() == 49,
    ensures
        v[48] == 1 ==> package_entry_id_seq(v) == (short_id_fields(v.subrange(0, 16)) + ":"@
            + hex_seq(v.subrange(16, 48))) + ": proof"@,
        !(v[48] == 0 || v[48] == 1 || v[48] == 2) ==> package_entry_id_seq(v) == (short_id_fields(
            v.subrange(0, 16),
        ) + ":"@ + hex_seq(v.subrange(16, 48))) + ": unknown"@,
{
    reveal_strlit(": ");
    reveal_strlit("proof");
    reveal_strlit(": proof");
    reveal_strlit("unknown");
    reveal_strlit(": unknown");
    let head = short_id_fields(v.subrange(0, 16)) + ":"@ + hex_seq(v.subrange(16, 48));
    if v[48] == 1 {
        assert(head + ": "@ + package_type_seq(v[48]) =~= head + ": proof"@);
    }
    if !(v[48] == 0 || v[48] == 1 || v[48] == 2) {
        assert(head + ": "@ + package_type_seq(v[48]) =~= head + ": unknown"@);
    }
}

/// Relies on `String::from_utf8_lossy`: the result depends on the bytes
/// alone, and valid UTF-8 decodes to exactly its character sequence.
#[verifier::external_body]
fn utf8_lossy(v: &[u8]) -> (r: String)
    ensures
        r@ == utf8_lossy_seq(v@),
        vstd::utf8::valid_utf8(v@) ==> r@ == vstd::utf8::decode_utf8(v@),
{
    String::from_utf8_lossy(v).into_owned()
}

/// The big-endian unsigned 32-bit value of a 4-byte slice.
pub fn read_be_u32(v: &[u8]) -> (r: u32)
    requires
        v@.len() == 4,
    ensures
        r as nat == be_u32(v@),
{
    (v[0] as u32) * 0x1000000 + (v[1] as u32) * 0x10000 + (v[2] as u32) * 0x100 + (v[3] as u32)
}

fn invalid_string(v: &[u8]) -> (r: String)
    ensures
        r@ == invalid_seq(v@),
{
    let mut s: String = "<invalid ".to_owned();
    let h = hex_lower(v);
    s.append(h.as_str());
    s.append(">");
    s
}

pub fn decode_uint32(v: &[u8]) -> (r: String)
    ensures
        r@ == uint32_seq(v@),
{
    if v.len() == 4 {
        u64_decimal(read_be_u32(v) as u64)
    } else {
        invalid_string(v)
    }
}

/// The `{workchain:2}` field: the signed decimal, right-aligned into a
/// width-2 field.
fn workchain_field(v: &[u8]) -> (r: Vec<char>)
    requires
        v@.len() == 4,
    ensures
        r@ == pad_width2(signed_dec_seq(workchain_val(v@))),
{
    let raw: u32 = read_be_u32(v);
    let neg: bool = raw >= 0x80000000;
    let mag: u64 = if neg {
        0x100000000u64 - raw as u64
    } else {
        raw as u64
    };
    let mut cs = signed_decimal_chars(neg, mag);
    if cs.len() < 2 {
        let ghost before = cs@;
        cs.insert(0, ' ');
        proof {
            assert(cs@ =~= seq![' '] + before);
        }
    }
    cs
}

fn short_id_fields_string(v: &[u8]) -> (r: String)
    requires
        v@.len() >= 16,
    ensures
        r@ == short_id_fields(v@),
{
    let wc = workchain_field(slice_subrange(v, 0, 4));
    let mut s = chars_to_string(&wc);
    s.append(":");
    let shard = hex_lower(slice_subrange(v, 4, 12));
    s.append(shard.as_str());
    s.append(":");
    let seqno = u64_decimal(read_be_u32(slice_subrange(v, 12, 16)) as u64);
    s.append(seqno.as_str());
    proof {
        assert(s@ =~= short_id_fields(v@));
    }
    s
}

pub fn decode_short_block_id(v: &[u8]) -> (r: String)
    ensures
        r@ == short_block_id_seq(v@),
{
    if v.len() == 16 {
        short_id_fields_string(v)
    } else {
        invalid_string(v)
    }
}

pub fn decode_full_block_id(v: &[u8]) -> (r: String)
    ensures
        r@ == full_block_id_seq(v@),
{
    if v.len() == 80 {
        let mut s = short_id_fields_string(slice_subrange(v, 0, 16));
        s.append(":");
        let root = hex_lower(slice_subrange(v, 16, 48));
        s.append(root.as_str());
        s.append(":");
        let file = hex_lower(slice_subrange(v, 48, 80));
        s.append(file.as_str());
        proof {
            assert(s@ =~= full_block_id_seq(v@));
        }
        s
    } else {
        invalid_string(v)
    }
}

pub fn decode_shard_state(v: &[u8]) -> (r: String)
    ensures
        r@ == shard_state_seq(v@),
{
    if v.len() == 96 {
        let mut s: String = "state_root: ".to_owned();
        let state_root = hex_lower(slice_subrange(v, 0, 32));
        s.append(state_root.as_str());
        s.append(", root_hash: ");
        let root = hex_lower(slice_subrange(v, 32, 64));
        s.append(root.as_str());
        s.append(", file_hash: ");
        let file = hex_lower(slice_subrange(v, 64, 96));
        s.append(file.as_str());
        proof {
            assert(s@ =~= shard_state_seq(v@));
        }
        s
    } else {
        invalid_string(v)
    }
}

pub fn decode_blob(v: &[u8]) -> (r: String)
    ensures
        r@ == blob_seq(v@),
{
    let mut s: String = "<".to_owned();
    let n = u64_decimal(v.len() as u64);
    s.append(n.as_str());
    s.append(" bytes>");
    proof {
        assert(s@ =~= blob_seq(v@));
    }
    s
}

fn package_type_name(b: u8) -> (r: String)
    ensures
        r@ == package_type_seq(b),
{
    if b == 0 {
        "block".to_owned()
    } else if b == 1 {
        "proof".to_owned()
    } else if b == 2 {
        "proof_link".to_owned()
    } else {
        "unknown".to_owned()
    }
}

pub fn decode_package_entry_id(v: &[u8]) -> (r: String)
    ensures
        r@ == package_entry_id_seq(v@),
{
    if v.len() == 49 {
        let mut s = short_id_fields_string(slice_subrange(v, 0, 16));
        s.append(":");
        let root = hex_lower(slice_subrange(v, 16, 48));
        s.append(root.as_str());
        s.append(": ");
        let ty = package_type_name(v[48]);
        s.append(ty.as_str());
        proof {
            assert(s@ =~= package_entry_id_seq(v@));
        }
        s
    } else {
        invalid_string(v)
    }
}

fn decode_version(v: &[u8]) -> (r: String)
    ensures
        r@ == version_seq(v@),
{
    if v.len() == 3 {
        let mut s = u64_decimal(v[0] as u64);
        s.append(".");
        let v1 = u64_decimal(v[1] as u64);
        s.append(v1.as_str());
        s.append(".");
        let v2 = u64_decimal(v[2] as u64);
        s.append(v2.as_str());
        proof {
            assert(s@ =~= version_seq(v@));
        }
        s
    } else {
        let mut s: String = "<invalid version ".to_owned();
        let h = hex_lower(v);
        s.append(h.as_str());
        s.append(">");
        proof {
            assert(s@ =~= version_seq(v@));
        }
        s
    }
}

pub fn decode_node_state(ctx: &[u8], v: &[u8]) -> (r: String)
    ensures
        r@ == node_state_seq(ctx@, v@),
{
    if bytes_eq(ctx, v) {
        utf8_lossy(v)
    } else if bytes_eq(ctx, "background_sync_low".as_bytes()) || bytes_eq(
        ctx,
        "background_sync_high".as_bytes(),
    ) || bytes_eq(ctx, "LastMcBlockId".as_bytes()) || bytes_eq(ctx, "InitMcBlockId".as_bytes())
        || bytes_eq(ctx, "ShardsClientMcBlockId".as_bytes()) {
        decode_full_block_id(v)
    } else if bytes_eq(ctx, "last_uploaded_archive".as_bytes()) {
        decode_uint32(v)
    } else if bytes_eq(ctx, "db_version".as_bytes()) {
        decode_version(v)
    } else {
        hex_lower(v)
    }
}

} // verus!
