//! The fixed 534-byte metadata footer.
//!
//! A packaged extension is the library file followed by this footer: a
//! 22-byte start signature, three reserved 32-byte fields, four encoded
//! 32-byte fields (ABI type, extension version, engine version, platform),
//! one 32-byte field holding the literal digit `4`, and eight reserved
//! 32-byte fields. Every field is the content's bytes padded with zero
//! bytes to exactly 32 bytes.

use vstd::prelude::*;
use vstd::slice::slice_subrange;
use vstd::slice::slice_to_vec;
use vstd::string::StringSliceAdditionalSpecFns;

verus! {

/// The 22-byte sequence that opens the footer and marks the file as an
/// extension of this format.
pub open spec fn signature_bytes() -> Seq<u8> {
    seq![
        0u8, 147u8, 4u8, 16u8, 100u8, 117u8, 99u8, 107u8, 100u8, 98u8, 95u8, 115u8, 105u8, 103u8,
        110u8, 97u8, 116u8, 117u8, 114u8, 101u8, 128u8, 4u8,
    ]
}

/// `n` zero bytes.
pub open spec fn zero_bytes(n: nat) -> Seq<u8> {
    Seq::new(n, |i: int| 0u8)
}

/// A 32-byte field slot: the content followed by zero padding.
/// Meaningful for content of at most 32 bytes.
pub open spec fn field_bytes(content: Seq<u8>) -> Seq<u8> {
    content + zero_bytes((32 - content.len()) as nat)
}

/// The whole footer for the four variable fields, each given as the
/// content's bytes.
pub open spec fn footer_bytes(
    abi_type: Seq<u8>,
    extension_version: Seq<u8>,
    duckdb_version: Seq<u8>,
    duckdb_platform: Seq<u8>,
) -> Seq<u8> {
    signature_bytes() + zero_bytes(96) + field_bytes(abi_type) + field_bytes(extension_version)
        + field_bytes(duckdb_version) + field_bytes(duckdb_platform) + field_bytes(seq![52u8])
        + zero_bytes(256)
}

/// The footer has the same fixed size whatever the field contents are.
pub proof fn lemma_footer_size(
    abi_type: Seq<u8>,
    extension_version: Seq<u8>,
    duckdb_version: Seq<u8>,
    duckdb_platform: Seq<u8>,
)
    requires
        abi_type.len() <= 32,
        extension_version.len() <= 32,
        duckdb_version.len() <= 32,
        duckdb_platform.len() <= 32,
    ensures
        footer_bytes(abi_type, extension_version, duckdb_version, duckdb_platform).len() == 534,
{
}

/// The start signature as a concrete byte vector.
pub fn start_signature() -> (r: Vec<u8>)
    ensures
        r@ == signature_bytes(),
{
    let mut r: Vec<u8> = Vec::new();
    r.push(0u8);
    r.push(147u8);
    r.push(4u8);
    r.push(16u8);
    r.push(100u8);
    r.push(117u8);
    r.push(99u8);
    r.push(107u8);
    r.push(100u8);
    r.push(98u8);
    r.push(95u8);
    r.push(115u8);
    r.push(105u8);
    r.push(103u8);
    r.push(110u8);
    r.push(97u8);
    r.push(116u8);
    r.push(117u8);
    r.push(114u8);
    r.push(101u8);
    r.push(128u8);
    r.push(4u8);
    proof {
        assert(r@ =~= signature_bytes());
    }
    r
}

/// Encodes one field: the content's bytes padded with zeros to a 32-byte
/// slot. Content longer than the slot is a caller error and is excluded.
pub fn encode_field(content: &[u8]) -> (r: Vec<u8>)
    requires
        content@.len() <= 32,
    ensures
        r@ == field_bytes(content@),
        r@.len() == 32,
{
    let mut r = slice_to_vec(content);
    proof {
        assert(r@ =~= content@ + zero_bytes((r@.len() - content@.len()) as nat));
    }
    while r.len() < 32
        invariant
            content@.len() <= r@.len() <= 32,
            r@ == content@ + zero_bytes((r@.len() - content@.len()) as nat),
        decreases 32 - r@.len(),
    {
        r.push(0u8);
        proof {
            assert(r@ =~= content@ + zero_bytes((r@.len() - content@.len()) as nat));
        }
    }
    proof {
        assert(r@ =~= field_bytes(content@));
    }
    r
}

/// Appends a slice's bytes to a vector.
fn push_bytes(out: &mut Vec<u8>, piece: &[u8])
    ensures
        final(out)@ == old(out)@ + piece@,
{
    let ghost start = out@;
    let mut i: usize = 0;
    while i < piece.len()
        invariant
            i <= piece@.len(),
            out@ == start + piece@.take(i as int),
        decreases piece@.len() - i,
    {
        out.push(piece[i]);
        i = i + 1;
        proof {
            assert(out@ =~= start + piece@.take(i as int));
        }
    }
    proof {
        assert(out@ =~= start + piece@);
    }
}

/// Assembles the complete 534-byte footer from the four field values.
/// Each value's byte length must fit the 32-byte slot.
pub fn footer(
    abi_type: &str,
    extension_version: &str,
    duckdb_version: &str,
    duckdb_platform: &str,
) -> (r: Vec<u8>)
    requires
        abi_type.spec_bytes().len() <= 32,
        extension_version.spec_bytes().len() <= 32,
        duckdb_version.spec_bytes().len() <= 32,
        duckdb_platform.spec_bytes().len() <= 32,
    ensures
        r@ == footer_bytes(
            abi_type.spec_bytes(),
            extension_version.spec_bytes(),
            duckdb_version.spec_bytes(),
            duckdb_platform.spec_bytes(),
        ),
        r@.len() == 534,
{
    let mut out = start_signature();
    let reserved: Vec<u8> = Vec::new();
    let reserved_field = encode_field(reserved.as_slice());
    proof {
        assert(reserved_field@ =~= zero_bytes(32));
    }
    let mut i: usize = 0;
    while i < 3
        invariant
            i <= 3,
            reserved_field@ == zero_bytes(32),
            out@ == signature_bytes() + zero_bytes((32 * i) as nat),
        decreases 3 - i,
    {
        push_bytes(&mut out, reserved_field.as_slice());
        i = i + 1;
        proof {
            assert(out@ =~= signature_bytes() + zero_bytes((32 * i) as nat));
        }
    }
    let abi_field = encode_field(abi_type.as_bytes());
    push_bytes(&mut out, abi_field.as_slice());
    let version_field = encode_field(extension_version.as_bytes());
    push_bytes(&mut out, version_field.as_slice());
    let engine_field = encode_field(duckdb_version.as_bytes());
    push_bytes(&mut out, engine_field.as_slice());
    let platform_field = encode_field(duckdb_platform.as_bytes());
    push_bytes(&mut out, platform_field.as_slice());
    // The one field the format fixes to the digit `4` (byte 52).
    let mut discriminant: Vec<u8> = Vec::new();
    discriminant.push(52u8);
    let discriminant_field = encode_field(discriminant.as_slice());
    proof {
        assert(discriminant@ =~= seq![52u8]);
    }
    push_bytes(&mut out, discriminant_field.as_slice());
    let mut j: usize = 0;
    let ghost before_padding = out@;
    while j < 8
        invariant
            j <= 8,
            reserved_field@ == zero_bytes(32),
            out@ == before_padding + zero_bytes((32 * j) as nat),
        decreases 8 - j,
    {
        push_bytes(&mut out, reserved_field.as_slice());
        j = j + 1;
        proof {
            assert(out@ =~= before_padding + zero_bytes((32 * j) as nat));
        }
    }
    proof {
        assert(out@ =~= footer_bytes(
            abi_type.spec_bytes(),
            extension_version.spec_bytes(),
            duckdb_version.spec_bytes(),
            duckdb_platform.spec_bytes(),
        ));
    }
    out
}

/// The content of a field slot with its trailing zero padding removed.
pub open spec fn trimmed(b: Seq<u8>) -> Seq<u8>
    decreases b.len(),
{
    if b.len() == 0 || b.last() != 0u8 {
        b
    } else {
        trimmed(b.drop_last())
    }
}

/// Strips trailing zero bytes from a field slot.
pub fn trim_field(slot: &[u8]) -> (r: Vec<u8>)
    ensures
        r@ == trimmed(slot@),
{
    let mut end: usize = slot.len();
    proof {
        assert(slot@.take(end as int) =~= slot@);
    }
    while end > 0 && slot[end - 1] == 0u8
        invariant
            end <= slot@.len(),
            trimmed(slot@) == trimmed(slot@.take(end as int)),
        decreases end,
    {
        proof {
            assert(slot@.take(end as int).drop_last() =~= slot@.take(end - 1));
        }
        end = end - 1;
    }
    let r = slice_to_vec(slice_subrange(slot, 0, end));
    proof {
        if end > 0 {
            assert(slot@.take(end as int).last() != 0u8);
        }
        assert(trimmed(slot@.take(end as int)) == slot@.take(end as int));
        assert(slot@.subrange(0, end as int) =~= slot@.take(end as int));
    }
    r
}

/// Padding and stripping are inverse: a field written into its slot and
/// read back with the trailing zeros removed is the original content,
/// for content that fits the slot and does not itself end in a zero byte.
pub proof fn lemma_field_round_trip(content: Seq<u8>)
    requires
        content.len() <= 32,
        content.len() > 0 ==> content.last() != 0u8,
    ensures
        trimmed(field_bytes(content)) == content,
{
    lemma_trim_padding(content, (32 - content.len()) as nat);
}

/// Trailing zero padding never changes what stripping yields.
proof fn lemma_trim_padding(content: Seq<u8>, n: nat)
    ensures
        trimmed(content + zero_bytes(n)) == trimmed(content),
    decreases n,
{
    if n == 0 {
        assert(content + zero_bytes(0) =~= content);
    } else {
        let padded = content + zero_bytes(n);
        assert(padded.last() == 0u8);
        assert(padded.drop_last() =~= content + zero_bytes((n - 1) as nat));
        lemma_trim_padding(content, (n - 1) as nat);
    }
}

} // verus!
