use vstd::prelude::*;

use crate::error::DisassemblyError;
use crate::hex_text::{has_hex_prefix, hex_decoded, is_hex_digit, strip_hex_prefix};
use crate::instructions::{
    is_fixed_opcode, is_push_opcode, lemma_instruction_wf, next_instruction, push_len, Instruction,
    InstructionModel,
};
use crate::{decode_from, decoded, decoded_hex, encode_all, seq_model};

verus! {

/// Where the instructions of `s` land when laid out one after the other from
/// offset `pos` on, added to `acc`.
pub open spec fn layout(
    s: Seq<InstructionModel>,
    pos: int,
    acc: Map<usize, InstructionModel>,
) -> Map<usize, InstructionModel>
    decreases s.len(),
{
    if s.len() == 0 {
        acc
    } else {
        layout(s.drop_first(), pos + s[0].size(), acc.insert(pos as usize, s[0]))
    }
}

/// The encoding of an instruction takes `size` bytes.
proof fn lemma_encoding_size(i: InstructionModel)
    ensures
        i.encoding().len() == i.size(),
{
}

/// A well-formed instruction decodes from its own encoding.
proof fn lemma_decode_one(bytes: Seq<u8>, p: int, i: InstructionModel)
    requires
        i.wf(),
        0 <= p,
        p + i.size() <= bytes.len(),
        bytes.subrange(p, p + i.size()) == i.encoding(),
    ensures
        next_instruction(bytes, p) == Ok::<InstructionModel, DisassemblyError>(i),
{
    lemma_encoding_size(i);
    assert(bytes[p] == i.encoding()[0]);
    match i {
        InstructionModel::Fixed(b) => {},
        InstructionModel::Push(operand) => {
            assert(is_push_opcode(bytes[p]));
            assert(push_len(bytes[p]) == operand.len());
            assert(bytes.subrange(p + 1, p + 1 + operand.len()) =~= operand) by {
                assert forall|k: int| 0 <= k < operand.len() implies bytes.subrange(
                    p + 1,
                    p + 1 + operand.len(),
                )[k] == operand[k] by {
                    assert(bytes[p + 1 + k] == i.encoding()[1 + k]);
                }
            }
        },
    }
}

/// The length of an encoding is the sum of the sizes of its instructions.
proof fn lemma_encode_all_len(s: Seq<InstructionModel>)
    ensures
        s.len() > 0 ==> encode_all(s).len() == s[0].size() + encode_all(s.drop_first()).len(),
{
    if s.len() > 0 {
        lemma_encoding_size(s[0]);
    }
}

/// Decoding runs over the encoding of well-formed instructions, laying them out
/// one after the other.
proof fn lemma_decode_encoded(
    bytes: Seq<u8>,
    p: int,
    s: Seq<InstructionModel>,
    acc: Map<usize, InstructionModel>,
)
    requires
        forall|k: int| 0 <= k < s.len() ==> (#[trigger] s[k]).wf(),
        0 <= p,
        p + encode_all(s).len() <= bytes.len(),
        bytes.subrange(p, p + encode_all(s).len()) == encode_all(s),
    ensures
        decode_from(bytes, p, acc) == decode_from(
            bytes,
            p + encode_all(s).len(),
            layout(s, p, acc),
        ),
    decreases s.len(),
{
    if s.len() > 0 {
        let i = s[0];
        let rest = s.drop_first();
        lemma_encode_all_len(s);
        lemma_encoding_size(i);
        let e = encode_all(s);
        assert(e == i.encoding() + encode_all(rest));
        assert(bytes.subrange(p, p + i.size()) =~= i.encoding()) by {
            assert forall|k: int| 0 <= k < i.size() implies bytes.subrange(p, p + i.size())[k]
                == i.encoding()[k] by {
                assert(bytes.subrange(p, p + e.len())[k] == e[k]);
            }
        }
        lemma_decode_one(bytes, p, s[0]);
        let q = p + i.size();
        assert(bytes.subrange(q, q + encode_all(rest).len()) =~= encode_all(rest)) by {
            assert forall|k: int| 0 <= k < encode_all(rest).len() implies bytes.subrange(
                q,
                q + encode_all(rest).len(),
            )[k] == encode_all(rest)[k] by {
                assert(bytes.subrange(p, p + e.len())[i.size() + k] == e[i.size() + k]);
            }
        }
        assert forall|k: int| 0 <= k < rest.len() implies (#[trigger] rest[k]).wf() by {
            assert(s[k + 1].wf());
        }
        lemma_decode_encoded(bytes, q, rest, acc.insert(p as usize, i));
    }
}

/// Encoding well-formed instructions and decoding the bytes gives back each
/// instruction, at the offset where its encoding starts.
pub proof fn lemma_round_trip(s: Seq<Instruction>)
    requires
        forall|k: int| 0 <= k < s.len() ==> (#[trigger] s[k]).wf(),
    ensures
        decoded(encode_all(seq_model(s))) == Ok::<_, DisassemblyError>(
            layout(seq_model(s), 0, Map::empty()),
        ),
{
    let m = seq_model(s);
    assert forall|k: int| 0 <= k < m.len() implies (#[trigger] m[k]).wf() by {
        lemma_instruction_wf(s[k]);
    }
    let bytes = encode_all(m);
    assert(bytes.subrange(0, bytes.len() as int) =~= bytes);
    lemma_decode_encoded(bytes, 0, m, Map::empty());
}

/// A push at the end of the input whose operand is cut short ends the decode:
/// the instructions before it are the result.
pub proof fn lemma_truncated_push(s: Seq<InstructionModel>, b: u8, tail: Seq<u8>)
    requires
        forall|k: int| 0 <= k < s.len() ==> (#[trigger] s[k]).wf(),
        is_push_opcode(b),
        tail.len() < push_len(b),
    ensures
        decoded(encode_all(s) + seq![b] + tail) == Ok::<_, DisassemblyError>(
            layout(s, 0, Map::empty()),
        ),
{
    let e = encode_all(s);
    let bytes = e + seq![b] + tail;
    assert(bytes.subrange(0, e.len() as int) =~= e);
    lemma_decode_encoded(bytes, 0, s, Map::empty());
    assert(bytes[e.len() as int] == b);
}

/// An unknown opcode where an instruction should start fails the whole decode.
pub proof fn lemma_unknown_opcode(s: Seq<InstructionModel>, b: u8, rest: Seq<u8>)
    requires
        forall|k: int| 0 <= k < s.len() ==> (#[trigger] s[k]).wf(),
        !is_fixed_opcode(b),
        !is_push_opcode(b),
    ensures
        decoded(encode_all(s) + seq![b] + rest) == Err::<Map<usize, InstructionModel>, _>(
            DisassemblyError::UnknownOpcode,
        ),
{
    let e = encode_all(s);
    let bytes = e + seq![b] + rest;
    assert(bytes.subrange(0, e.len() as int) =~= e);
    lemma_decode_encoded(bytes, 0, s, Map::empty());
    assert(bytes[e.len() as int] == b);
}

/// Hex text decodes the same with and without a leading `0x`.
pub proof fn lemma_hex_prefix(digits: Seq<u8>)
    requires
        !has_hex_prefix(digits),
    ensures
        decoded_hex(seq![0x30u8, 0x78u8] + digits) == decoded_hex(digits),
{
    let text = seq![0x30u8, 0x78u8] + digits;
    assert(strip_hex_prefix(text) =~= digits);
}

/// Hex text with a character that is no hex digit fails with
/// `InvalidHexCharacter`.
pub proof fn lemma_non_hex_character(text: Seq<u8>, i: int)
    requires
        0 <= i < strip_hex_prefix(text).len(),
        !is_hex_digit(strip_hex_prefix(text)[i]),
    ensures
        decoded_hex(text) == Err::<Map<usize, InstructionModel>, _>(
            DisassemblyError::InvalidHexCharacter,
        ),
{
    assert(hex_decoded(strip_hex_prefix(text)) is None);
}

} // verus!
