pub mod error;
pub mod hex_text;
pub mod instructions;
pub mod lemmas;

use std::collections::BTreeMap;
use vstd::prelude::*;
use vstd::string::StringSliceAdditionalSpecFns;

pub use error::DisassemblyError;
pub use instructions::Instruction;

use hex_text::{decode_hex_digits, hex_decoded, strip_hex_prefix, strip_prefix};
use instructions::{
    assemble_instruction, copy_instruction, disassemble_next, instruction_size, next_instruction,
    InstructionModel,
};

verus! {

broadcast use vstd::laws_cmp::group_laws_cmp;

/// Decoding from `pos` on, with `acc` holding what was decoded before it.
/// `None` where an unknown opcode is met; the end of the input, or a push
/// whose operand runs past it, ends the decode with what was found so far.
pub open spec fn decode_from(
    bytes: Seq<u8>,
    pos: int,
    acc: Map<usize, InstructionModel>,
) -> Option<Map<usize, InstructionModel>>
    decreases bytes.len() - pos,
{
    match next_instruction(bytes, pos) {
        Ok(i) => decode_from(bytes, pos + i.size(), acc.insert(pos as usize, i)),
        Err(DisassemblyError::UnknownOpcode) => None,
        Err(_) => Some(acc),
    }
}

/// The instructions of a byte buffer, each at the offset of its opcode byte.
pub open spec fn decoded(bytes: Seq<u8>) -> Result<Map<usize, InstructionModel>, DisassemblyError> {
    match decode_from(bytes, 0, Map::empty()) {
        Some(m) => Ok(m),
        None => Err(DisassemblyError::UnknownOpcode),
    }
}

/// The instructions of hex text, with or without a leading `0x`.
pub open spec fn decoded_hex(text: Seq<u8>) -> Result<Map<usize, InstructionModel>, DisassemblyError> {
    match hex_decoded(strip_hex_prefix(text)) {
        Some(bytes) => decoded(bytes),
        None => Err(DisassemblyError::InvalidHexCharacter),
    }
}

/// The model of each instruction of a map.
pub open spec fn map_model(m: Map<usize, Instruction>) -> Map<usize, InstructionModel> {
    m.map_values(|i: Instruction| i@)
}

/// A decode result, with its map seen through `map_model`.
pub open spec fn result_model(r: Result<BTreeMap<usize, Instruction>, DisassemblyError>) -> Result<
    Map<usize, InstructionModel>,
    DisassemblyError,
> {
    match r {
        Ok(m) => Ok(map_model(m@)),
        Err(e) => Err(e),
    }
}

/// Decoded instructions, by the offset of their opcode byte.
#[derive(Clone, Debug)]
pub struct Disassembly {
    pub instructions: BTreeMap<usize, Instruction>,
}

impl View for Disassembly {
    type V = Map<usize, InstructionModel>;

    open spec fn view(&self) -> Map<usize, InstructionModel> {
        map_model(self.instructions@)
    }
}

impl Disassembly {
    /// Decodes a byte buffer.
    pub fn from_bytes(bytes: &[u8]) -> (r: Result<Self, DisassemblyError>)
        ensures
            match r {
                Ok(d) => decoded(bytes@) == Ok::<_, DisassemblyError>(d@),
                Err(e) => decoded(bytes@) == Err::<Map<usize, InstructionModel>, _>(e),
            },
    {
        match disassemble_bytes(bytes) {
            Ok(instructions) => Ok(Self { instructions }),
            Err(e) => Err(e),
        }
    }

    /// Decodes hex text, with or without a leading `0x`.
    pub fn from_hex_str(input: &str) -> (r: Result<Self, DisassemblyError>)
        ensures
            match r {
                Ok(d) => decoded_hex(input.spec_bytes()) == Ok::<_, DisassemblyError>(d@),
                Err(e) => decoded_hex(input.spec_bytes()) == Err::<Map<usize, InstructionModel>, _>(e),
            },
    {
        match disassemble_hex_str(input) {
            Ok(instructions) => Ok(Self { instructions }),
            Err(e) => Err(e),
        }
    }

    /// The instruction whose opcode byte stands at `addr`, if any.
    pub fn get(&self, addr: usize) -> (r: Option<Instruction>)
        ensures
            match r {
                Some(i) => self@.contains_key(addr) && i@ == self@[addr],
                None => !self@.contains_key(addr),
            },
    {
        match self.instructions.get(&addr) {
            Some(i) => Some(copy_instruction(i)),
            None => None,
        }
    }
}

/// The encoding of a sequence of instructions, one after the other.
pub open spec fn encode_all(s: Seq<InstructionModel>) -> Seq<u8>
    decreases s.len(),
{
    if s.len() == 0 {
        Seq::empty()
    } else {
        s[0].encoding() + encode_all(s.drop_first())
    }
}

/// The models of a sequence of instructions.
pub open spec fn seq_model(s: Seq<Instruction>) -> Seq<InstructionModel> {
    s.map_values(|i: Instruction| i@)
}

/// Encodes a sequence of instructions, in order, into bytes. Each push
/// operand must hold 1 to 32 bytes: no opcode encodes another length.
pub fn assemble_instructions(disassembly: Vec<Instruction>) -> (r: Vec<u8>)
    requires
        forall|k: int| 0 <= k < disassembly@.len() ==> (#[trigger] disassembly@[k]).wf(),
    ensures
        r@ == encode_all(seq_model(disassembly@)),
{
    let mut result: Vec<u8> = Vec::new();
    let mut k: usize = disassembly.len();
    while k > 0
        invariant
            k <= disassembly@.len(),
            forall|j: int| 0 <= j < disassembly@.len() ==> (#[trigger] disassembly@[j]).wf(),
            result@ == encode_all(seq_model(disassembly@.subrange(k as int, disassembly@.len() as int))),
        decreases k,
    {
        k -= 1;
        let mut bytes = assemble_instruction(&disassembly[k]);
        let ghost tail = disassembly@.subrange(k + 1, disassembly@.len() as int);
        let ghost whole = disassembly@.subrange(k as int, disassembly@.len() as int);
        assert(seq_model(whole).drop_first() =~= seq_model(tail));
        bytes.append(&mut result);
        result = bytes;
    }
    assert(disassembly@.subrange(0, disassembly@.len() as int) =~= disassembly@);
    result
}

/// Decodes hex text, with or without a leading `0x`.
pub fn disassemble_hex_str(input: &str) -> (r: Result<BTreeMap<usize, Instruction>, DisassemblyError>)
    ensures
        result_model(r) == decoded_hex(input.spec_bytes()),
{
    let text = strip_prefix(input.as_bytes());
    match decode_hex_digits(text) {
        Ok(bytes) => disassemble_bytes(bytes.as_slice()),
        Err(e) => Err(DisassemblyError::from(e)),
    }
}

/// Decodes a byte buffer into instructions by offset.
pub fn disassemble_bytes(bytes: &[u8]) -> (r: Result<BTreeMap<usize, Instruction>, DisassemblyError>)
    ensures
        result_model(r) == decoded(bytes@),
{
    let mut instructions: BTreeMap<usize, Instruction> = BTreeMap::new();
    let mut offset: usize = 0;
    let _len = bytes.len();
    assert(map_model(instructions@) =~= Map::empty());
    loop
        invariant
            offset <= bytes@.len(),
            bytes@.len() <= usize::MAX,
            decode_from(bytes@, 0, Map::empty()) == decode_from(bytes@, offset as int, map_model(instructions@)),
        ensures
            decode_from(bytes@, 0, Map::empty()) == Some(map_model(instructions@)),
        decreases bytes@.len() - offset,
    {
        match disassemble_next(bytes, offset) {
            Ok(i) => {
                let size = instruction_size(&i);
                let ghost old_map = instructions@;
                instructions.insert(offset, i);
                assert(map_model(instructions@) =~= map_model(old_map).insert(offset, i@));
                offset = offset + size;
            },
            Err(DisassemblyError::UnknownOpcode) => {
                return Err(DisassemblyError::UnknownOpcode);
            },
            Err(_) => {
                break;
            },
        }
    }
    Ok(instructions)
}

} // verus!
