use vstd::prelude::*;

use crate::error::DisassemblyError;

verus! {

/// Opcode of `PUSH1`, the first of the 32 contiguous push opcodes.
pub const PUSH1_VALUE: u8 = 0x60;

/// Opcode of `PUSH32`, the last of the push opcodes.
pub const PUSH32_VALUE: u8 = 0x7f;

/// One decoded instruction: a fixed instruction without operand, or a push
/// carrying its immediate operand (big-endian, as it stood in the stream).
#[derive(Clone, Debug, PartialEq, Eq)]
pub enum Instruction {
    Stop,
    Add,
    Mul,
    Sub,
    Div,
    SDiv,
    Mod,
    SMod,
    AddMod,
    MulMod,
    Exp,
    SignExtend,
    Lt,
    Gt,
    SLt,
    SGt,
    Eq,
    IsZero,
    And,
    Or,
    Xor,
    Not,
    Byte,
    Shl,
    Shr,
    Sar,
    Sha3,
    Address,
    Balance,
    Origin,
    Caller,
    CallValue,
    CallDataLoad,
    CallDataSize,
    CallDataCopy,
    CodeSize,
    CodeCopy,
    GasPrice,
    ExtCodeSize,
    ExtCodeCopy,
    ReturnDataSize,
    ReturnDataCopy,
    ExtCodeHash,
    Blockhash,
    Coinbase,
    Timestamp,
    Number,
    Difficulty,
    GasLimit,
    ChainId,
    SelfBalance,
    Pop,
    MLoad,
    MStore,
    MStore8,
    SLoad,
    SStore,
    Jump,
    JumpI,
    Pc,
    MSize,
    Gas,
    JumpDest,
    Dup1,
    Dup2,
    Dup3,
    Dup4,
    Dup5,
    Dup6,
    Dup7,
    Dup8,
    Dup9,
    Dup10,
    Dup11,
    Dup12,
    Dup13,
    Dup14,
    Dup15,
    Dup16,
    Swap1,
    Swap2,
    Swap3,
    Swap4,
    Swap5,
    Swap6,
    Swap7,
    Swap8,
    Swap9,
    Swap10,
    Swap11,
    Swap12,
    Swap13,
    Swap14,
    Swap15,
    Swap16,
    Log0,
    Log1,
    Log2,
    Log3,
    Log4,
    Create,
    Call,
    CallCode,
    Return,
    DelegateCall,
    Create2,
    StaticCall,
    Revert,
    Invalid,
    SelfDestruct,
    Push(Vec<u8>),
}

/// The mathematical model of an instruction: a fixed instruction is its opcode
/// byte, a push is its operand.
pub enum InstructionModel {
    Fixed(u8),
    Push(Seq<u8>),
}

/// Opcode byte of a fixed instruction.
pub open spec fn fixed_opcode_spec(i: Instruction) -> u8 {
    match i {
        Instruction::Stop => 0x00,
        Instruction::Add => 0x01,
        Instruction::Mul => 0x02,
        Instruction::Sub => 0x03,
        Instruction::Div => 0x04,
        Instruction::SDiv => 0x05,
        Instruction::Mod => 0x06,
        Instruction::SMod => 0x07,
        Instruction::AddMod => 0x08,
        Instruction::MulMod => 0x09,
        Instruction::Exp => 0x0a,
        Instruction::SignExtend => 0x0b,
        Instruction::Lt => 0x10,
        Instruction::Gt => 0x11,
        Instruction::SLt => 0x12,
        Instruction::SGt => 0x13,
        Instruction::Eq => 0x14,
        Instruction::IsZero => 0x15,
        Instruction::And => 0x16,
        Instruction::Or => 0x17,
        Instruction::Xor => 0x18,
        Instruction::Not => 0x19,
        Instruction::Byte => 0x1a,
        Instruction::Shl => 0x1b,
        Instruction::Shr => 0x1c,
        Instruction::Sar => 0x1d,
        Instruction::Sha3 => 0x20,
        Instruction::Address => 0x30,
        Instruction::Balance => 0x31,
        Instruction::Origin => 0x32,
        Instruction::Caller => 0x33,
        Instruction::CallValue => 0x34,
        Instruction::CallDataLoad => 0x35,
        Instruction::CallDataSize => 0x36,
        Instruction::CallDataCopy => 0x37,
        Instruction::CodeSize => 0x38,
        Instruction::CodeCopy => 0x39,
        Instruction::GasPrice => 0x3a,
        Instruction::ExtCodeSize => 0x3b,
        Instruction::ExtCodeCopy => 0x3c,
        Instruction::ReturnDataSize => 0x3d,
        Instruction::ReturnDataCopy => 0x3e,
        Instruction::ExtCodeHash => 0x3f,
        Instruction::Blockhash => 0x40,
        Instruction::Coinbase => 0x41,
        Instruction::Timestamp => 0x42,
        Instruction::Number => 0x43,
        Instruction::Difficulty => 0x44,
        Instruction::GasLimit => 0x45,
        Instruction::ChainId => 0x46,
        Instruction::SelfBalance => 0x47,
        Instruction::Pop => 0x50,
        Instruction::MLoad => 0x51,
        Instruction::MStore => 0x52,
        Instruction::MStore8 => 0x53,
        Instruction::SLoad => 0x54,
        Instruction::SStore => 0x55,
        Instruction::Jump => 0x56,
        Instruction::JumpI => 0x57,
        Instruction::Pc => 0x58,
        Instruction::MSize => 0x59,
        Instruction::Gas => 0x5a,
        Instruction::JumpDest => 0x5b,
        Instruction::Dup1 => 0x80,
        Instruction::Dup2 => 0x81,
        Instruction::Dup3 => 0x82,
        Instruction::Dup4 => 0x83,
        Instruction::Dup5 => 0x84,
        Instruction::Dup6 => 0x85,
        Instruction::Dup7 => 0x86,
        Instruction::Dup8 => 0x87,
        Instruction::Dup9 => 0x88,
        Instruction::Dup10 => 0x89,
        Instruction::Dup11 => 0x8a,
        Instruction::Dup12 => 0x8b,
        Instruction::Dup13 => 0x8c,
        Instruction::Dup14 => 0x8d,
        Instruction::Dup15 => 0x8e,
        Instruction::Dup16 => 0x8f,
        Instruction::Swap1 => 0x90,
        Instruction::Swap2 => 0x91,
        Instruction::Swap3 => 0x92,
        Instruction::Swap4 => 0x93,
        Instruction::Swap5 => 0x94,
        Instruction::Swap6 => 0x95,
        Instruction::Swap7 => 0x96,
        Instruction::Swap8 => 0x97,
        Instruction::Swap9 => 0x98,
        Instruction::Swap10 => 0x99,
        Instruction::Swap11 => 0x9a,
        Instruction::Swap12 => 0x9b,
        Instruction::Swap13 => 0x9c,
        Instruction::Swap14 => 0x9d,
        Instruction::Swap15 => 0x9e,
        Instruction::Swap16 => 0x9f,
        Instruction::Log0 => 0xa0,
        Instruction::Log1 => 0xa1,
        Instruction::Log2 => 0xa2,
        Instruction::Log3 => 0xa3,
        Instruction::Log4 => 0xa4,
        Instruction::Create => 0xf0,
        Instruction::Call => 0xf1,
        Instruction::CallCode => 0xf2,
        Instruction::Return => 0xf3,
        Instruction::DelegateCall => 0xf4,
        Instruction::Create2 => 0xf5,
        Instruction::StaticCall => 0xfa,
        Instruction::Revert => 0xfd,
        Instruction::Invalid => 0xfe,
        Instruction::SelfDestruct => 0xff,
        Instruction::Push(_) => 0,
    }
}

impl View for Instruction {
    type V = InstructionModel;

    open spec fn view(&self) -> InstructionModel {
        match self {
            Instruction::Push(operand) => InstructionModel::Push(operand@),
            _ => InstructionModel::Fixed(fixed_opcode_spec(*self)),
        }
    }
}

/// The byte values of the fixed instructions.
pub open spec fn is_fixed_opcode(b: u8) -> bool {
    ||| b <= 0x0b
    ||| 0x10 <= b <= 0x1d
    ||| b == 0x20
    ||| 0x30 <= b <= 0x47
    ||| 0x50 <= b <= 0x5b
    ||| 0x80 <= b <= 0xa4
    ||| 0xf0 <= b <= 0xf5
    ||| b == 0xfa
    ||| b >= 0xfd
}

/// The byte values of the push instructions.
pub open spec fn is_push_opcode(b: u8) -> bool {
    PUSH1_VALUE <= b <= PUSH32_VALUE
}

/// Operand length that a push opcode announces.
pub open spec fn push_len(b: u8) -> nat {
    (b - PUSH1_VALUE + 1) as nat
}

/// Opcode byte of a push whose operand has `len` bytes.
pub open spec fn push_opcode(len: nat) -> u8 {
    (PUSH1_VALUE + len - 1) as u8
}

/// A push operand holds 1 to 32 bytes.
pub open spec fn valid_push_len(len: nat) -> bool {
    1 <= len <= 32
}

impl InstructionModel {
    /// Fixed opcodes are known ones; push operands have a valid length.
    pub open spec fn wf(self) -> bool {
        match self {
            InstructionModel::Fixed(b) => is_fixed_opcode(b),
            InstructionModel::Push(operand) => valid_push_len(operand.len()),
        }
    }

    /// The bytes that encode the instruction.
    pub open spec fn encoding(self) -> Seq<u8> {
        match self {
            InstructionModel::Fixed(b) => seq![b],
            InstructionModel::Push(operand) => seq![push_opcode(operand.len())] + operand,
        }
    }
}

impl Instruction {
    /// An instruction that can be encoded: a push operand holds 1 to 32 bytes.
    pub open spec fn wf(&self) -> bool {
        match self {
            Instruction::Push(operand) => valid_push_len(operand@.len()),
            _ => true,
        }
    }
}

/// What an opcode byte stands for.
pub enum OpcodeKind {
    Fixed(Instruction),
    Push(usize),
    Unknown,
}

/// Looks an opcode byte up in the table of fixed instructions.
pub fn fixed_instruction(b: u8) -> (r: Option<Instruction>)
    ensures
        r is Some <==> is_fixed_opcode(b),
        r matches Some(i) ==> i@ == InstructionModel::Fixed(b),
{
    match b {
        0x00 => Some(Instruction::Stop),
        0x01 => Some(Instruction::Add),
        0x02 => Some(Instruction::Mul),
        0x03 => Some(Instruction::Sub),
        0x04 => Some(Instruction::Div),
        0x05 => Some(Instruction::SDiv),
        0x06 => Some(Instruction::Mod),
        0x07 => Some(Instruction::SMod),
        0x08 => Some(Instruction::AddMod),
        0x09 => Some(Instruction::MulMod),
        0x0a => Some(Instruction::Exp),
        0x0b => Some(Instruction::SignExtend),
        0x10 => Some(Instruction::Lt),
        0x11 => Some(Instruction::Gt),
        0x12 => Some(Instruction::SLt),
        0x13 => Some(Instruction::SGt),
        0x14 => Some(Instruction::Eq),
        0x15 => Some(Instruction::IsZero),
        0x16 => Some(Instruction::And),
        0x17 => Some(Instruction::Or),
        0x18 => Some(Instruction::Xor),
        0x19 => Some(Instruction::Not),
        0x1a => Some(Instruction::Byte),
        0x1b => Some(Instruction::Shl),
        0x1c => Some(Instruction::Shr),
        0x1d => Some(Instruction::Sar),
        0x20 => Some(Instruction::Sha3),
        0x30 => Some(Instruction::Address),
        0x31 => Some(Instruction::Balance),
        0x32 => Some(Instruction::Origin),
        0x33 => Some(Instruction::Caller),
        0x34 => Some(Instruction::CallValue),
        0x35 => Some(Instruction::CallDataLoad),
        0x36 => Some(Instruction::CallDataSize),
        0x37 => Some(Instruction::CallDataCopy),
        0x38 => Some(Instruction::CodeSize),
        0x39 => Some(Instruction::CodeCopy),
        0x3a => Some(Instruction::GasPrice),
        0x3b => Some(Instruction::ExtCodeSize),
        0x3c => Some(Instruction::ExtCodeCopy),
        0x3d => Some(Instruction::ReturnDataSize),
        0x3e => Some(Instruction::ReturnDataCopy),
        0x3f => Some(Instruction::ExtCodeHash),
        0x40 => Some(Instruction::Blockhash),
        0x41 => Some(Instruction::Coinbase),
        0x42 => Some(Instruction::Timestamp),
        0x43 => Some(Instruction::Number),
        0x44 => Some(Instruction::Difficulty),
        0x45 => Some(Instruction::GasLimit),
        0x46 => Some(Instruction::ChainId),
        0x47 => Some(Instruction::SelfBalance),
        0x50 => Some(Instruction::Pop),
        0x51 => Some(Instruction::MLoad),
        0x52 => Some(Instruction::MStore),
        0x53 => Some(Instruction::MStore8),
        0x54 => Some(Instruction::SLoad),
        0x55 => Some(Instruction::SStore),
        0x56 => Some(Instruction::Jump),
        0x57 => Some(Instruction::JumpI),
        0x58 => Some(Instruction::Pc),
        0x59 => Some(Instruction::MSize),
        0x5a => Some(Instruction::Gas),
        0x5b => Some(Instruction::JumpDest),
        0x80 => Some(Instruction::Dup1),
        0x81 => Some(Instruction::Dup2),
        0x82 => Some(Instruction::Dup3),
        0x83 => Some(Instruction::Dup4),
        0x84 => Some(Instruction::Dup5),
        0x85 => Some(Instruction::Dup6),
        0x86 => Some(Instruction::Dup7),
        0x87 => Some(Instruction::Dup8),
        0x88 => Some(Instruction::Dup9),
        0x89 => Some(Instruction::Dup10),
        0x8a => Some(Instruction::Dup11),
        0x8b => Some(Instruction::Dup12),
        0x8c => Some(Instruction::Dup13),
        0x8d => Some(Instruction::Dup14),
        0x8e => Some(Instruction::Dup15),
        0x8f => Some(Instruction::Dup16),
        0x90 => Some(Instruction::Swap1),
        0x91 => Some(Instruction::Swap2),
        0x92 => Some(Instruction::Swap3),
        0x93 => Some(Instruction::Swap4),
        0x94 => Some(Instruction::Swap5),
        0x95 => Some(Instruction::Swap6),
        0x96 => Some(Instruction::Swap7),
        0x97 => Some(Instruction::Swap8),
        0x98 => Some(Instruction::Swap9),
        0x99 => Some(Instruction::Swap10),
        0x9a => Some(Instruction::Swap11),
        0x9b => Some(Instruction::Swap12),
        0x9c => Some(Instruction::Swap13),
        0x9d => Some(Instruction::Swap14),
        0x9e => Some(Instruction::Swap15),
        0x9f => Some(Instruction::Swap16),
        0xa0 => Some(Instruction::Log0),
        0xa1 => Some(Instruction::Log1),
        0xa2 => Some(Instruction::Log2),
        0xa3 => Some(Instruction::Log3),
        0xa4 => Some(Instruction::Log4),
        0xf0 => Some(Instruction::Create),
        0xf1 => Some(Instruction::Call),
        0xf2 => Some(Instruction::CallCode),
        0xf3 => Some(Instruction::Return),
        0xf4 => Some(Instruction::DelegateCall),
        0xf5 => Some(Instruction::Create2),
        0xfa => Some(Instruction::StaticCall),
        0xfd => Some(Instruction::Revert),
        0xfe => Some(Instruction::Invalid),
        0xff => Some(Instruction::SelfDestruct),
        _ => None,
    }
}

/// Resolves an opcode byte: a fixed instruction, a push with its operand
/// length, or unknown.
pub fn resolve(b: u8) -> (r: OpcodeKind)
    ensures
        match r {
            OpcodeKind::Fixed(i) => is_fixed_opcode(b) && i@ == InstructionModel::Fixed(b),
            OpcodeKind::Push(len) => is_push_opcode(b) && len == push_len(b),
            OpcodeKind::Unknown => !is_fixed_opcode(b) && !is_push_opcode(b),
        },
{
    if PUSH1_VALUE <= b && b <= PUSH32_VALUE {
        OpcodeKind::Push((b - PUSH1_VALUE + 1) as usize)
    } else {
        match fixed_instruction(b) {
            Some(i) => OpcodeKind::Fixed(i),
            None => OpcodeKind::Unknown,
        }
    }
}

/// Opcode byte of a fixed instruction.
fn fixed_opcode(i: &Instruction) -> (r: u8)
    ensures
        r == fixed_opcode_spec(*i),
{
    match i {
        Instruction::Stop => 0x00,
        Instruction::Add => 0x01,
        Instruction::Mul => 0x02,
        Instruction::Sub => 0x03,
        Instruction::Div => 0x04,
        Instruction::SDiv => 0x05,
        Instruction::Mod => 0x06,
        Instruction::SMod => 0x07,
        Instruction::AddMod => 0x08,
        Instruction::MulMod => 0x09,
        Instruction::Exp => 0x0a,
        Instruction::SignExtend => 0x0b,
        Instruction::Lt => 0x10,
        Instruction::Gt => 0x11,
        Instruction::SLt => 0x12,
        Instruction::SGt => 0x13,
        Instruction::Eq => 0x14,
        Instruction::IsZero => 0x15,
        Instruction::And => 0x16,
        Instruction::Or => 0x17,
        Instruction::Xor => 0x18,
        Instruction::Not => 0x19,
        Instruction::Byte => 0x1a,
        Instruction::Shl => 0x1b,
        Instruction::Shr => 0x1c,
        Instruction::Sar => 0x1d,
        Instruction::Sha3 => 0x20,
        Instruction::Address => 0x30,
        Instruction::Balance => 0x31,
        Instruction::Origin => 0x32,
        Instruction::Caller => 0x33,
        Instruction::CallValue => 0x34,
        Instruction::CallDataLoad => 0x35,
        Instruction::CallDataSize => 0x36,
        Instruction::CallDataCopy => 0x37,
        Instruction::CodeSize => 0x38,
        Instruction::CodeCopy => 0x39,
        Instruction::GasPrice => 0x3a,
        Instruction::ExtCodeSize => 0x3b,
        Instruction::ExtCodeCopy => 0x3c,
        Instruction::ReturnDataSize => 0x3d,
        Instruction::ReturnDataCopy => 0x3e,
        Instruction::ExtCodeHash => 0x3f,
        Instruction::Blockhash => 0x40,
        Instruction::Coinbase => 0x41,
        Instruction::Timestamp => 0x42,
        Instruction::Number => 0x43,
        Instruction::Difficulty => 0x44,
        Instruction::GasLimit => 0x45,
        Instruction::ChainId => 0x46,
        Instruction::SelfBalance => 0x47,
        Instruction::Pop => 0x50,
        Instruction::MLoad => 0x51,
        Instruction::MStore => 0x52,
        Instruction::MStore8 => 0x53,
        Instruction::SLoad => 0x54,
        Instruction::SStore => 0x55,
        Instruction::Jump => 0x56,
        Instruction::JumpI => 0x57,
        Instruction::Pc => 0x58,
        Instruction::MSize => 0x59,
        Instruction::Gas => 0x5a,
        Instruction::JumpDest => 0x5b,
        Instruction::Dup1 => 0x80,
        Instruction::Dup2 => 0x81,
        Instruction::Dup3 => 0x82,
        Instruction::Dup4 => 0x83,
        Instruction::Dup5 => 0x84,
        Instruction::Dup6 => 0x85,
        Instruction::Dup7 => 0x86,
        Instruction::Dup8 => 0x87,
        Instruction::Dup9 => 0x88,
        Instruction::Dup10 => 0x89,
        Instruction::Dup11 => 0x8a,
        Instruction::Dup12 => 0x8b,
        Instruction::Dup13 => 0x8c,
        Instruction::Dup14 => 0x8d,
        Instruction::Dup15 => 0x8e,
        Instruction::Dup16 => 0x8f,
        Instruction::Swap1 => 0x90,
        Instruction::Swap2 => 0x91,
        Instruction::Swap3 => 0x92,
        Instruction::Swap4 => 0x93,
        Instruction::Swap5 => 0x94,
        Instruction::Swap6 => 0x95,
        Instruction::Swap7 => 0x96,
        Instruction::Swap8 => 0x97,
        Instruction::Swap9 => 0x98,
        Instruction::Swap10 => 0x99,
        Instruction::Swap11 => 0x9a,
        Instruction::Swap12 => 0x9b,
        Instruction::Swap13 => 0x9c,
        Instruction::Swap14 => 0x9d,
        Instruction::Swap15 => 0x9e,
        Instruction::Swap16 => 0x9f,
        Instruction::Log0 => 0xa0,
        Instruction::Log1 => 0xa1,
        Instruction::Log2 => 0xa2,
        Instruction::Log3 => 0xa3,
        Instruction::Log4 => 0xa4,
        Instruction::Create => 0xf0,
        Instruction::Call => 0xf1,
        Instruction::CallCode => 0xf2,
        Instruction::Return => 0xf3,
        Instruction::DelegateCall => 0xf4,
        Instruction::Create2 => 0xf5,
        Instruction::StaticCall => 0xfa,
        Instruction::Revert => 0xfd,
        Instruction::Invalid => 0xfe,
        Instruction::SelfDestruct => 0xff,
        Instruction::Push(_) => 0,
    }
}

/// Every fixed instruction has a known opcode.
pub proof fn lemma_fixed_opcode_known(i: Instruction)
    requires
        !(i is Push),
    ensures
        is_fixed_opcode(fixed_opcode_spec(i)),
{
}

/// Every instruction that can be encoded has a well-formed model.
pub proof fn lemma_instruction_wf(i: Instruction)
    requires
        i.wf(),
    ensures
        i@.wf(),
{
    if !(i is Push) {
        lemma_fixed_opcode_known(i);
    }
}

/// A copy of an instruction, with the same model.
pub fn copy_instruction(i: &Instruction) -> (r: Instruction)
    ensures
        r@ == i@,
{
    match i {
        Instruction::Push(operand) => Instruction::Push(operand.clone()),
        _ => {
            let b = fixed_opcode(i);
            proof {
                lemma_fixed_opcode_known(*i);
            }
            fixed_instruction(b).unwrap()
        }
    }
}

/// Encodes one instruction.
pub fn assemble_instruction(i: &Instruction) -> (r: Vec<u8>)
    requires
        i.wf(),
    ensures
        r@ == i@.encoding(),
{
    match i {
        Instruction::Push(operand) => {
            let mut r: Vec<u8> = Vec::new();
            r.push(PUSH1_VALUE + (operand.len() - 1) as u8);
            let mut k: usize = 0;
            while k < operand.len()
                invariant
                    valid_push_len(operand@.len()),
                    0 <= k <= operand@.len(),
                    r@ == seq![push_opcode(operand@.len())] + operand@.subrange(0, k as int),
                decreases operand@.len() - k,
            {
                r.push(operand[k]);
                k += 1;
                assert(operand@.subrange(0, k as int) == operand@.subrange(0, k - 1) + seq![operand@[k - 1]]);
            }
            assert(operand@.subrange(0, operand@.len() as int) == operand@);
            r
        },
        _ => {
            let mut r: Vec<u8> = Vec::new();
            r.push(fixed_opcode(i));
            r
        },
    }
}

impl InstructionModel {
    /// Number of bytes the instruction takes in the stream.
    pub open spec fn size(self) -> nat {
        match self {
            InstructionModel::Fixed(_) => 1,
            InstructionModel::Push(operand) => 1 + operand.len(),
        }
    }
}

/// The instruction that starts at `pos`, or why none does: the input ends
/// there, a push operand runs past the end, or the opcode is unknown.
pub open spec fn next_instruction(bytes: Seq<u8>, pos: int) -> Result<InstructionModel, DisassemblyError> {
    if pos < 0 || pos >= bytes.len() {
        Err(DisassemblyError::EndOfStream)
    } else if is_push_opcode(bytes[pos]) {
        let end = pos + 1 + push_len(bytes[pos]);
        if end > bytes.len() {
            Err(DisassemblyError::TooFewBytesForPush)
        } else {
            Ok(InstructionModel::Push(bytes.subrange(pos + 1, end)))
        }
    } else if is_fixed_opcode(bytes[pos]) {
        Ok(InstructionModel::Fixed(bytes[pos]))
    } else {
        Err(DisassemblyError::UnknownOpcode)
    }
}

/// Number of bytes an instruction takes in the stream.
pub fn instruction_size(i: &Instruction) -> (r: usize)
    requires
        i.wf(),
    ensures
        r == i@.size(),
{
    match i {
        Instruction::Push(operand) => 1 + operand.len(),
        _ => 1,
    }
}

/// Decodes the instruction that starts at `offset`.
pub fn disassemble_next(bytes: &[u8], offset: usize) -> (r: Result<Instruction, DisassemblyError>)
    ensures
        match r {
            Ok(i) => next_instruction(bytes@, offset as int) == Ok::<InstructionModel, DisassemblyError>(i@) && i.wf(),
            Err(e) => next_instruction(bytes@, offset as int) == Err::<InstructionModel, DisassemblyError>(e),
        },
{
    if offset >= bytes.len() {
        return Err(DisassemblyError::EndOfStream);
    }
    match resolve(bytes[offset]) {
        OpcodeKind::Fixed(i) => Ok(i),
        OpcodeKind::Push(len) => {
            if bytes.len() - offset - 1 < len {
                return Err(DisassemblyError::TooFewBytesForPush);
            }
            let mut operand: Vec<u8> = Vec::new();
            let start = offset + 1;
            let mut k: usize = 0;
            while k < len
                invariant
                    start == offset + 1,
                    bytes@.len() <= usize::MAX,
                    start + len <= bytes@.len(),
                    0 <= k <= len,
                    operand@ == bytes@.subrange(start as int, start + k),
                decreases len - k,
            {
                operand.push(bytes[start + k]);
                k += 1;
                assert(operand@ =~= bytes@.subrange(start as int, start + k));
            }
            Ok(Instruction::Push(operand))
        },
        OpcodeKind::Unknown => Err(DisassemblyError::UnknownOpcode),
    }
}

} // verus!
