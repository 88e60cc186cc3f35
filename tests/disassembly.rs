use std::collections::BTreeMap;

use evm_disasm::instructions::{assemble_instruction, disassemble_next, resolve, OpcodeKind};
use evm_disasm::{
    assemble_instructions, disassemble_bytes, disassemble_hex_str, Disassembly, DisassemblyError,
    Instruction,
};

fn simple_map() -> BTreeMap<usize, Instruction> {
    let mut disas = BTreeMap::new();
    disas.insert(0, Instruction::Push(vec![0x80]));
    disas.insert(2, Instruction::Blockhash);
    disas.insert(3, Instruction::MStore);
    disas.insert(4, Instruction::Push(vec![0x2]));
    disas.insert(6, Instruction::Push(vec![0x1, 0x00]));
    disas
}

#[test]
fn simple_programm() {
    let program = "0x608040526002610100";
    let program_bytes = vec![0x60, 0x80, 0x40, 0x52, 0x60, 0x02, 0x61, 0x01, 0x00];
    let disas = simple_map();

    assert_eq!(disassemble_hex_str(program).unwrap(), disas);
    assert_eq!(disassemble_bytes(&program_bytes).unwrap(), disas);
}

// The metadata that the compiler appends after the code holds bytes outside the
// opcode table (0x2c): an unknown opcode is fatal wherever it stands, so the
// whole decode fails, while the code before the metadata decodes.
#[test]
fn longer_program() {
    let code = "6080604052348015600f57600080fd5b506004361060285760003560e01c806318b969a014602d575b600080fd5b60336049565b6040518082815260200191505060405180910390f35b6000600260016003600054020181605c57fe5b04600081905550633b9aca0060005481607157fe5b06600081905550600043905060004490506000429050600045905060008183858760005401010101905060006025828160a657fe5b0690508096505050505050509056fe";
    let metadata = "a265627a7a72315820352cd5f3ce6a4befb464c84b845f54a57437fd835fffaf9b4d17a089ea70d25f64736f6c634300050d0032";
    let prog = format!("{}{}", code, metadata);
    assert_eq!(disassemble_hex_str(&prog), Err(DisassemblyError::UnknownOpcode));
    let disas = disassemble_hex_str(code).unwrap();
    assert_eq!(disas.get(&0), Some(&Instruction::Push(vec![0x80])));
    assert_eq!(disas.get(&(code.len() / 2 - 1)), Some(&Instruction::Invalid));
}

#[test]
fn worked_example_offsets() {
    let d = Disassembly::from_bytes(&[0x60, 0x80, 0x40, 0x52, 0x60, 0x02, 0x61, 0x01, 0x00]).unwrap();
    assert_eq!(d.instructions.len(), 5);
    assert_eq!(d.get(0), Some(Instruction::Push(vec![0x80])));
    assert_eq!(d.get(2), Some(Instruction::Blockhash));
    assert_eq!(d.get(3), Some(Instruction::MStore));
    assert_eq!(d.get(4), Some(Instruction::Push(vec![0x02])));
    assert_eq!(d.get(6), Some(Instruction::Push(vec![0x01, 0x00])));
    for addr in [1usize, 5, 7, 8, 9, 100] {
        assert_eq!(d.get(addr), None);
    }
    let keys: Vec<usize> = d.instructions.keys().cloned().collect();
    assert_eq!(keys, vec![0, 2, 3, 4, 6]);
}

#[test]
fn worked_example_hex() {
    let d = Disassembly::from_hex_str("0x608040526002610100").unwrap();
    assert_eq!(d.instructions, simple_map());
}

#[test]
fn empty_input_decodes_to_nothing() {
    assert_eq!(disassemble_bytes(&[]).unwrap(), BTreeMap::new());
    assert_eq!(disassemble_hex_str("").unwrap(), BTreeMap::new());
    assert_eq!(disassemble_hex_str("0x").unwrap(), BTreeMap::new());
}

#[test]
fn short_hex_inputs() {
    assert_eq!(disassemble_hex_str("0"), Err(DisassemblyError::InvalidHexCharacter));
    assert_eq!(disassemble_hex_str("x"), Err(DisassemblyError::InvalidHexCharacter));
    assert_eq!(disassemble_hex_str("0x0"), Err(DisassemblyError::InvalidHexCharacter));
}

#[test]
fn round_trip_all_push_lengths() {
    let mut seq = vec![Instruction::JumpDest, Instruction::Stop];
    for len in 1..=32u8 {
        seq.push(Instruction::Push((0..len).collect()));
        seq.push(Instruction::Add);
    }
    seq.push(Instruction::SelfDestruct);
    let bytes = assemble_instructions(seq.clone());
    let d = Disassembly::from_bytes(&bytes).unwrap();
    let mut offset = 0usize;
    for i in &seq {
        assert_eq!(d.get(offset).as_ref(), Some(i));
        offset += assemble_instruction(i).len();
    }
    assert_eq!(offset, bytes.len());
    assert_eq!(d.instructions.len(), seq.len());
}

#[test]
fn encoder_bytes() {
    let bytes = assemble_instructions(vec![
        Instruction::Push(vec![0x80]),
        Instruction::Blockhash,
        Instruction::MStore,
        Instruction::Push(vec![0x02]),
        Instruction::Push(vec![0x01, 0x00]),
    ]);
    assert_eq!(bytes, vec![0x60, 0x80, 0x40, 0x52, 0x60, 0x02, 0x61, 0x01, 0x00]);
    assert_eq!(assemble_instructions(vec![Instruction::Push(vec![0xff; 32])])[0], 0x7f);
    assert_eq!(assemble_instructions(vec![]), Vec::<u8>::new());
}

#[test]
fn truncated_push_at_end() {
    // PUSH2 with one operand byte left
    let d = disassemble_bytes(&[0x01, 0x61, 0xaa]).unwrap();
    let mut expected = BTreeMap::new();
    expected.insert(0, Instruction::Add);
    assert_eq!(d, expected);
    // PUSH32 with nothing after it
    assert_eq!(disassemble_bytes(&[0x5b, 0x7f]).unwrap().len(), 1);
    assert_eq!(disassemble_bytes(&[0x7f]).unwrap(), BTreeMap::new());
}

#[test]
fn unknown_opcode_is_fatal() {
    assert_eq!(disassemble_bytes(&[0x0c]), Err(DisassemblyError::UnknownOpcode));
    assert_eq!(disassemble_bytes(&[0x60, 0x01, 0x01, 0x21]), Err(DisassemblyError::UnknownOpcode));
    assert_eq!(
        Disassembly::from_hex_str("6001ef").map(|d| d.instructions),
        Err(DisassemblyError::UnknownOpcode)
    );
    // an unknown byte inside a push operand is operand data
    assert_eq!(disassemble_bytes(&[0x60, 0x0c]).unwrap().len(), 1);
}

#[test]
fn unknown_opcode_after_truncation_point_is_not_reached() {
    // the push runs past the end; the 0x0c is its operand data
    assert_eq!(disassemble_bytes(&[0x00, 0x62, 0x0c]).unwrap().len(), 1);
}

#[test]
fn hex_prefix_is_optional() {
    assert_eq!(disassemble_hex_str("0x6001"), disassemble_hex_str("6001"));
    assert_eq!(disassemble_hex_str("0x6001").unwrap().get(&0), Some(&Instruction::Push(vec![0x01])));
    assert_eq!(disassemble_hex_str("0xAABB"), disassemble_hex_str("AABB"));
}

#[test]
fn hex_is_case_insensitive() {
    let upper = disassemble_hex_str("0x61ABCD").unwrap();
    assert_eq!(upper, disassemble_hex_str("61abcd").unwrap());
    assert_eq!(upper.get(&0), Some(&Instruction::Push(vec![0xab, 0xcd])));
}

#[test]
fn malformed_hex() {
    assert_eq!(disassemble_hex_str("60zz"), Err(DisassemblyError::InvalidHexCharacter));
    assert_eq!(disassemble_hex_str("0x60 1"), Err(DisassemblyError::InvalidHexCharacter));
    assert_eq!(disassemble_hex_str("601"), Err(DisassemblyError::InvalidHexCharacter));
    assert_eq!(disassemble_hex_str("0X6001"), Err(DisassemblyError::InvalidHexCharacter));
    assert_eq!(disassemble_hex_str("0x0x6001"), Err(DisassemblyError::InvalidHexCharacter));
    assert_eq!(disassemble_hex_str("60é0"), Err(DisassemblyError::InvalidHexCharacter));
    assert!(matches!(
        Disassembly::from_hex_str("g0"),
        Err(DisassemblyError::InvalidHexCharacter)
    ));
}

#[test]
fn hex_error_converts() {
    assert_eq!(
        DisassemblyError::from(hex::FromHexError::OddLength),
        DisassemblyError::InvalidHexCharacter
    );
}

#[test]
fn step_decoder_errors() {
    assert_eq!(disassemble_next(&[0x01], 1), Err(DisassemblyError::EndOfStream));
    assert_eq!(disassemble_next(&[0x62, 0x01], 0), Err(DisassemblyError::TooFewBytesForPush));
    assert_eq!(disassemble_next(&[0x0c], 0), Err(DisassemblyError::UnknownOpcode));
    assert_eq!(disassemble_next(&[0x00, 0x61, 0x01, 0x02], 1), Ok(Instruction::Push(vec![0x01, 0x02])));
}

#[test]
fn opcode_table_edges() {
    assert!(matches!(resolve(0x60), OpcodeKind::Push(1)));
    assert!(matches!(resolve(0x7f), OpcodeKind::Push(32)));
    assert!(matches!(resolve(0x5b), OpcodeKind::Fixed(Instruction::JumpDest)));
    assert!(matches!(resolve(0x80), OpcodeKind::Fixed(Instruction::Dup1)));
    assert!(matches!(resolve(0x9f), OpcodeKind::Fixed(Instruction::Swap16)));
    assert!(matches!(resolve(0xa4), OpcodeKind::Fixed(Instruction::Log4)));
    assert!(matches!(resolve(0xfe), OpcodeKind::Fixed(Instruction::Invalid)));
    let mut known = 0;
    let mut push = 0;
    for b in 0..=255u8 {
        match resolve(b) {
            OpcodeKind::Fixed(i) => {
                known += 1;
                assert_eq!(assemble_instruction(&i), vec![b]);
            }
            OpcodeKind::Push(_) => push += 1,
            OpcodeKind::Unknown => {}
        }
    }
    assert_eq!(push, 32);
    assert_eq!(known, 110);
}
