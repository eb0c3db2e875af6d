use hivehq::jit::jit_function;
use hivehq::jit::opcode::{MemoryOperand, Opcode, Operand, Register, ShiftAmount};
use hivehq::jit::x86_64::support::{jit_supported, translatable_opcode};
use hivehq::jit::parser::{parse, ParseError, Parser};
use hivehq::jit::x86_64::gen_context_switch::{patch_context_switches, ContextSwitchPatch};
use hivehq::jit::x86_64::build_instruction::{build_instruction, InstructionEncoding};
use hivehq::jit::x86_64::encode_rm::encode_rm;
use hivehq::jit::x86_64::gen_load_operand::gen_load_operand;
use hivehq::jit::x86_64::jit_x86_64;
use hivehq::jit::x86_64::translate_opcode::translate_opcode;

const EXAMPLE_CODE: &[u8] = &[
    // NOP
    0x90, // MOV variable 0, immediate 42
    0x89, // dst = variable 0
    0x02, 0x00, 0x00, 0x00, 0x00, 0x00, 0x00, 0x00, 0x00, // src = immediate 42
    0x01, 0x2A, 0x00, 0x00, 0x00, 0x00, 0x00, 0x00, 0x00, // ADD variable 0, immediate 8
    0x01, // dst = variable 0
    0x02, 0x00, 0x00, 0x00, 0x00, 0x00, 0x00, 0x00, 0x00, // src = immediate 8
    0x01, 0x08, 0x00, 0x00, 0x00, 0x00, 0x00, 0x00, 0x00, // PROC_EXIT(0)
    0xF0, 0x22, // reason = immediate 0
    0x01, 0x00, 0x00, 0x00, 0x00, 0x00, 0x00, 0x00, 0x00,
];

/// Address given to the translator as the context switch routine in these tests.
const CONTEXT_SWITCH_ADDR: u64 = 0x1122_3344_5566_7788;

#[test]
fn test_parser() -> Result<(), ParseError> {
    let opcodes = parse(EXAMPLE_CODE.into())?;

    for (index, opcode) in opcodes.iter().enumerate() {
        println!("{index:04}: {opcode:#?}");
    }
    Ok(())
}

#[test]
fn test_jit() {
    let opcodes: Box<[Opcode]> = Box::from([
        Opcode::Nop,
        Opcode::Mov64 {
            dst: Operand::Register(Register::Rax),
            src: Operand::Register(Register::Rbx),
        },
        Opcode::Add {
            dst: Operand::Register(Register::Rax),
            src: Operand::Register(Register::Rcx),
        },
        Opcode::ProcExit {
            reason: Operand::Register(Register::Rax),
        },
    ]);
    let (jit_code, _patches) = jit_x86_64(&opcodes, CONTEXT_SWITCH_ADDR);
    for (_index, opcode) in jit_code.iter().enumerate() {
        println!("{opcode:#04x}");
    }
}

#[test]
fn parser_decodes_example_program() {
    let opcodes = parse(EXAMPLE_CODE.into()).unwrap();
    assert_eq!(opcodes.len(), 4);
    assert!(matches!(opcodes[0], Opcode::Nop));
    assert!(matches!(
        opcodes[1],
        Opcode::Mov64 { dst: Operand::Variable(0), src: Operand::Immediate(42) }
    ));
    assert!(matches!(
        opcodes[2],
        Opcode::Add { dst: Operand::Variable(0), src: Operand::Immediate(8) }
    ));
    assert!(matches!(opcodes[3], Opcode::ProcExit { reason: Operand::Immediate(0) }));
}

#[test]
fn parser_accepts_empty_code() {
    let opcodes = parse(Vec::new().into_boxed_slice()).unwrap();
    assert_eq!(opcodes.len(), 0);
}

#[test]
fn parser_reports_truncated_operand() {
    // MOV with its destination cut short.
    let code: &[u8] = &[0x89, 0x02, 0x00, 0x00];
    assert_eq!(parse(code.into()).unwrap_err(), ParseError::UnexpectedEof);
}

#[test]
fn parser_reports_unknown_opcode() {
    let code: &[u8] = &[0x90, 0x06];
    assert!(matches!(parse(code.into()), Err(ParseError::UnknownOpcode(0x06, _))));
}

#[test]
fn parser_via_struct_matches_free_function() {
    let a = Parser::new(EXAMPLE_CODE).parse().unwrap();
    let b = parse(EXAMPLE_CODE.into()).unwrap();
    assert_eq!(format!("{a:?}"), format!("{b:?}"));
}

#[test]
fn jit_translates_register_instructions() {
    let opcodes = [
        Opcode::Nop,
        Opcode::Mov64 { dst: Operand::Register(Register::Rax), src: Operand::Register(Register::Rbx) },
        Opcode::Add { dst: Operand::Register(Register::Rax), src: Operand::Register(Register::Rcx) },
    ];
    let (code, patches) = jit_x86_64(&opcodes, CONTEXT_SWITCH_ADDR);
    assert_eq!(&code[..], &[0x90, 0x48, 0x8B, 0xC3, 0x48, 0x03, 0xC1]);
    assert_eq!(patches.len(), 0);
}

#[test]
fn jit_emits_context_switch_for_exit() {
    let opcodes = [Opcode::ProcExit { reason: Operand::Register(Register::Rax) }];
    let (code, patches) = jit_x86_64(&opcodes, CONTEXT_SWITCH_ADDR);
    assert_eq!(patches.len(), 1);
    // The context switch ends with `mov rax, addr; jmp rax`.
    let n = code.len();
    assert_eq!(&code[n - 2..], &[0xFF, 0xE0]);
    assert_eq!(&code[n - 10..n - 2], &CONTEXT_SWITCH_ADDR.to_le_bytes());
    assert_eq!(&code[n - 12..n - 10], &[0x48, 0xB8]);
    // The patch field is the lea's disp32, and the resume point follows the jump.
    let p = patches[0];
    assert_eq!(&code[p.patch_offset - 3..p.patch_offset], &[0x48, 0x8D, 0x0D]);
    assert_eq!(p.rip_offset, p.patch_offset + 16);
    assert_eq!(p.rip_offset, n);
}

#[test]
fn jit_function_decodes_then_translates() {
    let code: &[u8] = &[0x90, 0x90];
    let out = jit_function(code.into(), CONTEXT_SWITCH_ADDR);
    assert_eq!(&out[..], &[0x90, 0x90]);
}

#[test]
fn patching_writes_displacement_of_each_switch() {
    let opcodes = [
        Opcode::Nop,
        Opcode::ProcExit { reason: Operand::Register(Register::Rax) },
    ];
    let (code, patches) = jit_x86_64(&opcodes, CONTEXT_SWITCH_ADDR);
    let mut buf = code.to_vec();
    patch_context_switches(&mut buf, 0x40_0000, &patches);
    let p: ContextSwitchPatch = patches[0];
    let written = i32::from_le_bytes(buf[p.patch_offset..p.patch_offset + 4].try_into().unwrap());
    assert_eq!(written as i64, p.rip_offset as i64 - (p.patch_offset as i64 + 4));
    assert_eq!(written, 12);
    // Only the four displacement bytes change.
    for (i, (a, b)) in code.iter().zip(buf.iter()).enumerate() {
        if i < p.patch_offset || i >= p.patch_offset + 4 {
            assert_eq!(a, b);
        }
    }
}

#[test]
fn support_check_matches_translator() {
    assert!(translatable_opcode(&Opcode::Nop));
    assert!(translatable_opcode(&Opcode::Shl { dst: Operand::Register(Register::Rcx), amount: ShiftAmount::Cl }));
    assert!(!translatable_opcode(&Opcode::Shl { dst: Operand::Immediate(1), amount: ShiftAmount::Cl }));
    // Frame variables cannot be loaded into a request.
    assert!(!translatable_opcode(&Opcode::ProcExit { reason: Operand::Variable(0) }));
    assert!(translatable_opcode(&Opcode::ProcExit { reason: Operand::Immediate(0) }));
    // A memory operand with a scale of 3 has no encoding.
    let bad = MemoryOperand { base: Some(Register::Rax), index: Some(Register::Rbx), scale: 3, displacement: 0 };
    assert!(!translatable_opcode(&Opcode::Mov64 { dst: Operand::Register(Register::Rax), src: Operand::Memory(bad) }));
    assert!(!translatable_opcode(&Opcode::MailSend { pid: Operand::Immediate(1), message: Operand::Immediate(2) }));
    assert!(jit_supported(&[Opcode::Nop, Opcode::Nop], CONTEXT_SWITCH_ADDR));
    assert!(!jit_supported(&[Opcode::Nop, Opcode::Recall], CONTEXT_SWITCH_ADDR));
    let long = vec![Opcode::Nop; 70];
    assert!(jit_supported(&long, CONTEXT_SWITCH_ADDR));
}

#[test]
fn jit_position_counter_tracks_emitted_bytes() {
    // Each instruction's position is the number of bytes emitted before it.
    let opcodes = [
        Opcode::Nop,
        Opcode::Nop,
        Opcode::ProcYield,
    ];
    let (code, patches) = jit_x86_64(&opcodes, CONTEXT_SWITCH_ADDR);
    assert_eq!(code.len(), 2 + 8 + 29);
    assert_eq!(patches[0].patch_offset, 2 + 8 + 13);
    assert_eq!(patches[0].rip_offset, code.len());
}

#[test]
fn jit_example_program_patch_lands_after_the_request() {
    let opcodes = [
        Opcode::Nop,
        Opcode::Mov64 { dst: Operand::Register(Register::Rax), src: Operand::Register(Register::Rbx) },
        Opcode::Add { dst: Operand::Register(Register::Rax), src: Operand::Register(Register::Rcx) },
        Opcode::ProcExit { reason: Operand::Register(Register::Rax) },
    ];
    let (code, patches) = jit_x86_64(&opcodes, CONTEXT_SWITCH_ADDR);
    assert_eq!(
        &code[0..18],
        &[0x90, 0x48, 0x8B, 0xC3, 0x48, 0x03, 0xC1, 0x48, 0x8B, 0x3C, 0x24, 0xC6, 0x47, 0x00, 0x22, 0x88, 0x47, 0x01]
    );
    assert_eq!(code.len(), 47);
    assert_eq!(patches.len(), 1);
    assert_eq!(patches[0].patch_offset, 31);
    assert_eq!(patches[0].rip_offset, 47);
}

#[test]
fn proc_spawn_writes_its_request_fields() {
    let op = Opcode::ProcSpawn {
        dst: Operand::Register(Register::Rax),
        function: Operand::Register(Register::Rax),
        args: Operand::Register(Register::Rax),
    };
    let t = translate_opcode(&op, 0, CONTEXT_SWITCH_ADDR);
    assert_eq!(
        &t.0[0..19],
        &[0x48, 0x8B, 0x3C, 0x24, 0xC6, 0x47, 0x00, 0x20, 0x48, 0x89, 0x47, 0x01, 0x89, 0x47, 0x09, 0x48, 0x89, 0x47, 0x0D]
    );
    assert_eq!(t.1, t.0.len());
    assert!(t.2.is_some());
}

#[test]
fn memory_operand_without_base_uses_disp32() {
    let mem = Operand::Memory(MemoryOperand { base: None, index: Some(Register::Rdx), scale: 4, displacement: 16 });
    let code = build_instruction(InstructionEncoding::Rm { opcode: 0x8B, w: true }, &[&Operand::Register(Register::Rcx), &mem]);
    assert_eq!(code, vec![0x48, 0x8B, 0x0C, 0x95, 0x10, 0x00, 0x00, 0x00]);
}

#[test]
fn absolute_load_uses_sib_without_base_or_index() {
    let mut code = Vec::new();
    let mem = Operand::Memory(MemoryOperand { base: None, index: None, scale: 1, displacement: 0x1000 });
    gen_load_operand(&mut code, &mem, Register::Rax);
    assert_eq!(code, vec![0x48, 0x8B, 0x04, 0x25, 0x00, 0x10, 0x00, 0x00]);
}

#[test]
fn stack_pointer_base_takes_a_sib_byte() {
    let mem = Operand::Memory(MemoryOperand { base: Some(Register::Rsp), index: None, scale: 1, displacement: 0 });
    assert_eq!(encode_rm(0x8B, &Register::Rax, &mem, true), vec![0x48, 0x8B, 0x04, 0x24]);
}

#[test]
fn frame_pointer_base_with_index_keeps_a_zero_disp8() {
    let mem = Operand::Memory(MemoryOperand { base: Some(Register::Rbp), index: Some(Register::Rcx), scale: 1, displacement: 0 });
    assert_eq!(encode_rm(0x8B, &Register::Rax, &mem, true), vec![0x48, 0x8B, 0x44, 0x0D, 0x00]);
}

#[test]
fn r12_can_be_an_index() {
    let mem = Operand::Memory(MemoryOperand { base: Some(Register::Rax), index: Some(Register::R12), scale: 2, displacement: 0 });
    // REX.W and REX.X, then mod 00, SIB scale 2, index 100, base 000.
    assert_eq!(encode_rm(0x8B, &Register::Rcx, &mem, true), vec![0x4A, 0x8B, 0x0C, 0x60]);
}

#[test]
fn hive_opcodes_follow_the_table() {
    assert!(matches!(parse(vec![0xF0, 0x75].into()).unwrap()[..], [Opcode::Recall]));
    assert!(matches!(parse(vec![0xF0, 0x76].into()).unwrap()[..], [Opcode::Syscall]));
    let code = vec![0xF0, 0x77, 0x00, 0x03];
    assert!(matches!(parse(code.into()).unwrap()[..], [Opcode::Ret { ptr: Operand::Register(Register::Rdx) }]));
    let code = vec![0xF0, 0x72, 0x01, 0x05, 0, 0, 0, 0, 0, 0, 0, 0x00, 0x00];
    assert!(matches!(
        parse(code.into()).unwrap()[..],
        [Opcode::CallWorker { worker: Operand::Immediate(5), args: Operand::Register(Register::Rax) }]
    ));
    let code = vec![0xF0, 0x74, 0x01, 0x07, 0, 0, 0, 0, 0, 0, 0];
    assert!(matches!(parse(code.into()).unwrap()[..], [Opcode::NativeReturn { value: Operand::Immediate(7) }]));
}

#[test]
fn two_byte_opcodes_decode() {
    assert!(matches!(parse(vec![0x0F, 0x05].into()).unwrap()[..], [Opcode::Syscall]));
    let code = vec![0x0F, 0x84, 0x10, 0x00, 0x00, 0x00];
    assert!(matches!(parse(code.into()).unwrap()[..], [Opcode::JeRel32 { offset: 16 }]));
    let code = vec![0x0F, 0xBE, 0x02, 0x00, 0x01];
    assert!(matches!(
        parse(code.into()).unwrap()[..],
        [Opcode::Movsx8 { dst: Register::Rcx, src: Operand::Register(Register::Rbx) }]
    ));
    let code = vec![0x0F, 0x94, 0x00, 0x00];
    assert!(matches!(parse(code.into()).unwrap()[..], [Opcode::Sete { dst: Operand::Register(Register::Rax) }]));
    assert!(matches!(parse(vec![0x0F, 0x06].into()), Err(ParseError::UnknownOpcode(0x0F, _))));
}

#[test]
fn shifts_and_wide_moves_decode() {
    let code = vec![0xC1, 0x04, 0x00, 0x02, 0x03];
    assert!(matches!(
        parse(code.into()).unwrap()[..],
        [Opcode::Shl { dst: Operand::Register(Register::Rcx), amount: ShiftAmount::Immediate(3) }]
    ));
    let code = vec![0xD3, 0x07, 0x00, 0x02];
    assert!(matches!(
        parse(code.into()).unwrap()[..],
        [Opcode::Sar { dst: Operand::Register(Register::Rcx), amount: ShiftAmount::Cl }]
    ));
    let code = vec![0xB9, 0x2A, 0, 0, 0, 0, 0, 0, 0];
    assert!(matches!(parse(code.into()).unwrap()[..], [Opcode::MovImm64 { dst: Register::Rcx, value: 42 }]));
    assert!(matches!(parse(vec![0xC1, 0x02].into()), Err(ParseError::UnknownOpcode(0xC1, _))));
    assert!(matches!(parse(vec![0xD3, 0x00].into()), Err(ParseError::UnknownOpcode(0xD3, _))));
}

#[test]
fn parser_reports_unknown_hive_opcode() {
    let code: &[u8] = &[0xF0, 0xEE];
    assert!(matches!(parse(code.into()), Err(ParseError::UnknownHiveOpcode(0xEE, _))));
}

#[test]
fn parser_reports_invalid_operand() {
    // MOV whose destination operand has an unknown kind.
    let code: &[u8] = &[0x89, 0x09];
    assert!(matches!(parse(code.into()), Err(ParseError::InvalidOperand(0x09, _))));
}

#[test]
fn concatenated_bodies_decode_to_concatenated_instructions() {
    let a: Vec<u8> = EXAMPLE_CODE.to_vec();
    let b: Vec<u8> = vec![0x0F, 0x05, 0xF0, 0x75, 0x90];
    let mut ab = a.clone();
    ab.extend_from_slice(&b);
    let pa = parse(a.into_boxed_slice()).unwrap();
    let pb = parse(b.into_boxed_slice()).unwrap();
    let pab = parse(ab.into_boxed_slice()).unwrap();
    assert_eq!(pab.len(), pa.len() + pb.len());
    let joined: Vec<String> = pa.iter().chain(pb.iter()).map(|o| format!("{o:?}")).collect();
    let whole: Vec<String> = pab.iter().map(|o| format!("{o:?}")).collect();
    assert_eq!(whole, joined);
}

#[test]
fn errors_report_the_position_past_the_bad_byte() {
    let code: &[u8] = &[0x90, 0x06];
    assert_eq!(parse(code.into()).unwrap_err(), ParseError::UnknownOpcode(0x06, 2));
    let code: &[u8] = &[0xF0, 0xEE];
    assert_eq!(parse(code.into()).unwrap_err(), ParseError::UnknownHiveOpcode(0xEE, 2));
    let code: &[u8] = &[0x89, 0x09];
    assert_eq!(parse(code.into()).unwrap_err(), ParseError::InvalidOperand(0x09, 2));
    let code: &[u8] = &[0x0F, 0x06];
    assert_eq!(parse(code.into()).unwrap_err(), ParseError::UnknownOpcode(0x0F, 2));
}

#[test]
fn patches_come_in_order_inside_the_code() {
    let opcodes = [Opcode::ProcYield, Opcode::Nop, Opcode::SchedYield, Opcode::ProcYield];
    let (code, patches) = jit_x86_64(&opcodes, CONTEXT_SWITCH_ADDR);
    assert_eq!(patches.len(), 3);
    for p in patches.iter() {
        assert!(p.patch_offset + 4 <= p.rip_offset);
        assert!(p.rip_offset <= code.len());
    }
    for w in patches.windows(2) {
        assert!(w[0].rip_offset <= w[1].patch_offset);
    }
    assert_eq!(patches[2].rip_offset, code.len());
}

#[test]
fn register_bytes_past_fifteen_are_invalid() {
    let code: &[u8] = &[0x89, 0x00, 0x10];
    assert_eq!(parse(code.into()).unwrap_err(), ParseError::InvalidOperand(0x10, 3));
    let code: &[u8] = &[0x89, 0x00];
    assert_eq!(parse(code.into()).unwrap_err(), ParseError::UnexpectedEof);
    let code: &[u8] = &[0xF0];
    assert_eq!(parse(code.into()).unwrap_err(), ParseError::UnexpectedEof);
}
