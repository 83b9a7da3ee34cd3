use cpu_core::cpu::CpuFault;
use cpu_core::cpu::CPU;

#[test]
fn test_0xa9_lda_immediate_load_data() {
    let mut cpu = CPU::new();
    cpu.interpret(vec![0xa9, 0x05, 0x00]).unwrap();
    assert_eq!(cpu.register_a, 0x05);
    assert!(cpu.status & 0b0000_0010 == 0b00);
    assert!(cpu.status & 0b1000_0000 == 0b00);
}

#[test]
fn test_0xa9_lda_zero_flag() {
    let mut cpu = CPU::new();
    cpu.interpret(vec![0xa9, 0x00, 0x00]).unwrap();
    assert!(cpu.status & 0b0000_0010 == 0b10);
}

#[test]
fn test_0xa9_lda_negative_flag() {
    let mut cpu = CPU::new();
    cpu.interpret(vec![0xa9, 0xF0, 0x00]).unwrap();
    assert!(cpu.status & 0b1000_0000 == 0b1000_0000);
}

#[test]
fn test_0xaa_tax() {
    let mut cpu = CPU::new();
    cpu.interpret(vec![0xa9, 0xc0, 0xaa, 0x00]).unwrap();
    assert_eq!(cpu.register_x, 0xc0);
}

#[test]
fn test_5_ops_working_together() {
    let mut cpu = CPU::new();
    cpu.interpret(vec![0xa9, 0xc0, 0xaa, 0xe8, 0x00]).unwrap();

    assert_eq!(cpu.register_x, 0xc1)
}

#[test]
fn test_inx_overflow() {
    let mut cpu = CPU::new();
    cpu.register_x = 0xff;
    cpu.interpret(vec![0xe8, 0xe8, 0x00]).unwrap();
    assert_eq!(cpu.register_x, 1);
}

#[test]
fn test_new_initial_state() {
    let cpu = CPU::new();
    assert_eq!(cpu.register_a, 0);
    assert_eq!(cpu.register_x, 0);
    assert_eq!(cpu.status, 0);
    assert_eq!(cpu.program_counter, 0);
    assert!(!cpu.zero_flag());
    assert!(!cpu.negative_flag());
}

#[test]
fn test_lda_replaces_prior_zero_flag() {
    let mut cpu = CPU::new();
    cpu.interpret(vec![0xa9, 0x00, 0xa9, 0x01, 0x00]).unwrap();
    assert_eq!(cpu.register_a, 0x01);
    assert!(!cpu.zero_flag());
    assert!(!cpu.negative_flag());
}

#[test]
fn test_lda_replaces_prior_negative_flag() {
    let mut cpu = CPU::new();
    cpu.interpret(vec![0xa9, 0xF0, 0xa9, 0x05, 0x00]).unwrap();
    assert_eq!(cpu.register_a, 0x05);
    assert!(!cpu.negative_flag());
    assert!(!cpu.zero_flag());
}

#[test]
fn test_lda_preserves_reserved_status_bits() {
    let mut cpu = CPU::new();
    cpu.status = 0b0100_0001;
    cpu.interpret(vec![0xa9, 0x05, 0x00]).unwrap();
    assert_eq!(cpu.status & 0b0111_1101, 0b0100_0001);
    assert!(!cpu.zero_flag());
    assert!(!cpu.negative_flag());
}

#[test]
fn test_tax_zero_flag() {
    let mut cpu = CPU::new();
    cpu.register_x = 0x44;
    cpu.interpret(vec![0xaa, 0x00]).unwrap();
    assert_eq!(cpu.register_x, 0x00);
    assert!(cpu.zero_flag());
    assert!(!cpu.negative_flag());
}

#[test]
fn test_tax_negative_flag() {
    let mut cpu = CPU::new();
    cpu.interpret(vec![0xa9, 0x80, 0xaa, 0x00]).unwrap();
    assert_eq!(cpu.register_x, 0x80);
    assert!(cpu.negative_flag());
    assert!(!cpu.zero_flag());
}

#[test]
fn test_inx_wrap_sets_zero_flag() {
    let mut cpu = CPU::new();
    cpu.register_x = 0xff;
    cpu.interpret(vec![0xe8, 0x00]).unwrap();
    assert_eq!(cpu.register_x, 0x00);
    assert!(cpu.zero_flag());
    assert!(!cpu.negative_flag());
}

#[test]
fn test_inx_into_negative_range() {
    let mut cpu = CPU::new();
    cpu.register_x = 0x7f;
    cpu.interpret(vec![0xe8, 0x00]).unwrap();
    assert_eq!(cpu.register_x, 0x80);
    assert!(cpu.negative_flag());
    assert!(!cpu.zero_flag());
}

#[test]
fn test_halt_stops_before_later_instructions() {
    let mut cpu = CPU::new();
    cpu.interpret(vec![0xa9, 0x42, 0x00, 0xe8]).unwrap();
    assert_eq!(cpu.register_a, 0x42);
    assert_eq!(cpu.register_x, 0x00);
    assert_eq!(cpu.program_counter, 3);
}

#[test]
fn test_load_halt_round_trip_keeps_index() {
    let mut cpu = CPU::new();
    cpu.register_x = 0x09;
    cpu.interpret(vec![0xa9, 0x33, 0x00]).unwrap();
    assert_eq!(cpu.register_a, 0x33);
    assert_eq!(cpu.register_x, 0x09);
}

#[test]
fn test_interpret_resets_program_counter() {
    let mut cpu = CPU::new();
    cpu.interpret(vec![0xa9, 0x01, 0x00]).unwrap();
    cpu.interpret(vec![0xa9, 0x02, 0x00]).unwrap();
    assert_eq!(cpu.register_a, 0x02);
}

#[test]
fn test_empty_program_is_stream_bounds_fault() {
    let mut cpu = CPU::new();
    let result = cpu.interpret(vec![]);
    assert_eq!(result, Err(CpuFault::StreamBounds));
}

#[test]
fn test_missing_operand_is_stream_bounds_fault() {
    let mut cpu = CPU::new();
    let result = cpu.interpret(vec![0xa9]);
    assert_eq!(result, Err(CpuFault::StreamBounds));
    assert_eq!(cpu.register_a, 0x00);
}

#[test]
fn test_missing_halt_is_stream_bounds_fault() {
    let mut cpu = CPU::new();
    let result = cpu.interpret(vec![0xa9, 0x05]);
    assert_eq!(result, Err(CpuFault::StreamBounds));
    assert_eq!(cpu.register_a, 0x05);
}

#[test]
fn test_unrecognized_opcode_is_fatal_fault() {
    let mut cpu = CPU::new();
    let result = cpu.interpret(vec![0xa9, 0x07, 0x02]);
    assert_eq!(result, Err(CpuFault::UnrecognizedOpcode(0x02)));
    assert_eq!(cpu.register_a, 0x07);
}

#[test]
fn test_update_zero_and_negative_flags_directly() {
    let mut cpu = CPU::new();
    cpu.update_zero_and_negative_flags(0x00);
    assert!(cpu.zero_flag());
    assert!(!cpu.negative_flag());
    cpu.update_zero_and_negative_flags(0x80);
    assert!(!cpu.zero_flag());
    assert!(cpu.negative_flag());
    cpu.update_zero_and_negative_flags(0x01);
    assert!(!cpu.zero_flag());
    assert!(!cpu.negative_flag());
}

#[test]
fn test_lda_methods_directly() {
    let mut cpu = CPU::new();
    cpu.lda(0xc0);
    assert_eq!(cpu.register_a, 0xc0);
    assert!(cpu.negative_flag());
    cpu.tax();
    assert_eq!(cpu.register_x, 0xc0);
    cpu.inx();
    assert_eq!(cpu.register_x, 0xc1);
}
