use wordvm::engine::Arch;
use wordvm::fault::{Fault, Status};
use wordvm::opcode::Opcode;
use wordvm::word::register_token;

fn image(words: &[u16]) -> Vec<u8> {
    let mut bytes: Vec<u8> = Vec::new();
    for w in words {
        bytes.push((w & 0xff) as u8);
        bytes.push((w >> 8) as u8);
    }
    bytes
}

fn machine(words: &[u16]) -> Arch {
    Arch::load(&image(words)).unwrap()
}

const R0: u16 = 32768;
const R1: u16 = 32769;
const R2: u16 = 32770;

#[test]
fn load_places_words_little_endian_and_zero_fills() {
    let arch = Arch::load(&[0x34, 0x12, 0xff, 0x7f]).unwrap();
    assert_eq!(arch.memory(0), Some(0x1234));
    assert_eq!(arch.memory(1), Some(0x7fff));
    assert_eq!(arch.memory(2), Some(0));
    assert_eq!(arch.memory(32767), Some(0));
    assert_eq!(arch.memory(32768), None);
    assert_eq!(arch.bank().len(), 32768);
    for r in 0usize..8 {
        assert_eq!(arch.register(r), Some(0));
    }
    assert_eq!(arch.register(8), None);
    assert_eq!(arch.cursor(), 0);
    assert_eq!(arch.status(), Status::Running);
    assert_eq!(arch.breakpoint(), None);
    assert!(arch.stack().is_empty());
    assert!(arch.output().is_empty());
    assert_eq!(arch.pending(), 0);
}

#[test]
fn load_accepts_an_empty_and_a_full_image() {
    assert!(Arch::load(&[]).is_ok());
    let full: Vec<u8> = vec![1u8; 65536];
    let arch = Arch::load(&full).unwrap();
    assert_eq!(arch.memory(32767), Some(0x0101));
}

#[test]
fn load_refuses_an_odd_image() {
    assert_eq!(Arch::load(&[1, 2, 3]).err(), Some(Fault::MalformedImage { len: 3 }));
}

#[test]
fn load_refuses_an_image_larger_than_memory() {
    let big: Vec<u8> = vec![0u8; 65538];
    assert_eq!(Arch::load(&big).err(), Some(Fault::MalformedImage { len: 65538 }));
}

#[test]
fn read_resolves_literals_and_registers() {
    let mut arch = machine(&[]);
    arch.set_register(3, 77).unwrap();
    assert_eq!(arch.read(0), Ok(0));
    assert_eq!(arch.read(32767), Ok(32767));
    assert_eq!(arch.read(32771), Ok(77));
    assert_eq!(arch.read(32775), Ok(0));
    assert_eq!(arch.read(32776), Err(Fault::InvalidAddress { value: 32776 }));
    assert_eq!(arch.read(65535), Err(Fault::InvalidAddress { value: 65535 }));
}

#[test]
fn write_targets_memory_or_register() {
    let mut arch = machine(&[]);
    assert_eq!(arch.write(10, 5), Ok(()));
    assert_eq!(arch.memory(10), Some(5));
    assert_eq!(arch.write(32770, 9), Ok(()));
    assert_eq!(arch.register(2), Some(9));
    assert_eq!(arch.memory(2), Some(0));
    assert_eq!(arch.write(32776, 1), Err(Fault::InvalidAddress { value: 32776 }));
}

#[test]
fn write_to_a_register_then_read_gives_the_value() {
    let values: [u16; 5] = [0, 1, 255, 12345, 32767];
    for r in 0usize..8 {
        for v in values {
            let mut arch = machine(&[]);
            let token: u16 = register_token(r).unwrap();
            arch.write(token, v).unwrap();
            assert_eq!(arch.read(token), Ok(v));
            for other in 0usize..8 {
                if other != r {
                    assert_eq!(arch.register(other), Some(0));
                }
            }
        }
    }
}

#[test]
fn next_takes_the_word_under_the_cursor() {
    let mut arch = machine(&[7, 32768]);
    arch.set_register(0, 99).unwrap();
    assert_eq!(arch.next(), Ok(7));
    assert_eq!(arch.cursor(), 1);
    assert_eq!(arch.next(), Ok(32768));
    assert_eq!(arch.cursor(), 2);
}

#[test]
fn next_value_resolves_the_word_under_the_cursor() {
    let mut arch = machine(&[7, 32768, 40000]);
    arch.set_register(0, 99).unwrap();
    assert_eq!(arch.next_value(), Ok(7));
    assert_eq!(arch.next_value(), Ok(99));
    assert_eq!(arch.cursor(), 2);
    assert_eq!(arch.next_value(), Err(Fault::InvalidAddress { value: 40000 }));
    assert_eq!(arch.cursor(), 2);
}

#[test]
fn next_fails_outside_the_bank() {
    let mut arch = machine(&[]);
    arch.set_cursor(32768);
    assert_eq!(arch.next(), Err(Fault::InvalidAddress { value: 32768 }));
    assert_eq!(arch.next_value(), Err(Fault::InvalidAddress { value: 32768 }));
    assert_eq!(arch.cursor(), 32768);
}

#[test]
fn halt_terminates() {
    let mut arch = machine(&[0]);
    arch.step(false);
    assert_eq!(arch.status(), Status::Halted);
    assert_eq!(arch.cursor(), 1);
    arch.step(true);
    assert_eq!(arch.cursor(), 1);
    assert_eq!(arch.status(), Status::Halted);
}

#[test]
fn set_stores_a_value() {
    let mut arch = machine(&[1, R0, 42, 1, R1, R0, 1, 100, R1]);
    arch.step(false);
    assert_eq!(arch.register(0), Some(42));
    arch.step(false);
    assert_eq!(arch.register(1), Some(42));
    arch.step(false);
    assert_eq!(arch.memory(100), Some(42));
    assert_eq!(arch.cursor(), 9);
    assert_eq!(arch.status(), Status::Running);
}

#[test]
fn push_and_pop_use_the_stack() {
    let mut arch = machine(&[2, 5, 2, 6, 3, R0, 3, R1]);
    arch.step(false);
    arch.step(false);
    assert_eq!(arch.stack().as_slice(), &[5u16, 6][..]);
    arch.step(false);
    assert_eq!(arch.register(0), Some(6));
    arch.step(false);
    assert_eq!(arch.register(1), Some(5));
    assert!(arch.stack().is_empty());
}

#[test]
fn pop_on_an_empty_stack_faults() {
    let mut arch = machine(&[3, R0]);
    arch.step(false);
    assert_eq!(arch.status(), Status::Faulted(Fault::StackUnderflow));
    assert_eq!(arch.cursor(), 0);
    assert_eq!(arch.register(0), Some(0));
}

#[test]
fn pop_into_an_invalid_destination_keeps_the_stack() {
    let mut arch = machine(&[2, 5, 3, 40000]);
    arch.step(false);
    arch.step(false);
    assert_eq!(arch.status(), Status::Faulted(Fault::InvalidAddress { value: 40000 }));
    assert_eq!(arch.stack().as_slice(), &[5u16][..]);
    assert_eq!(arch.cursor(), 2);
}

#[test]
fn eq_and_gt_store_one_or_zero() {
    let mut arch = machine(&[4, R0, 3, 3, 4, R1, 3, 4, 5, R2, 4, 3, 5, R0, 3, 3]);
    arch.run(false, 4);
    assert_eq!(arch.register(1), Some(0));
    assert_eq!(arch.register(2), Some(1));
    assert_eq!(arch.register(0), Some(0));
    assert_eq!(arch.cursor(), 16);
}

#[test]
fn eq_stores_one_for_equal_values() {
    let mut arch = machine(&[4, R0, 3, 3]);
    arch.step(false);
    assert_eq!(arch.register(0), Some(1));
}

#[test]
fn jmp_moves_the_cursor() {
    let mut arch = machine(&[6, 10]);
    arch.step(false);
    assert_eq!(arch.cursor(), 10);
    let mut via = machine(&[6, R0]);
    via.set_register(0, 500).unwrap();
    via.step(false);
    assert_eq!(via.cursor(), 500);
}

#[test]
fn jt_jumps_on_nonzero() {
    let mut taken = machine(&[7, 1, 10]);
    taken.step(false);
    assert_eq!(taken.cursor(), 10);
    let mut passed = machine(&[7, 0, 10]);
    passed.step(false);
    assert_eq!(passed.cursor(), 3);
}

#[test]
fn jf_jumps_on_zero() {
    let mut taken = machine(&[8, 0, 10]);
    taken.step(false);
    assert_eq!(taken.cursor(), 10);
    let mut passed = machine(&[8, 2, 10]);
    passed.step(false);
    assert_eq!(passed.cursor(), 3);
}

#[test]
fn add_and_mult_wrap() {
    let mut arch = machine(&[9, R0, 32758, 15, 10, R1, 1000, 1000]);
    arch.step(false);
    assert_eq!(arch.register(0), Some(5));
    arch.step(false);
    assert_eq!(arch.register(1), Some((1_000_000u32 % 32768) as u16));
}

#[test]
fn mod_stores_the_remainder() {
    let mut arch = machine(&[11, R0, 17, 5]);
    arch.step(false);
    assert_eq!(arch.register(0), Some(2));
}

#[test]
fn mod_by_zero_faults() {
    let mut arch = machine(&[11, R0, 17, 0]);
    arch.set_register(0, 9).unwrap();
    arch.step(false);
    assert_eq!(arch.status(), Status::Faulted(Fault::DivideByZero));
    assert_eq!(arch.cursor(), 0);
    assert_eq!(arch.register(0), Some(9));
}

#[test]
fn and_or_not_work_on_fifteen_bits() {
    let mut arch = machine(&[12, R0, 0b1100, 0b1010, 13, R1, 0b1100, 0b1010, 14, R2, 0, 14, 100, 0x5555]);
    arch.run(false, 4);
    assert_eq!(arch.register(0), Some(0b1000));
    assert_eq!(arch.register(1), Some(0b1110));
    assert_eq!(arch.register(2), Some(32767));
    assert_eq!(arch.memory(100), Some(0x2aaa));
}

#[test]
fn rmem_reads_memory_at_the_resolved_address() {
    let mut arch = machine(&[15, R0, 4, 0, 1234, 15, R1, R2]);
    arch.set_register(2, 4).unwrap();
    arch.step(false);
    assert_eq!(arch.register(0), Some(1234));
    arch.set_cursor(5);
    arch.step(false);
    assert_eq!(arch.register(1), Some(1234));
}

#[test]
fn rmem_outside_the_bank_faults() {
    let mut arch = machine(&[15, R0, R1]);
    arch.set_register(1, 40000).unwrap();
    arch.step(false);
    assert_eq!(arch.status(), Status::Faulted(Fault::InvalidAddress { value: 40000 }));
}

#[test]
fn wmem_resolves_both_operands() {
    let mut arch = machine(&[16, R0, R1]);
    arch.set_register(0, 200).unwrap();
    arch.set_register(1, 77).unwrap();
    arch.step(false);
    assert_eq!(arch.memory(200), Some(77));
    assert_eq!(arch.register(0), Some(200));
    assert_eq!(arch.register(1), Some(77));
    assert_eq!(arch.cursor(), 3);
    let mut literal = machine(&[16, 300, 5]);
    literal.step(false);
    assert_eq!(literal.memory(300), Some(5));
}

#[test]
fn add_never_resolves_its_destination() {
    let mut arch = machine(&[9, R0, 2, 3]);
    arch.set_register(0, 100).unwrap();
    arch.step(false);
    assert_eq!(arch.register(0), Some(5));
    assert_eq!(arch.memory(100), Some(0));
    let mut to_memory = machine(&[9, 100, 2, 3]);
    to_memory.step(false);
    assert_eq!(to_memory.memory(100), Some(5));
    for r in 0usize..8 {
        assert_eq!(to_memory.register(r), Some(0));
    }
}

#[test]
fn call_pushes_the_return_address() {
    let mut arch = machine(&[21, 17, 50]);
    arch.step(false);
    arch.step(false);
    assert_eq!(arch.cursor(), 50);
    assert_eq!(arch.stack().as_slice(), &[3u16][..]);
}

#[test]
fn ret_returns_to_the_popped_address() {
    let mut arch = machine(&[2, 40, 18]);
    arch.step(false);
    arch.step(false);
    assert_eq!(arch.cursor(), 40);
    assert!(arch.stack().is_empty());
    assert_eq!(arch.status(), Status::Running);
}

#[test]
fn ret_on_an_empty_stack_halts_normally() {
    let mut arch = machine(&[18]);
    arch.step(false);
    assert_eq!(arch.status(), Status::Halted);
    assert!(arch.status() != Status::Faulted(Fault::StackUnderflow));
}

#[test]
fn out_emits_the_low_eight_bits() {
    let mut arch = machine(&[19, 65, 19, 0x0142, 19, R0]);
    arch.set_register(0, 10).unwrap();
    arch.run(false, 3);
    assert_eq!(arch.output().as_slice(), &[65u8, 0x42, 10][..]);
    let taken: Vec<u8> = arch.take_output();
    assert_eq!(taken, vec![65u8, 0x42, 10]);
    assert!(arch.output().is_empty());
}

#[test]
fn in_consumes_queued_input_in_order() {
    let mut arch = machine(&[20, R0, 20, 100]);
    arch.push_input(7);
    arch.push_input(8);
    arch.step(false);
    assert_eq!(arch.register(0), Some(7));
    arch.step(false);
    assert_eq!(arch.memory(100), Some(8));
    assert_eq!(arch.pending(), 0);
    assert_eq!(arch.status(), Status::Running);
}

#[test]
fn in_without_input_pauses_at_the_instruction() {
    let mut arch = machine(&[21, 20, R0]);
    arch.run(false, 10);
    assert_eq!(arch.status(), Status::Paused);
    assert_eq!(arch.cursor(), 1);
    arch.step(true);
    assert_eq!(arch.status(), Status::Paused);
    assert_eq!(arch.cursor(), 1);
}

#[test]
fn in_without_input_pauses_in_the_last_cell() {
    let mut arch = machine(&[]);
    arch.write(32767, 20).unwrap();
    arch.set_cursor(32767);
    arch.step(true);
    assert_eq!(arch.status(), Status::Paused);
    assert_eq!(arch.cursor(), 32767);
    assert_eq!(arch.memory(32767), Some(20));
    assert_eq!(arch.pending(), 0);
    assert!(arch.stack().is_empty());
    arch.run(false, 10);
    assert_eq!(arch.status(), Status::Paused);
    arch.push_input(7);
    arch.step(true);
    assert_eq!(arch.status(), Status::Faulted(Fault::InvalidAddress { value: 32768 }));
    assert_eq!(arch.cursor(), 32767);
    assert_eq!(arch.pending(), 1);
}

#[test]
fn in_into_an_invalid_destination_keeps_the_input() {
    let mut arch = machine(&[20, 40000]);
    arch.push_input(7);
    arch.step(false);
    assert_eq!(arch.status(), Status::Faulted(Fault::InvalidAddress { value: 40000 }));
    assert_eq!(arch.pending(), 1);
}

#[test]
fn noop_only_advances() {
    let mut arch = machine(&[21]);
    arch.step(false);
    assert_eq!(arch.cursor(), 1);
    assert_eq!(arch.status(), Status::Running);
}

#[test]
fn illegal_opcode_faults() {
    let mut arch = machine(&[22]);
    arch.step(false);
    assert_eq!(arch.status(), Status::Faulted(Fault::IllegalOpcode { opcode: 22 }));
    assert_eq!(arch.cursor(), 0);
    arch.run(true, 5);
    assert_eq!(arch.status(), Status::Faulted(Fault::IllegalOpcode { opcode: 22 }));
}

#[test]
fn invalid_source_operand_faults_and_changes_nothing() {
    let mut arch = machine(&[9, R0, 1, 32776]);
    arch.step(false);
    assert_eq!(arch.status(), Status::Faulted(Fault::InvalidAddress { value: 32776 }));
    assert_eq!(arch.cursor(), 0);
    assert_eq!(arch.register(0), Some(0));
}

#[test]
fn invalid_destination_faults() {
    let mut arch = machine(&[1, 32776, 1]);
    arch.step(false);
    assert_eq!(arch.status(), Status::Faulted(Fault::InvalidAddress { value: 32776 }));
}

#[test]
fn cursor_outside_the_bank_faults() {
    let mut arch = machine(&[6, R0]);
    arch.set_register(0, 40000).unwrap();
    arch.step(false);
    assert_eq!(arch.cursor(), 40000);
    arch.step(false);
    assert_eq!(arch.status(), Status::Faulted(Fault::InvalidAddress { value: 40000 }));
}

#[test]
fn instruction_cut_off_by_the_end_of_the_bank_faults() {
    let mut arch = machine(&[]);
    arch.write(32767, 19).unwrap();
    arch.set_cursor(32767);
    arch.step(false);
    assert_eq!(arch.status(), Status::Faulted(Fault::InvalidAddress { value: 32768 }));
    assert_eq!(arch.cursor(), 32767);
}

#[test]
fn unforced_step_pauses_at_the_breakpoint() {
    let mut arch = machine(&[21, 21, 21]);
    arch.set_breakpoint(Some(1));
    arch.step(false);
    assert_eq!(arch.cursor(), 1);
    assert_eq!(arch.status(), Status::Running);
    arch.step(false);
    assert_eq!(arch.cursor(), 1);
    assert_eq!(arch.status(), Status::Paused);
    arch.step(true);
    assert_eq!(arch.cursor(), 2);
    assert_eq!(arch.status(), Status::Running);
}

#[test]
fn run_stops_at_its_limit() {
    let mut arch = machine(&[6, 0]);
    arch.run(false, 1000);
    assert_eq!(arch.status(), Status::Running);
    assert_eq!(arch.cursor(), 0);
    arch.run(true, 0);
    assert_eq!(arch.status(), Status::Running);
}

#[test]
fn run_in_two_lots_ends_where_one_run_ends() {
    let program: [u16; 12] = [9, R0, R0, 1, 4, R1, R0, 50, 8, R1, 0, 0];
    let mut whole = machine(&program);
    whole.run(true, 100);
    let mut parts = machine(&program);
    parts.run(true, 40);
    parts.run(false, 60);
    assert_eq!(whole.register(0), parts.register(0));
    assert_eq!(whole.cursor(), parts.cursor());
    assert_eq!(whole.status(), parts.status());
}

#[test]
fn run_counts_to_fifty_and_halts() {
    let mut arch = machine(&[9, R0, R0, 1, 4, R1, R0, 50, 8, R1, 0, 0]);
    arch.run(false, 10_000);
    assert_eq!(arch.status(), Status::Halted);
    assert_eq!(arch.register(0), Some(50));
}

#[test]
fn run_does_not_resume_a_paused_machine_unforced() {
    let mut arch = machine(&[20, R0, 0]);
    arch.run(false, 10);
    assert_eq!(arch.status(), Status::Paused);
    arch.push_input(1);
    arch.run(false, 10);
    assert_eq!(arch.status(), Status::Paused);
    arch.run(true, 10);
    assert_eq!(arch.status(), Status::Halted);
}

#[test]
fn set_register_refuses_a_ninth_register() {
    let mut arch = machine(&[]);
    assert_eq!(arch.set_register(8, 1), Err(Fault::InvalidAddress { value: 8 }));
    assert_eq!(arch.set_register(7, 65535), Ok(()));
    assert_eq!(arch.register(7), Some(65535));
}

#[test]
fn status_tells_terminal_from_live() {
    assert!(!Status::Running.terminal());
    assert!(!Status::Paused.terminal());
    assert!(Status::Halted.terminal());
    assert!(Status::Faulted(Fault::DivideByZero).terminal());
    assert!(Status::Running.running());
    assert!(!Status::Paused.running());
}

#[test]
fn compute_and_complement_give_exact_values() {
    assert_eq!(Arch::compute(Opcode::Add, 32767, 2), Ok(1));
    assert_eq!(Arch::compute(Opcode::Mult, 181, 182), Ok(((181u32 * 182) % 32768) as u16));
    assert_eq!(Arch::compute(Opcode::Mod, 7, 0), Err(Fault::DivideByZero));
    assert_eq!(Arch::compute(Opcode::Gt, 2, 1), Ok(1));
    assert_eq!(Arch::complement(0), 32767);
    assert_eq!(Arch::complement(32767), 0);
    assert_eq!(Arch::complement(1), 32766);
}
