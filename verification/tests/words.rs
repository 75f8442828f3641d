use wordvm::opcode::Opcode;
use wordvm::word::{add, mult, register_token, wrap, MAX_VALUE, REGISTERS};

#[test]
fn modulus_and_register_count() {
    assert_eq!(MAX_VALUE, 32768);
    assert_eq!(REGISTERS, 8);
}

#[test]
fn wrap_reduces_modulo_32768() {
    assert_eq!(wrap(0), 0);
    assert_eq!(wrap(32767), 32767);
    assert_eq!(wrap(32768), 0);
    assert_eq!(wrap(32769), 1);
    assert_eq!(wrap(65535 * 65535), ((65535usize * 65535) % 32768) as u16);
}

#[test]
fn add_wraps_at_the_modulus() {
    assert_eq!(add(1, 2), 3);
    assert_eq!(add(32767, 1), 0);
    assert_eq!(add(32758, 15), 5);
    assert_eq!(add(32767, 32767), 32766);
}

#[test]
fn mult_wraps_at_the_modulus() {
    assert_eq!(mult(3, 4), 12);
    assert_eq!(mult(32767, 2), 32766);
    assert_eq!(mult(1000, 1000), (1_000_000usize % 32768) as u16);
    assert_eq!(mult(0, 32767), 0);
}

#[test]
fn add_and_mult_commute_and_stay_in_range() {
    let samples: [u16; 7] = [0, 1, 2, 255, 1000, 16384, 32767];
    for a in samples {
        for b in samples {
            assert_eq!(add(a, b), add(b, a));
            assert_eq!(mult(a, b), mult(b, a));
            assert!(add(a, b) < 32768);
            assert!(mult(a, b) < 32768);
        }
    }
}

#[test]
fn register_tokens_follow_the_memory_range() {
    assert_eq!(register_token(0), Some(32768));
    assert_eq!(register_token(7), Some(32775));
    assert_eq!(register_token(8), None);
}

#[test]
fn opcode_table_has_22_entries() {
    let names: [&str; 22] = [
        "halt", "set", "push", "pop", "eq", "gt", "jmp", "jt", "jf", "add", "mult", "mod", "and",
        "or", "not", "rmem", "wmem", "call", "ret", "out", "in", "noop",
    ];
    let counts: [usize; 22] = [0, 2, 1, 1, 3, 3, 1, 2, 2, 3, 3, 3, 3, 3, 2, 2, 2, 1, 0, 1, 1, 0];
    for code in 0u16..22 {
        let op = Opcode::decode(code).unwrap();
        assert_eq!(op.code(), code);
        assert_eq!(op.mnemonic(), names[code as usize]);
        assert_eq!(op.operands(), counts[code as usize]);
    }
}

#[test]
fn words_from_22_on_are_no_opcodes() {
    assert_eq!(Opcode::decode(22), None);
    assert_eq!(Opcode::decode(32768), None);
    assert_eq!(Opcode::decode(65535), None);
}
