use synacor::machine::Machine;
use synacor::model::Fault;

#[test]
fn new_machine_is_pristine() {
    let m = Machine::new();
    for r in 0u16..8 {
        assert_eq!(m.get_register(32768 + r), 0);
    }
    assert_eq!(m.stack_len(), 0);
    assert_eq!(m.ip(), 0);
    assert_eq!(m.read_mem(0), 0);
    assert_eq!(m.read_mem(32767), 0);
}

#[test]
fn load_is_little_endian() {
    let mut m = Machine::new();
    let image = vec![0x34u8, 0x12, 0xFF, 0x7F];
    m.load(&image);
    assert_eq!(m.read_mem(0), 0x1234);
    assert_eq!(m.read_mem(1), 0x7FFF);
    assert_eq!(m.read_mem(2), 0);
}

#[test]
fn load_ignores_odd_trailing_byte() {
    let mut m = Machine::new();
    let image = vec![9u8, 0, 5];
    m.load(&image);
    assert_eq!(m.read_mem(0), 9);
    assert_eq!(m.read_mem(1), 0);
}

#[test]
fn load_empty_image_leaves_memory_zeroed() {
    let mut m = Machine::new();
    m.load(&Vec::new());
    assert_eq!(m.read_mem(0), 0);
    assert_eq!(m.read_mem(32767), 0);
}

#[test]
fn load_largest_image_fills_all_memory() {
    let mut bytes = Vec::with_capacity(65536);
    for _ in 0..32768 {
        bytes.push(1u8);
        bytes.push(2u8);
    }
    let mut m = Machine::new();
    m.load(&bytes);
    assert_eq!(m.read_mem(0), 0x0201);
    assert_eq!(m.read_mem(16000), 0x0201);
    assert_eq!(m.read_mem(32767), 0x0201);
}

#[test]
fn value_literal_is_identity() {
    let m = Machine::new();
    assert_eq!(m.value(0), Ok(0));
    assert_eq!(m.value(12345), Ok(12345));
    assert_eq!(m.value(32767), Ok(32767));
}

#[test]
fn value_reads_register() {
    let mut m = Machine::new();
    m.set_register(32771, 999);
    assert_eq!(m.value(32771), Ok(999));
    assert_eq!(m.value(32768), Ok(0));
}

#[test]
fn value_rejects_operand_past_registers() {
    let m = Machine::new();
    assert_eq!(m.value(32776), Err(Fault::BadOperand(32776)));
    assert_eq!(m.value(65535), Err(Fault::BadOperand(65535)));
}

#[test]
fn registers_round_trip() {
    let mut m = Machine::new();
    for r in 0u16..8 {
        m.set_register(32768 + r, 100 + r);
    }
    for r in 0u16..8 {
        assert_eq!(m.get_register(32768 + r), 100 + r);
    }
}

#[test]
fn give_input_stores_byte() {
    let mut m = Machine::new();
    m.give_input(32770, 200);
    assert_eq!(m.get_register(32770), 200);
}

#[test]
fn add_reduces_modulo_32768() {
    let m = Machine::new();
    assert_eq!(m.add(0, 0), 0);
    assert_eq!(m.add(4, 32767), 3);
    assert_eq!(m.add(32767, 32767), 32766);
    assert_eq!(m.add(123, 456), m.add(456, 123));
}

#[test]
fn mult_reduces_modulo_32768() {
    let m = Machine::new();
    assert_eq!(m.mult(2, 3), 6);
    assert_eq!(m.mult(32767, 2), 32766);
    assert_eq!(m.mult(256, 128), 0);
    assert_eq!(m.mult(123, 217), m.mult(217, 123));
}

#[test]
fn next_reads_word_and_advances() {
    let mut m = Machine::new();
    let image = vec![7u8, 0, 21, 0];
    m.load(&image);
    assert_eq!(m.next(), Ok(7));
    assert_eq!(m.ip(), 1);
    assert_eq!(m.next(), Ok(21));
    assert_eq!(m.ip(), 2);
}
