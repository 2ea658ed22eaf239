use nes::cpu::{With, CPU};

#[test]
fn transfer_test_tax() {
    let program = vec![0x69, 0x10, 0xAA, 0x00];

    let mut cpu = CPU::with(program.to_vec());
    cpu.run().unwrap();

    assert_eq!(cpu.rx, 0x10);
}

#[test]
fn transfer_test_tay() {
    let program = vec![0x69, 0x10, 0xA8, 0x00];

    let mut cpu = CPU::with(program.to_vec());
    cpu.run().unwrap();

    assert_eq!(cpu.ry, 0x10);
}

#[test]
fn transfer_test_txa() {
    let program = vec![0x8A, 0x00];

    let mut cpu = CPU::with(program.to_vec());
    cpu.reset().unwrap();
    cpu.rx = 0x10;
    cpu.interprect().unwrap();

    assert_eq!(cpu.acc, 0x10);
}

#[test]
fn transfer_test_tya() {
    let program = vec![0x98, 0x00];

    let mut cpu = CPU::with(program.to_vec());
    cpu.reset().unwrap();
    cpu.ry = 0x10;
    cpu.interprect().unwrap();

    assert_eq!(cpu.acc, 0x10);
}

#[test]
fn transfer_test_tsx() {
    let program = vec![0xBA, 0x00];

    let mut cpu = CPU::with(program.to_vec());
    cpu.reset().unwrap();
    cpu.sp = 0x10;
    cpu.interprect().unwrap();

    assert_eq!(cpu.rx, 0x10);
}

#[test]
fn transfer_test_txs() {
    let program = vec![0x9A, 0x00];

    let mut cpu = CPU::with(program.to_vec());
    cpu.reset().unwrap();
    cpu.rx = 0x10;
    cpu.interprect().unwrap();

    assert_eq!(cpu.sp, 0x10);
}
