use nes::cpu::{CPUStatus, With, CPU};

#[test]
fn compare_test_cmp1() {

    let program = vec!(
        0x69, 0x10, 0xC9, 0x0F, 0x00
    );

    let mut cpu = CPU::with(program.to_vec());
    cpu.run().unwrap();

    assert!(cpu.status.contains(CPUStatus::CARRY));
}

#[test]
fn compare_test_cmp2() {

    let program = vec!(
        0x69, 0x10, 0xC9, 0x10, 0x00
    );

    let mut cpu = CPU::with(program.to_vec());
    cpu.run().unwrap();

    assert!(cpu.status.contains(CPUStatus::CARRY));
    assert!(cpu.status.contains(CPUStatus::ZERO));
}
