use nes::cpu::{CPUStatus, With, CPU};

#[test]
fn branch_test_bcc() {

    let program = vec!(
        0x90, 0x03, 0x69, 0x10, 0x00, 0x69, 0x20
    );

    let mut cpu = CPU::with(program.to_vec());
    cpu.reset().unwrap();
    cpu.status.remove(CPUStatus::CARRY);
    cpu.interprect().unwrap();

    assert_eq!(cpu.acc, 0x20);
}

#[test]
fn branch_test_bcs() {

    let program = vec!(
        0xB0, 0x03, 0x69, 0x10, 0x00, 0x69, 0x20
    );

    let mut cpu = CPU::with(program.to_vec());
    cpu.reset().unwrap();
    cpu.status.insert(CPUStatus::CARRY);
    cpu.interprect().unwrap();

    assert_eq!(cpu.acc, 0x21);  // because the CARRY bit has been set
}

#[test]
fn branch_test_beq() {

    let program = vec!(
        0xF0, 0x03, 0x69, 0x10, 0x00, 0x69, 0x20
    );

    let mut cpu = CPU::with(program.to_vec());
    cpu.reset().unwrap();
    cpu.status.insert(CPUStatus::ZERO);
    cpu.interprect().unwrap();

    assert_eq!(cpu.acc, 0x20);
}

#[test]
fn branch_test_bmi() {

    let program = vec!(
        0x30, 0x03, 0x69, 0x10, 0x00, 0x69, 0x20
    );

    let mut cpu = CPU::with(program.to_vec());
    cpu.reset().unwrap();
    cpu.status.insert(CPUStatus::NEGATIVE);
    cpu.interprect().unwrap();

    assert_eq!(cpu.acc, 0x20);
}

#[test]
fn branch_test_bne() {

    let program = vec!(
        0xD0, 0x03, 0x69, 0x10, 0x00, 0x69, 0x20
    );

    let mut cpu = CPU::with(program.to_vec());
    cpu.reset().unwrap();
    cpu.status.remove(CPUStatus::ZERO);
    cpu.interprect().unwrap();

    assert_eq!(cpu.acc, 0x20);
}

#[test]
fn branch_test_bpl() {

    let program = vec!(
        0x10, 0x03, 0x69, 0x10, 0x00, 0x69, 0x20
    );

    let mut cpu = CPU::with(program.to_vec());
    cpu.reset().unwrap();
    cpu.status.remove(CPUStatus::NEGATIVE);
    cpu.interprect().unwrap();

    assert_eq!(cpu.acc, 0x20);
}

#[test]
fn branch_test_bvc() {

    let program = vec!(
        0x50, 0x03, 0x69, 0x10, 0x00, 0x69, 0x20
    );

    let mut cpu = CPU::with(program.to_vec());
    cpu.reset().unwrap();
    cpu.status.remove(CPUStatus::OVERFLOW);
    cpu.interprect().unwrap();

    assert_eq!(cpu.acc, 0x20);
}

#[test]
fn branch_test_bvs() {

    let program = vec!(
        0x70, 0x03, 0x69, 0x10, 0x00, 0x69, 0x20
    );

    let mut cpu = CPU::with(program.to_vec());
    cpu.reset().unwrap();
    cpu.status.insert(CPUStatus::OVERFLOW);
    cpu.interprect().unwrap();

    assert_eq!(cpu.acc, 0x20);
}
