use nes::cpu::{CPUStatus, With, CPU};

#[test]
fn bitwise_test_adc() {
    let program = vec!(
        0x69, 0x10, 0x69, 0x20, 0x00
    );

    let mut cpu = CPU::with(program.to_vec());
    cpu.run().unwrap();

    assert_eq!(cpu.acc, 0x30);
}

#[test]
fn bitwise_test_adc_overflow() {

    let program = vec!(
        0x69, 0xD0, 0x69, 0x90, 0x00
    );

    let mut cpu = CPU::with(program.to_vec());
    cpu.run().unwrap();

    assert!(cpu.status.contains(CPUStatus::OVERFLOW));
}

#[test]
fn bitwise_test_sbc() {

    let program = vec!(
        0x69, 0x10, 0xE9, 0x01, 0x00
    );

    let mut cpu = CPU::with(program.to_vec());
    cpu.run().unwrap();

    assert_eq!(cpu.acc, 0x0E);
}

#[test]
fn bitwise_test_and() {

    let program = vec!(
        0x69, 0x0F, 0x29, 0x11, 0x00
    );

    let mut cpu = CPU::with(program.to_vec());
    cpu.run().unwrap();

    assert_eq!(cpu.acc, 0x01);
}

#[test]
fn bitwise_test_eor() {

    let program = vec!(
        0x69, 0x09, 0x49, 0x06, 0x00
    );

    let mut cpu = CPU::with(program.to_vec());
    cpu.run().unwrap();

    assert_eq!(cpu.acc, 0x0F);
}

#[test]
fn bitwise_test_asl() {

    let program = vec!(
        0x06, 0xFF, 0x00
    );

    let mut cpu = CPU::with(program.to_vec());
    cpu.mem_write(0x00FF, 0x10).unwrap();
    cpu.run().unwrap();

    assert_eq!(cpu.mem_read(0x00FF).unwrap(), 0x20);
}

#[test]
fn bitwise_test_asl_acc() {

    let program = vec!(
        0x69, 0x10, 0x0A, 0x00
    );

    let mut cpu = CPU::with(program.to_vec());
    cpu.run().unwrap();

    assert_eq!(cpu.acc, 0x20);
}

#[test]
fn bitwise_test_lsr() {

    let program = vec!(
        0x4A, 0x00
    );

    let mut cpu = CPU::with(program.to_vec());
    cpu.reset().unwrap();
    cpu.acc = 0x09;
    cpu.interprect().unwrap();

    assert_eq!(cpu.acc, 0x4);
    assert!(cpu.status.contains(CPUStatus::CARRY));
}

#[test]
fn bitwise_test_rol() {

    let program = vec!(
        0x2A, 0x00
    );

    let mut cpu = CPU::with(program.to_vec());
    cpu.reset().unwrap();
    cpu.acc = 0x40;
    cpu.status.insert(CPUStatus::CARRY);
    cpu.interprect().unwrap();

    assert_eq!(cpu.acc, 0x81);
    assert!(!cpu.status.contains(CPUStatus::CARRY));
}

#[test]
fn bitwise_test_ror() {

    let program = vec!(
        0x6A, 0x00
    );

    let mut cpu = CPU::with(program.to_vec());
    cpu.reset().unwrap();
    cpu.acc = 0x08;
    cpu.status.insert(CPUStatus::CARRY);
    cpu.interprect().unwrap();

    assert_eq!(cpu.acc, 0x84);
    assert!(!cpu.status.contains(CPUStatus::CARRY));
}
