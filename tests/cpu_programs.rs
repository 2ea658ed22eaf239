use nes::cpu::{CPUStatus, With, CPU};

#[test]
fn cpu_test_adc() {
    let program = vec!(
        0x69, 0x10, 0x69, 0x20, 0x00
    );

    let mut cpu = CPU::with(program.to_vec());
    cpu.run().unwrap();

    assert_eq!(cpu.acc, 0x30);
}

#[test]
fn cpu_test_adc_overflow() {

    let program = vec!(
        0x69, 0xD0, 0x69, 0x90, 0x00
    );

    let mut cpu = CPU::with(program.to_vec());
    cpu.run().unwrap();

    assert!(cpu.status.contains(CPUStatus::OVERFLOW));
}

#[test]
fn cpu_test_sbc() {

    let program = vec!(
        0x69, 0x10, 0xE9, 0x01, 0x00
    );

    let mut cpu = CPU::with(program.to_vec());
    cpu.run().unwrap();

    assert_eq!(cpu.acc, 0x0E);
}

#[test]
fn cpu_test_and() {

    let program = vec!(
        0x69, 0x0F, 0x29, 0x11, 0x00
    );

    let mut cpu = CPU::with(program.to_vec());
    cpu.run().unwrap();

    assert_eq!(cpu.acc, 0x01);
}

#[test]
fn cpu_test_eor() {

    let program = vec!(
        0x69, 0x09, 0x49, 0x06, 0x00
    );

    let mut cpu = CPU::with(program.to_vec());
    cpu.run().unwrap();

    assert_eq!(cpu.acc, 0x0F);
}

#[test]
fn cpu_test_asl() {

    let program = vec!(
        0x06, 0xFF, 0x00
    );

    let mut cpu = CPU::with(program.to_vec());
    cpu.bus.mem_write(0x00FF, 0x10).unwrap();
    cpu.run().unwrap();

    assert_eq!(cpu.bus.mem_read(0x00FF).unwrap(), 0x20);
}

#[test]
fn cpu_test_asl_acc() {

    let program = vec!(
        0x69, 0x10, 0x0A, 0x00
    );

    let mut cpu = CPU::with(program.to_vec());
    cpu.run().unwrap();

    assert_eq!(cpu.acc, 0x20);
}

#[test]
fn cpu_test_bcc() {

    let program = vec!(
        0x90, 0x03, 0x69, 0x10, 0x00, 0x69, 0x20
    );

    let mut cpu = CPU::with(program.to_vec());
    cpu.reset().unwrap();
    cpu.status.remove(CPUStatus::CARRY);
    cpu.interprect().unwrap();

    assert_eq!(cpu.acc, 0x20);
}

#[test]
fn cpu_test_bcs() {

    let program = vec!(
        0xB0, 0x03, 0x69, 0x10, 0x00, 0x69, 0x20
    );

    let mut cpu = CPU::with(program.to_vec());
    cpu.reset().unwrap();
    cpu.status.insert(CPUStatus::CARRY);
    cpu.interprect().unwrap();

    assert_eq!(cpu.acc, 0x21);  // because the CARRY bit has been set
}

#[test]
fn cpu_test_beq() {

    let program = vec!(
        0xF0, 0x03, 0x69, 0x10, 0x00, 0x69, 0x20
    );

    let mut cpu = CPU::with(program.to_vec());
    cpu.reset().unwrap();
    cpu.status.insert(CPUStatus::ZERO);
    cpu.interprect().unwrap();

    assert_eq!(cpu.acc, 0x20);
}

#[test]
fn cpu_test_bmi() {

    let program = vec!(
        0x30, 0x03, 0x69, 0x10, 0x00, 0x69, 0x20
    );

    let mut cpu = CPU::with(program.to_vec());
    cpu.reset().unwrap();
    cpu.status.insert(CPUStatus::NEGATIVE);
    cpu.interprect().unwrap();

    assert_eq!(cpu.acc, 0x20);
}

#[test]
fn cpu_test_bne() {

    let program = vec!(
        0xD0, 0x03, 0x69, 0x10, 0x00, 0x69, 0x20
    );

    let mut cpu = CPU::with(program.to_vec());
    cpu.reset().unwrap();
    cpu.status.remove(CPUStatus::ZERO);
    cpu.interprect().unwrap();

    assert_eq!(cpu.acc, 0x20);
}

#[test]
fn cpu_test_bpl() {

    let program = vec!(
        0x10, 0x03, 0x69, 0x10, 0x00, 0x69, 0x20
    );

    let mut cpu = CPU::with(program.to_vec());
    cpu.reset().unwrap();
    cpu.status.remove(CPUStatus::NEGATIVE);
    cpu.interprect().unwrap();

    assert_eq!(cpu.acc, 0x20);
}

#[test]
fn cpu_test_bvc() {

    let program = vec!(
        0x50, 0x03, 0x69, 0x10, 0x00, 0x69, 0x20
    );

    let mut cpu = CPU::with(program.to_vec());
    cpu.reset().unwrap();
    cpu.status.remove(CPUStatus::OVERFLOW);
    cpu.interprect().unwrap();

    assert_eq!(cpu.acc, 0x20);
}

#[test]
fn cpu_test_bvs() {

    let program = vec!(
        0x70, 0x03, 0x69, 0x10, 0x00, 0x69, 0x20
    );

    let mut cpu = CPU::with(program.to_vec());
    cpu.reset().unwrap();
    cpu.status.insert(CPUStatus::OVERFLOW);
    cpu.interprect().unwrap();

    assert_eq!(cpu.acc, 0x20);
}

#[test]
fn cpu_test_cmp1() {

    let program = vec!(
        0x69, 0x10, 0xC9, 0x0F, 0x00
    );

    let mut cpu = CPU::with(program.to_vec());
    cpu.run().unwrap();

    assert!(cpu.status.contains(CPUStatus::CARRY));
}

#[test]
fn cpu_test_cmp2() {

    let program = vec!(
        0x69, 0x10, 0xC9, 0x10, 0x00
    );

    let mut cpu = CPU::with(program.to_vec());
    cpu.run().unwrap();

    assert!(cpu.status.contains(CPUStatus::CARRY));
    assert!(cpu.status.contains(CPUStatus::ZERO));
}

#[test]
fn cpu_test_tax() {

    let program = vec!(
        0x69, 0x10, 0xAA, 0x00
    );

    let mut cpu = CPU::with(program.to_vec());
    cpu.run().unwrap();

    assert_eq!(cpu.rx, 0x10);
}

#[test]
fn cpu_test_tay() {

    let program = vec!(
        0x69, 0x10, 0xA8, 0x00
    );

    let mut cpu = CPU::with(program.to_vec());
    cpu.run().unwrap();

    assert_eq!(cpu.ry, 0x10);
}

#[test]
fn cpu_test_txa() {

    let program = vec!(
        0x8A, 0x00
    );

    let mut cpu = CPU::with(program.to_vec());
    cpu.reset().unwrap();
    cpu.rx = 0x10;
    cpu.interprect().unwrap();

    assert_eq!(cpu.acc, 0x10);
}

#[test]
fn cpu_test_tya() {

    let program = vec!(
        0x98, 0x00
    );

    let mut cpu = CPU::with(program.to_vec());
    cpu.reset().unwrap();
    cpu.ry = 0x10;
    cpu.interprect().unwrap();

    assert_eq!(cpu.acc, 0x10);
}

#[test]
fn cpu_test_tsx() {

    let program = vec!(
        0xBA, 0x00
    );

    let mut cpu = CPU::with(program.to_vec());
    cpu.reset().unwrap();
    cpu.sp = 0x10;
    cpu.interprect().unwrap();

    assert_eq!(cpu.rx, 0x10);
}

#[test]
fn cpu_test_txs() {

    let program = vec!(
        0x9A, 0x00
    );

    let mut cpu = CPU::with(program.to_vec());
    cpu.reset().unwrap();
    cpu.rx = 0x10;
    cpu.interprect().unwrap();

    assert_eq!(cpu.sp, 0x10);
}

#[test]
fn cpu_test_lsr() {

    let program = vec!(
        0x4A, 0x00
    );

    let mut cpu = CPU::with(program.to_vec());
    cpu.reset().unwrap();
    cpu.acc = 0x09;
    cpu.interprect().unwrap();

    assert_eq!(cpu.acc, 0x4);
    assert!(cpu.status.contains(CPUStatus::CARRY));
}

#[test]
fn cpu_test_rol() {

    let program = vec!(
        0x2A, 0x00
    );

    let mut cpu = CPU::with(program.to_vec());
    cpu.reset().unwrap();
    cpu.acc = 0x40;
    cpu.status.insert(CPUStatus::CARRY);
    cpu.interprect().unwrap();

    assert_eq!(cpu.acc, 0x81);
    assert!(!cpu.status.contains(CPUStatus::CARRY));
}

#[test]
fn cpu_test_ror() {

    let program = vec!(
        0x6A, 0x00
    );

    let mut cpu = CPU::with(program.to_vec());
    cpu.reset().unwrap();
    cpu.acc = 0x08;
    cpu.status.insert(CPUStatus::CARRY);
    cpu.interprect().unwrap();

    assert_eq!(cpu.acc, 0x84);
    assert!(!cpu.status.contains(CPUStatus::CARRY));
}

#[test]
fn cpu_test_jmp_absolute() {

    let program = vec!(
        0x4C, 0x05, 0x80, 0x69, 0x10, 0x69, 0x20, 0x0
    );

    let mut cpu = CPU::with(program.to_vec());
    cpu.reset().unwrap();
    cpu.interprect().unwrap();

    assert_eq!(cpu.acc, 0x20);
}

#[test]
fn cpu_test_jmp_indirect() {

    let program = vec!(
        0x6C, 0x00, 0x10, 0x69, 0x10, 0x69, 0x20, 0x0
    );

    let mut cpu = CPU::with(program.to_vec());
    cpu.reset().unwrap();
    cpu.bus.mem_write_u16(0x1000, 0x8005).unwrap();
    cpu.interprect().unwrap();

    assert_eq!(cpu.acc, 0x20);
}
