use sm83_core::cpu::registers::Flag;
use sm83_core::cpu::registers::FlagRegister;
use sm83_core::cpu::registers::SM83RegisterBank;

#[test]
fn flag_values() {
    assert_eq!(Flag::Zero.value(), 0b1000_0000);
    assert_eq!(Flag::Subtract.value(), 0b0100_0000);
    assert_eq!(Flag::HalfCarry.value(), 0b0010_0000);
    assert_eq!(Flag::Carry.value(), 0b0001_0000);
}

#[test]
fn flag_register_starts_clear() {
    let mut flags = FlagRegister::new();
    assert!(!flags.check(Flag::Zero));
    assert!(!flags.check(Flag::Subtract));
    assert!(!flags.check(Flag::HalfCarry));
    assert!(!flags.check(Flag::Carry));
}

#[test]
fn flag_register_set_and_check() {
    let mut flags = FlagRegister::new();
    flags.set(Flag::Carry);
    assert!(flags.check(Flag::Carry));
    assert!(!flags.check(Flag::Zero));
    flags.set(Flag::Zero);
    assert!(flags.check(Flag::Carry));
    assert!(flags.check(Flag::Zero));
}

#[test]
fn flag_register_unset_leaves_others() {
    let mut flags = FlagRegister::new();
    flags.set(Flag::Carry);
    flags.set(Flag::HalfCarry);
    flags.unset(Flag::Carry);
    assert!(!flags.check(Flag::Carry));
    assert!(flags.check(Flag::HalfCarry));
}

#[test]
fn flag_register_clear_zeroes_everything() {
    let mut flags = FlagRegister::new();
    flags.set(Flag::Zero);
    flags.set(Flag::Subtract);
    flags.set(Flag::HalfCarry);
    flags.set(Flag::Carry);
    flags.clear();
    assert!(!flags.check(Flag::Zero));
    assert!(!flags.check(Flag::Subtract));
    assert!(!flags.check(Flag::HalfCarry));
    assert!(!flags.check(Flag::Carry));
}

#[test]
fn combined_takes_first_as_low_byte() {
    let bank = SM83RegisterBank::new();
    assert_eq!(bank.combined(0x34, 0x12), 0x1234);
    assert_eq!(bank.combined(0x00, 0x00), 0x0000);
    assert_eq!(bank.combined(0xFF, 0xFF), 0xFFFF);
}

#[test]
fn split_is_inverse_of_combined() {
    let mut bank = SM83RegisterBank::new();
    assert_eq!(bank.split(0x1234), [0x34, 0x12]);
    assert_eq!(bank.split(0x0000), [0x00, 0x00]);
    assert_eq!(bank.split(0xFFFF), [0xFF, 0xFF]);
}

#[test]
fn split_combine_round_trip_every_pair() {
    let mut bank = SM83RegisterBank::new();
    for low in 0..=255u8 {
        for high in 0..=255u8 {
            let combined = bank.combined(low, high);
            assert_eq!(bank.split(combined), [low, high]);
        }
    }
}

#[test]
fn hl_is_derived_from_the_two_cells() {
    let mut bank = SM83RegisterBank::new();
    bank.h = 0x34;
    bank.l = 0x12;
    assert_eq!(bank.hl(), 0x1234);
}

#[test]
fn set_hl_writes_back_through_split() {
    let mut bank = SM83RegisterBank::new();
    bank.set_hl(0x1234);
    assert_eq!(bank.h, 0x34);
    assert_eq!(bank.l, 0x12);
    assert_eq!(bank.hl(), 0x1234);
}

#[test]
fn new_bank_is_all_zero() {
    let bank = SM83RegisterBank::new();
    assert_eq!(bank.a, 0);
    assert_eq!(bank.b, 0);
    assert_eq!(bank.c, 0);
    assert_eq!(bank.d, 0);
    assert_eq!(bank.e, 0);
    assert_eq!(bank.h, 0);
    assert_eq!(bank.l, 0);
    assert_eq!(bank.pc, 0);
    assert_eq!(bank.sp, 0);
    assert_eq!(bank.m, 0);
    assert_eq!(bank.t, 0);
}
