use oxidegb::gameboy::cpu::alu;
use oxidegb::gameboy::cpu::registers::Flags;

fn flags(zero: bool, negative: bool, half_carry: bool, carry: bool) -> Flags {
    Flags { zero, negative, half_carry, carry }
}

#[test]
fn add_sets_zero_half_carry_and_carry() {
    let r = alu::add_with_carry(0x3A, 0xC6, false);
    assert_eq!(r.value, 0x00);
    assert_eq!(r.flags, flags(true, false, true, true));
}

#[test]
fn sub_of_equal_values_sets_zero_and_negative() {
    let r = alu::sub_with_borrow(0x3E, 0x3E, false);
    assert_eq!(r.value, 0x00);
    assert_eq!(r.flags, flags(true, true, false, false));
}

#[test]
fn daa_after_add_gives_decimal_sum() {
    let sum = alu::add_with_carry(0x45, 0x38, false);
    assert_eq!(sum.value, 0x7D);
    let r = alu::daa(sum.value, sum.flags);
    assert_eq!(r.value, 0x83);
    assert!(!r.flags.half_carry);
    assert!(!r.flags.carry);
}

#[test]
fn flag_register_never_has_a_low_nibble() {
    for byte in 0..=255u8 {
        let mut f = flags(false, false, false, false);
        f.set_value(byte);
        assert_eq!(f.value(), byte & 0xF0);
        assert_eq!(f.value() & 0x0F, 0);
    }
}

#[test]
fn add_with_carry_in_counts_the_carry() {
    let r = alu::add_with_carry(0x0F, 0x00, true);
    assert_eq!(r.value, 0x10);
    assert_eq!(r.flags, flags(false, false, true, false));
    let r = alu::add_with_carry(0xFF, 0x00, true);
    assert_eq!(r.value, 0x00);
    assert_eq!(r.flags, flags(true, false, true, true));
}

#[test]
fn sub_with_borrow_in_counts_the_borrow() {
    let r = alu::sub_with_borrow(0x10, 0x0F, true);
    assert_eq!(r.value, 0x00);
    assert_eq!(r.flags, flags(true, true, true, false));
    let r = alu::sub_with_borrow(0x00, 0x01, false);
    assert_eq!(r.value, 0xFF);
    assert_eq!(r.flags, flags(false, true, true, true));
}

#[test]
fn logic_operations_set_their_fixed_flags() {
    assert_eq!(alu::and(0xF0, 0x0F).flags, flags(true, false, true, false));
    assert_eq!(alu::and(0xF0, 0x3C).value, 0x30);
    assert_eq!(alu::or(0xF0, 0x0F).value, 0xFF);
    assert_eq!(alu::or(0, 0).flags, flags(true, false, false, false));
    assert_eq!(alu::xor(0xAA, 0xAA).flags, flags(true, false, false, false));
    assert_eq!(alu::xor(0xAA, 0x55).value, 0xFF);
}

#[test]
fn inc_and_dec_leave_carry_alone() {
    let carry = flags(false, false, false, true);
    let r = alu::inc(0x0F, carry);
    assert_eq!(r.value, 0x10);
    assert_eq!(r.flags, flags(false, false, true, true));
    let r = alu::inc(0xFF, carry);
    assert_eq!(r.value, 0x00);
    assert_eq!(r.flags, flags(true, false, true, true));
    let r = alu::dec(0x10, flags(false, false, false, false));
    assert_eq!(r.value, 0x0F);
    assert_eq!(r.flags, flags(false, true, true, false));
    let r = alu::dec(0x01, carry);
    assert_eq!(r.value, 0x00);
    assert_eq!(r.flags, flags(true, true, false, true));
}

#[test]
fn word_addition_carries_out_of_bits_11_and_15() {
    let keep = flags(true, true, false, false);
    let r = alu::add_words(0x0FFF, 0x0001, keep);
    assert_eq!(r.value, 0x1000);
    assert_eq!(r.flags, flags(true, false, true, false));
    let r = alu::add_words(0xFFFF, 0x0001, keep);
    assert_eq!(r.value, 0x0000);
    assert_eq!(r.flags, flags(true, false, true, true));
}

#[test]
fn stack_offset_flags_come_from_the_low_byte() {
    let r = alu::add_offset(0xFFF8, 0x08);
    assert_eq!(r.value, 0x0000);
    assert_eq!(r.flags, flags(false, false, true, true));
    let r = alu::add_offset(0x0001, 0xFF);
    assert_eq!(r.value, 0x0000);
    assert_eq!(r.flags, flags(false, false, true, true));
    let r = alu::add_offset(0x1000, 0xFE);
    assert_eq!(r.value, 0x0FFE);
    assert_eq!(r.flags, flags(false, false, false, false));
    assert_eq!(alu::displace(0x0100, 0x80), 0x0080);
    assert_eq!(alu::displace(0x0100, 0x7F), 0x017F);
}

#[test]
fn shifts_and_rotates_move_the_right_bit_out() {
    assert_eq!(alu::rotate_left(0x85).value, 0x0B);
    assert!(alu::rotate_left(0x85).flags.carry);
    assert_eq!(alu::rotate_right(0x01).value, 0x80);
    assert!(alu::rotate_right(0x01).flags.carry);
    assert_eq!(alu::rotate_left_through(0x80, false).value, 0x00);
    assert_eq!(alu::rotate_left_through(0x80, false).flags, flags(true, false, false, true));
    assert_eq!(alu::rotate_left_through(0x01, true).value, 0x03);
    assert_eq!(alu::rotate_right_through(0x01, false).value, 0x00);
    assert_eq!(alu::rotate_right_through(0x02, true).value, 0x81);
    assert_eq!(alu::shift_left(0xC1).value, 0x82);
    assert!(alu::shift_left(0xC1).flags.carry);
    assert_eq!(alu::shift_right_signed(0x81).value, 0xC0);
    assert!(alu::shift_right_signed(0x81).flags.carry);
    assert_eq!(alu::shift_right(0x81).value, 0x40);
    assert_eq!(alu::swap(0xA5).value, 0x5A);
    assert_eq!(alu::swap(0x00).flags, flags(true, false, false, false));
    let cleared = alu::clear_zero(alu::rotate_left(0x00));
    assert!(!cleared.flags.zero);
}

#[test]
fn bit_operations_reach_each_bit() {
    let none = flags(false, false, false, true);
    for index in 0..8u8 {
        let mask = 1u8 << index;
        assert!(alu::test_bit(mask, index));
        assert!(!alu::test_bit(!mask, index));
        assert_eq!(alu::bit(mask, index, none), flags(false, false, true, true));
        assert_eq!(alu::bit(!mask, index, none), flags(true, false, true, true));
        assert_eq!(alu::res(0xFF, index), !mask);
        assert_eq!(alu::res(0x00, index), 0x00);
        assert_eq!(alu::set(0x00, index), mask);
        assert_eq!(alu::set(0xFF, index), 0xFF);
    }
}

#[test]
fn daa_corrects_after_subtraction_too() {
    // 0x42 - 0x09 = 0x39 in binary with a half borrow; decimal 42 - 9 = 33.
    let diff = alu::sub_with_borrow(0x42, 0x09, false);
    assert_eq!(diff.value, 0x39);
    let r = alu::daa(diff.value, diff.flags);
    assert_eq!(r.value, 0x33);
    assert!(r.flags.negative);
    assert!(!r.flags.half_carry);
    // 0x99 + 0x01 = 0x9A; decimal 99 + 1 = 100, which carries.
    let sum = alu::add_with_carry(0x99, 0x01, false);
    let r = alu::daa(sum.value, sum.flags);
    assert_eq!(r.value, 0x00);
    assert_eq!(r.flags, flags(true, false, false, true));
}

#[test]
fn complement_inverts_every_bit() {
    let r = alu::cpl(0x35, flags(true, false, false, true));
    assert_eq!(r.value, 0xCA);
    assert_eq!(r.flags, flags(true, true, true, true));
}
