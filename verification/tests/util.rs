use ngc224::gameboy::util::clear_bit;
use ngc224::gameboy::util::set_bit;
use ngc224::gameboy::util::test_bit;

#[test]
fn test_clear_bit() {
    assert!(clear_bit(0b0011, 1) == 0b0001);
}

#[test]
fn test_test_bit() {
    assert!(test_bit(0b0011, 1) == true);
}

#[test]
fn test_set_bit() {
    assert!(set_bit(0b0011, 3) == 0b1011);
}
