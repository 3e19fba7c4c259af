use pseudocube::color::{color_from_words, random_color, unit_fraction};
use pseudocube::fixed::{Fixed, SCALE};

#[test]
fn unit_fraction_of_zero_is_zero() {
    assert_eq!(unit_fraction(0), Fixed::from_raw(0));
}

#[test]
fn unit_fraction_reads_the_low_23_bits() {
    assert_eq!(unit_fraction(0x40_0000), Fixed::from_raw(500_000));
    assert_eq!(unit_fraction(0x20_0000), Fixed::from_raw(250_000));
    assert_eq!(unit_fraction(0x7f_ffff), Fixed::from_raw(999_999));
    assert_eq!(unit_fraction(1), Fixed::from_raw(0));
    assert_eq!(unit_fraction(9), Fixed::from_raw(1));
}

#[test]
fn unit_fraction_ignores_the_high_bits() {
    assert_eq!(unit_fraction(0xff80_0000), Fixed::from_raw(0));
    assert_eq!(unit_fraction(0x80_0000), Fixed::from_raw(0));
    assert_eq!(unit_fraction(0xffff_ffff), Fixed::from_raw(999_999));
    assert_eq!(unit_fraction(0xabc0_0000 | 0x40_0000), Fixed::from_raw(500_000));
}

#[test]
fn color_from_words_goes_channel_by_channel() {
    let c = color_from_words([0, 0x40_0000, 0xffff_ffff]);
    assert_eq!(c, [Fixed::from_raw(0), Fixed::from_raw(500_000), Fixed::from_raw(999_999)]);
}

#[test]
fn random_colors_stay_below_one() {
    for _ in 0..1000 {
        let c = random_color();
        for channel in c.iter() {
            assert!(0 <= channel.raw && channel.raw < SCALE);
        }
    }
}

#[test]
fn random_colors_vary() {
    let first = random_color();
    let mut differs = false;
    for _ in 0..64 {
        if random_color() != first {
            differs = true;
        }
    }
    assert!(differs);
}
