use limits_of_ions::exponential::{exp, RATIO_CAP, RATIO_ONE};
use limits_of_ions::rounding::{div_ceil, div_round};
use limits_of_ions::text::{
    decimal_text, push_decimal, push_hundredths, push_last_digits, push_thousandths,
};

const ONE: u128 = RATIO_ONE as u128;

#[test]
fn div_ceil_rounds_up() {
    assert_eq!(div_ceil(0, 7), 0);
    assert_eq!(div_ceil(1, 7), 1);
    assert_eq!(div_ceil(7, 7), 1);
    assert_eq!(div_ceil(8, 7), 2);
    assert_eq!(div_ceil(14, 7), 2);
    assert_eq!(div_ceil(u128::MAX, 1), u128::MAX);
    assert_eq!(div_ceil(u128::MAX, u128::MAX), 1);
}

#[test]
fn div_round_rounds_halves_up() {
    assert_eq!(div_round(0, 10), 0);
    assert_eq!(div_round(4, 10), 0);
    assert_eq!(div_round(5, 10), 1);
    assert_eq!(div_round(14, 10), 1);
    assert_eq!(div_round(15, 10), 2);
    assert_eq!(div_round(7, 2), 4);
    assert_eq!(div_round(9, 3), 3);
}

#[test]
fn exp_of_zero_is_one() {
    assert_eq!(exp(0), Some(ONE));
    assert_eq!(exp(63), Some(ONE));
    assert_eq!(exp(64), Some(ONE + 64));
}

#[test]
fn exp_exact_values() {
    assert_eq!(exp(ONE / 2), Some(1_648_721_270_699_967));
    assert_eq!(exp(ONE), Some(2_718_281_828_458_843));
    assert_eq!(exp(4 * ONE), Some(54_598_150_033_141_797));
    assert_eq!(exp(10 * ONE), Some(22_026_465_794_805_838_082));
    assert_eq!(exp(50 * ONE), Some(5_184_705_528_586_904_800_872_417_067_035_547_965));
}

#[test]
fn exp_ends_at_the_cap() {
    assert_eq!(RATIO_CAP, 10_000_000_000_000_000_000_000 * ONE);
    assert_eq!(
        exp(50_656_872_045_869_055),
        Some(9_999_999_999_999_462_761_168_274_007_215_639_057)
    );
    assert_eq!(exp(50_656_872_045_869_055 + 64), None);
    assert_eq!(exp(51 * ONE), None);
    assert_eq!(exp(64 * ONE), None);
    assert_eq!(exp(64 * ONE + 64), None);
    assert_eq!(exp(u128::MAX), None);
}

#[test]
fn exp_is_close_to_the_exponential() {
    let one: f64 = ONE as f64;
    let mut x: u128 = 0;
    while x <= 50 * ONE {
        let ours: f64 = exp(x).unwrap() as f64 / one;
        let theirs: f64 = (x as f64 / one).exp();
        assert!((ours - theirs).abs() <= 1e-12 * theirs, "at {}", x);
        x += ONE / 64;
    }
}

#[test]
fn exp_never_decreases() {
    let mut previous: u128 = exp(0).unwrap();
    let mut x: u128 = 0;
    while x <= 50 * ONE {
        let next: u128 = exp(x).unwrap();
        assert!(previous <= next);
        previous = next;
        x += ONE / 97 + 1;
    }
    let base: u128 = 242_789_574_518;
    let mut step: u128 = 0;
    while step < 200 {
        assert!(exp(base + step) <= exp(base + step + 1));
        step += 1;
    }
}

#[test]
fn decimal_text_of_numbers() {
    assert_eq!(decimal_text(0), "0");
    assert_eq!(decimal_text(7), "7");
    assert_eq!(decimal_text(10), "10");
    assert_eq!(decimal_text(1234567890), "1234567890");
    assert_eq!(decimal_text(u128::MAX), u128::MAX.to_string());
}

#[test]
fn push_decimal_appends() {
    let mut text: String = String::from("n=");
    push_decimal(&mut text, 405);
    assert_eq!(text, "n=405");
}

#[test]
fn push_last_digits_pads_with_zeros() {
    let mut text: String = String::new();
    push_last_digits(&mut text, 5, 3);
    assert_eq!(text, "005");
    push_last_digits(&mut text, 12345, 2);
    assert_eq!(text, "00545");
    push_last_digits(&mut text, 9, 0);
    assert_eq!(text, "00545");
}

#[test]
fn push_hundredths_has_two_places() {
    let mut text: String = String::new();
    push_hundredths(&mut text, 1205);
    assert_eq!(text, "12.05");
    let mut zero: String = String::new();
    push_hundredths(&mut zero, 0);
    assert_eq!(zero, "0.00");
    let mut small: String = String::new();
    push_hundredths(&mut small, 7);
    assert_eq!(small, "0.07");
}

#[test]
fn push_thousandths_has_three_places() {
    let mut text: String = String::new();
    push_thousandths(&mut text, 454);
    assert_eq!(text, "0.454");
    let mut large: String = String::new();
    push_thousandths(&mut large, 12_003);
    assert_eq!(large, "12.003");
}
