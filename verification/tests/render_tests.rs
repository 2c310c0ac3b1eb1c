use zipbench::render::pad3_to_string;
use zipbench::render::render_ns;
use zipbench::render::u64_to_string;
use zipbench::timer::Timer;

#[test]
fn renders_1234_milliseconds() {
    let mut t = Timer::new();
    t.start(0);
    assert_eq!(t.pause(1_234_000_000), Ok(()));
    assert_eq!(t.render(2_000_000_000), "1.234 seconds");
}

#[test]
fn renders_5_milliseconds() {
    let mut t = Timer::new();
    t.start(0);
    assert_eq!(t.pause(5_000_000), Ok(()));
    assert_eq!(t.render(5_000_000), "0.005 seconds");
}

#[test]
fn render_includes_open_interval() {
    let mut t = Timer::new();
    t.start(1_000_000);
    assert_eq!(t.render(6_000_000), "0.005 seconds");
}

#[test]
fn renders_zero() {
    assert_eq!(render_ns(0), "0.000 seconds");
}

#[test]
fn renders_sub_millisecond_remainder_truncated() {
    // 1 s, 999 ms, 999999 ns: the nanoseconds below a millisecond vanish
    assert_eq!(render_ns(1_999_999_999), "1.999 seconds");
}

#[test]
fn decimal_digits() {
    assert_eq!(u64_to_string(0), "0");
    assert_eq!(u64_to_string(7), "7");
    assert_eq!(u64_to_string(10), "10");
    assert_eq!(u64_to_string(1_234_567_890), "1234567890");
    assert_eq!(u64_to_string(u64::MAX), "18446744073709551615");
}

#[test]
fn three_digit_padding() {
    assert_eq!(pad3_to_string(0), "000");
    assert_eq!(pad3_to_string(7), "007");
    assert_eq!(pad3_to_string(42), "042");
    assert_eq!(pad3_to_string(999), "999");
}
