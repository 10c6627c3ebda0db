use benilla_app::single::Single;
use benilla_app::text::{comes_before, decimal, flag, same_text, signed_decimal, text_in};

fn n(v: f32) -> Single {
    Single::from_bits(v.to_bits())
}

const SAMPLES: [f32; 19] = [
    0.0,
    -0.0,
    1.0,
    -1.0,
    0.5,
    -0.5,
    2.9,
    254.9,
    255.0,
    256.0,
    1e-40,
    -1e-40,
    3.4e38,
    -3.4e38,
    4_294_967_040.0,
    4_294_967_296.0,
    f32::INFINITY,
    f32::NEG_INFINITY,
    f32::NAN,
];

#[test]
fn comparisons_agree_with_the_machines() {
    for a in SAMPLES {
        assert_eq!(n(a).is_nan(), a.is_nan(), "{a}");
        assert_eq!(n(a).is_finite(), a.is_finite(), "{a}");
        assert_eq!(n(a).is_nonzero(), a != 0.0, "{a}");
        for b in SAMPLES {
            assert_eq!(n(a).is_below(n(b)), a < b, "{a} {b}");
            assert_eq!(n(a).is_at_most(n(b)), a <= b, "{a} {b}");
            assert_eq!(n(a).equals(n(b)), a == b, "{a} {b}");
            assert_eq!(n(a).sorts_after(n(b)), a.total_cmp(&b).is_gt(), "{a} {b}");
            let most = f32::from_bits(n(a).max(n(b)).bits);
            assert!(most == a.max(b) || most.is_nan() && a.is_nan() && b.is_nan(), "{a} {b}");
            let least = f32::from_bits(n(a).min(n(b)).bits);
            assert!(least == a.min(b) || least.is_nan() && a.is_nan() && b.is_nan(), "{a} {b}");
        }
    }
}

#[test]
fn conversions_agree_with_the_machines() {
    for v in SAMPLES {
        assert_eq!(n(v).to_count(), v as u32, "{v}");
        assert_eq!(n(v).to_step(), v as u8, "{v}");
        assert_eq!(n(v).to_integer(), v as i64, "{v}");
    }
    for v in [-2.5f32, 7.99, -9e18, 9e18, -9.3e18, 9.3e18, 16_777_217.0] {
        assert_eq!(n(v).to_integer(), v as i64, "{v}");
        assert_eq!(n(v).to_count(), v as u32, "{v}");
    }
}

#[test]
fn a_clamp_agrees_with_the_machines() {
    for v in SAMPLES {
        let held = f32::from_bits(n(v).clamp(n(-0.5), n(2.0)).bits);
        let want = v.clamp(-0.5, 2.0);
        assert!(held == want || held.is_nan() && want.is_nan(), "{v}");
        let again = n(held).clamp(n(-0.5), n(2.0));
        assert_eq!(again.bits, held.to_bits());
    }
}

#[test]
fn numbers_are_written_in_decimal() {
    for v in [0u64, 7, 10, 2048, 99_999, u64::MAX] {
        assert_eq!(decimal(v), v.to_string());
    }
    for v in [0i64, -1, 42, i64::MIN, i64::MAX] {
        assert_eq!(signed_decimal(v), v.to_string());
    }
    assert_eq!(flag(true), "1");
    assert_eq!(flag(false), "0");
}

#[test]
fn texts_are_ordered_as_the_machine_orders_them() {
    let texts = ["", "a", "ab", "b", "B", "\u{e9}", "\u{1f980}", "\u{ffff}", "a\u{0}"];
    for a in texts {
        for b in texts {
            assert_eq!(comes_before(a, b), a < b, "{a:?} {b:?}");
            assert_eq!(same_text(a, b), a == b, "{a:?} {b:?}");
        }
    }
    let list = vec![String::from("x"), String::from("y")];
    assert!(text_in(&list, "y"));
    assert!(!text_in(&list, "Y"));
}
