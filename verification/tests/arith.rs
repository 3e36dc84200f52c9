use calc_service::arith::{
    wrapping_difference, wrapping_product, wrapping_quotient, wrapping_sum,
};
use calc_service::handlers;
use calc_service::params::CalcParams;

const SAMPLES: [i32; 13] = [
    i32::MIN,
    i32::MIN + 1,
    -65536,
    -46341,
    -7,
    -1,
    0,
    1,
    2,
    7,
    46341,
    i32::MAX - 1,
    i32::MAX,
];

#[test]
fn sum_wraps_as_two_complement() {
    for a in SAMPLES {
        for b in SAMPLES {
            assert_eq!(wrapping_sum(a, b), a.wrapping_add(b));
        }
    }
    assert_eq!(wrapping_sum(i32::MAX, 1), i32::MIN);
    assert_eq!(wrapping_sum(i32::MIN, -1), i32::MAX);
}

#[test]
fn difference_wraps_as_two_complement() {
    for a in SAMPLES {
        for b in SAMPLES {
            assert_eq!(wrapping_difference(a, b), a.wrapping_sub(b));
        }
    }
    assert_eq!(wrapping_difference(i32::MIN, 1), i32::MAX);
    assert_eq!(wrapping_difference(0, i32::MIN), i32::MIN);
}

#[test]
fn product_wraps_as_two_complement() {
    for a in SAMPLES {
        for b in SAMPLES {
            assert_eq!(wrapping_product(a, b), a.wrapping_mul(b));
        }
    }
    assert_eq!(wrapping_product(65536, 65536), 0);
    assert_eq!(wrapping_product(46341, 46341), -2147479015);
    assert_eq!(wrapping_product(i32::MIN, -1), i32::MIN);
}

#[test]
fn quotient_rounds_toward_zero() {
    assert_eq!(wrapping_quotient(7, 2), 3);
    assert_eq!(wrapping_quotient(-7, 2), -3);
    assert_eq!(wrapping_quotient(7, -2), -3);
    assert_eq!(wrapping_quotient(-7, -2), 3);
    assert_eq!(wrapping_quotient(0, -5), 0);
    assert_eq!(wrapping_quotient(1, i32::MIN), 0);
    assert_eq!(wrapping_quotient(i32::MIN, i32::MIN), 1);
    assert_eq!(wrapping_quotient(i32::MIN, 1), i32::MIN);
    assert_eq!(wrapping_quotient(i32::MAX, -1), -i32::MAX);
    for a in SAMPLES {
        for b in SAMPLES {
            if b != 0 {
                assert_eq!(wrapping_quotient(a, b), a.wrapping_div(b));
            }
        }
    }
}

#[test]
fn quotient_of_min_by_minus_one_wraps() {
    assert_eq!(wrapping_quotient(i32::MIN, -1), i32::MIN);
}

#[test]
fn quotient_leaves_a_small_remainder_on_the_dividend_side() {
    for a in SAMPLES {
        for b in SAMPLES {
            if b != 0 && !(a == i32::MIN && b == -1) {
                let q = i64::from(wrapping_quotient(a, b));
                let r = i64::from(a) - q * i64::from(b);
                assert!(r.abs() < i64::from(b).abs());
                assert!(r == 0 || (r < 0) == (a < 0));
            }
        }
    }
}

#[test]
fn handlers_answer_with_the_decimal_result() {
    let p = CalcParams::new(12, -5);
    assert_eq!(handlers::add(&p).body, "7");
    assert_eq!(handlers::sub(&p).body, "17");
    assert_eq!(handlers::mul(&p).body, "-60");
    assert_eq!(handlers::div(&p).body, "-2");
    assert_eq!(handlers::add(&p).status, 200);
    assert_eq!(handlers::sub(&p).status, 200);
    assert_eq!(handlers::mul(&p).status, 200);
    assert_eq!(handlers::div(&p).status, 200);
}

#[test]
fn handlers_wrap_on_overflow() {
    let top = CalcParams::new(i32::MAX, 1);
    assert_eq!(handlers::add(&top).status, 200);
    assert_eq!(handlers::add(&top).body, "-2147483648");
    let bottom = CalcParams::new(i32::MIN, 1);
    assert_eq!(handlers::sub(&bottom).body, "2147483647");
    let wide = CalcParams::new(65536, 65537);
    assert_eq!(handlers::mul(&wide).body, "65536");
    let edge = CalcParams::new(i32::MIN, -1);
    assert_eq!(handlers::div(&edge).status, 200);
    assert_eq!(handlers::div(&edge).body, "-2147483648");
}

#[test]
fn div_handler_refuses_zero_divisor() {
    for a in SAMPLES {
        let reply = handlers::div(&CalcParams::new(a, 0));
        assert_eq!(reply.status, 400);
        assert_eq!(reply.body, "Cannot divide by zero");
        assert!(!reply.is_ok());
    }
}

#[test]
fn payload_keeps_its_operands() {
    let p = CalcParams::new(-3, 8);
    assert_eq!(p.a, -3);
    assert_eq!(p.b, 8);
    assert_eq!(p, CalcParams { a: -3, b: 8 });
}
