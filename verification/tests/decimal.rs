use drift_ws::decimal::{Decimal, MAX_MANTISSA};

fn dec(mantissa: i128, scale: u32) -> Decimal {
    Decimal { mantissa, scale }
}

/// Product of two whole numbers in base `2^32`, least digit first.
fn product(a: &[u32], b: &[u32]) -> Vec<u32> {
    let mut out = vec![0u32; a.len() + b.len()];
    for (i, x) in a.iter().enumerate() {
        let mut carry: u64 = 0;
        for (j, y) in b.iter().enumerate() {
            let sum = out[i + j] as u64 + *x as u64 * *y as u64 + carry;
            out[i + j] = sum as u32;
            carry = sum >> 32;
        }
        out[i + b.len()] = carry as u32;
    }
    out
}

fn digits(x: u128) -> Vec<u32> {
    vec![x as u32, (x >> 32) as u32, (x >> 64) as u32, (x >> 96) as u32]
}

fn product_of(factors: &[u128]) -> Vec<u32> {
    let mut out = digits(1);
    for f in factors {
        out = product(&out, &digits(*f));
    }
    out.resize(40, 0);
    out
}

fn at_most(a: &[u32], b: &[u32]) -> bool {
    for i in (0..a.len()).rev() {
        if a[i] != b[i] {
            return a[i] < b[i];
        }
    }
    true
}

fn distance(a: &[u32], b: &[u32]) -> Vec<u32> {
    let (big, small) = if at_most(a, b) { (b, a) } else { (a, b) };
    let mut out = vec![0u32; big.len()];
    let mut borrow: i64 = 0;
    for i in 0..big.len() {
        let mut d = big[i] as i64 - small[i] as i64 - borrow;
        borrow = 0;
        if d < 0 {
            d += 1 << 32;
            borrow = 1;
        }
        out[i] = d as u32;
    }
    out
}

fn pow10(n: u32) -> u128 {
    10u128.pow(n)
}

/// Whether `q` is `a / b`, off by at most half a unit in its last digit.
fn is_close(q: Decimal, a: Decimal, b: Decimal) -> bool {
    let (ma, mb) = (a.mantissa.unsigned_abs(), b.mantissa.unsigned_abs());
    let got = product_of(&[q.mantissa.unsigned_abs(), mb, pow10(a.scale)]);
    let exact = product_of(&[ma, pow10(b.scale), pow10(q.scale)]);
    let off = product(&distance(&got, &exact)[..39], &[2]);
    let unit = product_of(&[mb, pow10(a.scale)]);
    at_most(&off, &unit)
}

/// The number that is exactly `a / b`, without zeros behind its point, if there
/// is one. It is worked out from the prime factors of the divisor.
fn exact_quotient(a: Decimal, b: Decimal) -> Option<Decimal> {
    let (mut x, mut y) = (a.mantissa.unsigned_abs(), b.mantissa.unsigned_abs());
    while y != 0 {
        (x, y) = (y, x % y);
    }
    let mut m = a.mantissa.unsigned_abs() / x;
    let mut rest = b.mantissa.unsigned_abs() / x;
    let (mut twos, mut fives) = (0u32, 0u32);
    while rest % 2 == 0 {
        rest /= 2;
        twos += 1;
    }
    while rest % 5 == 0 {
        rest /= 5;
        fives += 1;
    }
    if rest != 1 {
        return None;
    }
    let tens = twos.max(fives);
    m = m.checked_mul(2u128.checked_pow(tens - twos)?)?;
    m = m.checked_mul(5u128.checked_pow(tens - fives)?)?;
    let mut scale = (tens + a.scale) as i32 - b.scale as i32;
    while scale < 0 && m != 0 {
        m = m.checked_mul(10)?;
        scale += 1;
    }
    while scale > 0 && m % 10 == 0 {
        m /= 10;
        scale -= 1;
    }
    if m == 0 {
        return Some(dec(0, 0));
    }
    if m > MAX_MANTISSA as u128 || scale > 28 {
        return None;
    }
    let m = m as i128;
    let m = if (a.mantissa < 0) == (b.mantissa < 0) { m } else { -m };
    Some(dec(m, scale as u32))
}

/// Checks a quotient against the two numbers: there is one wherever it is no
/// larger than the largest number; it is exact wherever it can be, else rounded
/// in the last digit that there is room for; and it is off by at most half a
/// unit in its last digit. Says whether it can be exact.
fn check_quotient(a: Decimal, b: Decimal) -> bool {
    let q = a.checked_div(&b);
    if b.mantissa == 0 {
        assert_eq!(q, None);
        return false;
    }
    let (ma, mb) = (a.mantissa.unsigned_abs(), b.mantissa.unsigned_abs());
    let top = product_of(&[ma, pow10(b.scale)]);
    let most = product_of(&[MAX_MANTISSA as u128, mb, pow10(a.scale)]);
    let exact = exact_quotient(a, b);
    if exact.is_some() {
        assert_eq!(q.map(|q| q.normalize()), exact, "{:?} / {:?}", a, b);
    }
    match q {
        None => assert!(!at_most(&top, &most), "{:?} / {:?}", a, b),
        Some(q) => {
            assert!(q.scale <= 28 && q.mantissa.unsigned_abs() <= MAX_MANTISSA as u128);
            assert!(is_close(q, a, b), "{:?} / {:?} = {:?}", a, b, q);
            if q.mantissa != 0 {
                assert_eq!(q.mantissa < 0, (a.mantissa < 0) != (b.mantissa < 0));
            }
            if exact.is_none() {
                let mut full = q;
                while full.scale < 28 && full.mantissa.abs() <= MAX_MANTISSA / 10 {
                    full = dec(full.mantissa * 10, full.scale + 1);
                }
                assert!(is_close(full, a, b), "{:?} / {:?} = {:?}", a, b, q);
            }
        }
    }
    exact.is_some()
}

#[test]
fn new_keeps_mantissa_and_scale() {
    assert_eq!(Decimal::new(3141, 3), dec(3141, 3));
    assert_eq!(Decimal::new(-1, 28), dec(-1, 28));
    assert_eq!(Decimal::new(i64::MIN, 0), dec(i64::MIN as i128, 0));
    assert_eq!(Decimal::new(0, 6), dec(0, 6));
}

#[test]
fn normalize_drops_zeros_behind_the_point() {
    assert_eq!(dec(3100, 3).normalize(), dec(31, 1));
    assert_eq!(dec(-2_500_000, 6).normalize(), dec(-25, 1));
    assert_eq!(dec(1_000_000, 6).normalize(), dec(1, 0));
    assert_eq!(dec(1_000_000, 0).normalize(), dec(1_000_000, 0));
    assert_eq!(dec(123, 2).normalize(), dec(123, 2));
    assert_eq!(dec(0, 6).normalize(), dec(0, 0));
    assert_eq!(dec(MAX_MANTISSA, 28).normalize(), dec(MAX_MANTISSA, 28));
}

#[test]
fn normal_forms_of_one_value_are_equal() {
    assert_eq!(dec(15, 1).normalize(), dec(150_000, 5).normalize());
    assert_eq!(dec(7, 0).normalize(), dec(7_000, 3).normalize());
    assert_eq!(dec(150, 2).normalize().normalize(), dec(150, 2).normalize());
}

#[test]
fn quotients() {
    assert_eq!(dec(6, 0).checked_div(&dec(3, 0)), Some(dec(2, 0)));
    assert_eq!(dec(1, 0).checked_div(&dec(4, 0)), Some(dec(25, 2)));
    assert_eq!(dec(10, 0).checked_div(&dec(4, 0)).map(|q| q.normalize()), Some(dec(25, 1)));
    assert_eq!(
        dec(1, 0).checked_div(&dec(3, 0)),
        Some(dec(3333333333333333333333333333, 28))
    );
    assert_eq!(dec(0, 6).checked_div(&dec(5, 9)), Some(dec(0, 0)));
    assert_eq!(dec(5, 6).checked_div(&dec(0, 9)), None);
    assert_eq!(dec(MAX_MANTISSA, 0).checked_div(&dec(1, 1)), None);
}

#[test]
fn quotients_are_close_and_there_where_they_fit() {
    let mut seed: u64 = 0x9e37_79b9_7f4a_7c15;
    let mut next = || {
        seed ^= seed << 13;
        seed ^= seed >> 7;
        seed ^= seed << 17;
        seed
    };
    for _ in 0..60_000 {
        let mut number = || {
            let bits = (next() % 97) as u32;
            let raw = ((next() as u128) << 64 | next() as u128) & (MAX_MANTISSA as u128);
            let m = if bits == 0 { 0 } else { (raw >> (96 - bits)) as i128 };
            let m = match next() % 8 {
                0 => MAX_MANTISSA - m % 1000,
                1 => (m % 10_000) * 10i128.pow((next() % 20) as u32),
                _ => m,
            };
            let m = if next() % 2 == 0 { m } else { -m };
            dec(m, (next() % 29) as u32)
        };
        check_quotient(number(), number());
    }
    for s in 0..29 {
        for t in 0..29 {
            for a in [1, 2, 9, MAX_MANTISSA, MAX_MANTISSA - 1, 1 << 95, MAX_MANTISSA / 10] {
                for b in [1, 2, 3, 7, 10, 1 << 32, 1 << 64, MAX_MANTISSA, MAX_MANTISSA - 1] {
                    check_quotient(dec(a, s), dec(b, t));
                }
            }
        }
    }
    for k in 1..19u32 {
        for i in 1..40u128 {
            let p = pow10(k);
            let b = 1 + (i * i * 7_919 + next() as u128) % p;
            let max = MAX_MANTISSA as u128;
            let a = (max / p * b + max % p * b / p) as i128;
            for step in -3..4 {
                if a + step > 0 && a + step <= MAX_MANTISSA {
                    check_quotient(dec(a + step, 3), dec(b as i128, 3 + k));
                }
            }
        }
    }
}

#[test]
fn quotients_are_exact_where_they_can_be() {
    let mut seed: u64 = 0x2545_f491_4f6c_dd1d;
    let mut next = || {
        seed ^= seed << 13;
        seed ^= seed >> 7;
        seed ^= seed << 17;
        seed
    };
    // a product divided by one of its factors gives the other
    for _ in 0..40_000 {
        let room = 1 + next() % 95;
        let m = 1 + (((next() as u128) << 64 | next() as u128) >> (128 - room)) as i128;
        let n = 1 + (((next() as u128) << 64 | next() as u128) % (MAX_MANTISSA / m) as u128) as i128;
        let n = n.min(MAX_MANTISSA / m);
        let n = if next() % 2 == 0 { n } else { -n };
        let s = (next() % 29) as u32;
        let t = (next() % (29 - s as u64)) as u32;
        let product = dec(m * n, s + t);
        assert!(check_quotient(product, dec(m, s)));
        assert!(check_quotient(product, dec(n, t)));
        assert_eq!(
            product.checked_div(&dec(m, s)).map(|q| q.normalize()),
            Some(dec(n, t).normalize())
        );
        check_quotient(product.normalize(), dec(n, (next() % 29) as u32));
    }
    // divisors of twos and fives alone, up to the largest
    let mut exact = 0;
    for twos in 0..96u32 {
        for fives in 0..41u32 {
            let Some(b) = 5i128.checked_pow(fives).and_then(|f| f.checked_mul(1 << twos)) else {
                continue;
            };
            if b > MAX_MANTISSA {
                continue;
            }
            for a in [1, 3, 7, b - 1, b + 1, 3 * (b / 4), MAX_MANTISSA, MAX_MANTISSA / 5, next() as i128] {
                if a.abs() <= MAX_MANTISSA {
                    for (s, t) in [(0, 0), (6, 9), (28, 0), (0, 28), (6, 28), (3, 20)] {
                        exact += check_quotient(dec(a, s), dec(b, t)) as u32;
                    }
                }
            }
        }
    }
    assert!(exact > 1_000);
    // exact quotients next to the largest mantissa
    for k in 0..60i128 {
        let near = MAX_MANTISSA - k;
        for b in [1, 2, 4, 5, 8, 10, 16, 25, 32, 1000, 1 << 20] {
            if near % b == 0 {
                assert!(check_quotient(dec(near / b, 5), dec(1, 0)));
            }
            for s in 0..29 {
                check_quotient(dec(near, s), dec(b, 28 - s));
                check_quotient(dec(near / b, s), dec(10i128.pow(s), s));
            }
        }
    }
}
