//! Exact powers of a decimal multiplier.
//!
//! A delay grows by a multiplier that may have decimal places, so the
//! product of a base and a power of the multiplier is a fraction. It is
//! rounded down once, at the end. To compute that exactly the numerator is
//! held as a number of any size, in digits to the base 1000: dividing by a
//! power of 1000 then only drops the lowest digits.

use crate::milli::Milli;
use vstd::arithmetic::div_mod::{
    lemma_div_denominator, lemma_div_is_ordered, lemma_fundamental_div_mod_converse,
};
use vstd::arithmetic::power::{lemma_pow_positive, pow};
use vstd::prelude::*;

verus! {

/// `base` times the `attempt`-th power of the multiplier, rounded down to a
/// whole number.
pub open spec fn scaled(base: nat, multiplier: Milli, attempt: nat) -> nat {
    ((base * pow(multiplier.thousandths as int, attempt)) / pow(1000, attempt)) as nat
}

/// The smaller of two numbers.
pub open spec fn smaller(a: nat, b: nat) -> nat {
    if a < b {
        a
    } else {
        b
    }
}

/// The number that a run of digits to the base 1000 stands for, lowest
/// digit first.
pub open spec fn number(digits: Seq<u32>) -> nat
    decreases digits.len(),
{
    if digits.len() == 0 {
        0
    } else {
        number(digits.drop_last()) + digits.last() as nat * pow(1000, (digits.len() - 1) as nat) as nat
    }
}

/// Whether every digit is below 1000.
pub open spec fn all_digits(digits: Seq<u32>) -> bool {
    forall|i: int| 0 <= i < digits.len() ==> #[trigger] digits[i] < 1000
}

/// The number that the digits from the position `from` upward stand for.
pub open spec fn upper(digits: Seq<u32>, from: nat) -> nat
    decreases digits.len() - from,
{
    if from >= digits.len() {
        0
    } else {
        digits[from as int] as nat + 1000 * upper(digits, from + 1)
    }
}

/// A power of a number that is not negative is not negative.
pub proof fn lemma_pow_not_negative(b: int, e: nat)
    requires
        0 <= b,
    ensures
        0 <= pow(b, e),
    decreases e,
{
    reveal(pow);
    if e > 0 {
        lemma_pow_not_negative(b, (e - 1) as nat);
        let p = pow(b, (e - 1) as nat);
        assert(0 <= b * p) by (nonlinear_arith)
            requires
                0 <= b,
                0 <= p,
        ;
    }
}

/// One more digit on top adds the digit times the power of its position.
pub proof fn lemma_number_push(digits: Seq<u32>, digit: u32)
    ensures
        number(digits.push(digit)) == number(digits) + digit * pow(1000, digits.len()),
{
    assert(digits.push(digit).drop_last() =~= digits);
    lemma_pow_positive(1000, digits.len());
    assert(0 <= digit * pow(1000, digits.len())) by (nonlinear_arith)
        requires
            0 <= digit,
            0 < pow(1000, digits.len()),
    ;
}

/// A number of `n` digits is below the `n`-th power of 1000.
pub proof fn lemma_number_bound(digits: Seq<u32>)
    requires
        all_digits(digits),
    ensures
        number(digits) < pow(1000, digits.len()),
    decreases digits.len(),
{
    reveal(pow);
    if digits.len() > 0 {
        let rest = digits.drop_last();
        lemma_number_bound(rest);
        let p = pow(1000, rest.len());
        let d = digits.last() as int;
        assert(digits.last() < 1000);
        assert(d * p <= 999 * p) by (nonlinear_arith)
            requires
                0 <= d <= 999,
                0 <= p,
        ;
    }
}

/// A number is its lowest `at` digits plus the rest, shifted up.
pub proof fn lemma_number_split(digits: Seq<u32>, at: nat)
    requires
        at <= digits.len(),
    ensures
        number(digits) == number(digits.take(at as int)) + pow(1000, at) * upper(digits, at),
    decreases digits.len() - at,
{
    reveal(pow);
    if at == digits.len() {
        assert(digits.take(at as int) =~= digits);
        assert(upper(digits, at) == 0);
        assert(pow(1000, at) * 0 == 0);
    } else {
        lemma_number_split(digits, at + 1);
        assert(digits.take(at as int + 1) =~= digits.take(at as int).push(digits[at as int]));
        lemma_number_push(digits.take(at as int), digits[at as int]);
        let p = pow(1000, at);
        let d = digits[at as int] as int;
        let u = upper(digits, at + 1) as int;
        assert(pow(1000, at + 1) == 1000 * p);
        assert(upper(digits, at) == d + 1000 * u);
        assert(digits.take(at as int).len() == at);
        assert(number(digits.take(at as int + 1)) == number(digits.take(at as int)) + d * p);
        assert(number(digits) == number(digits.take(at as int + 1)) + (1000 * p) * u);
        assert(d * p + (1000 * p) * u == p * (d + 1000 * u)) by (nonlinear_arith);
    }
}

/// Dividing a number by a power of 1000 drops its lowest digits.
pub proof fn lemma_number_floor(digits: Seq<u32>, at: nat)
    requires
        all_digits(digits),
        at <= digits.len(),
    ensures
        number(digits) as int / pow(1000, at) == upper(digits, at),
{
    lemma_number_split(digits, at);
    lemma_number_bound(digits.take(at as int));
    let p = pow(1000, at);
    let u = upper(digits, at) as int;
    assert(p * u == u * p) by (nonlinear_arith);
    lemma_fundamental_div_mod_converse(
        number(digits) as int,
        p,
        u,
        number(digits.take(at as int)) as int,
    );
}

/// With a multiplier of at least one, one more step never gives less.
pub proof fn lemma_scaled_step_up(base: nat, multiplier: Milli, attempt: nat)
    requires
        multiplier.at_least_one(),
    ensures
        scaled(base, multiplier, attempt) <= scaled(base, multiplier, attempt + 1),
{
    reveal(pow);
    let n = multiplier.thousandths as int;
    let q = pow(n, attempt);
    let p = pow(1000, attempt);
    lemma_pow_not_negative(n, attempt);
    lemma_pow_positive(1000, attempt);
    let a = base * q;
    assert(0 <= a) by (nonlinear_arith)
        requires
            a == base * q,
            0 <= q,
    ;
    assert(base * (n * q) == a * n) by (nonlinear_arith)
        requires
            a == base * q,
    ;
    assert(a * 1000 <= a * n) by (nonlinear_arith)
        requires
            0 <= a,
            1000 <= n,
    ;
    lemma_div_is_ordered(a * 1000, a * n, 1000 * p);
    lemma_div_denominator(a * 1000, 1000, p);
}

/// With a multiplier below one, one more step never gives more.
pub proof fn lemma_scaled_step_down(base: nat, multiplier: Milli, attempt: nat)
    requires
        !multiplier.at_least_one(),
    ensures
        scaled(base, multiplier, attempt + 1) <= scaled(base, multiplier, attempt),
{
    reveal(pow);
    let n = multiplier.thousandths as int;
    let q = pow(n, attempt);
    let p = pow(1000, attempt);
    lemma_pow_not_negative(n, attempt);
    lemma_pow_positive(1000, attempt);
    let a = base * q;
    assert(0 <= a) by (nonlinear_arith)
        requires
            a == base * q,
            0 <= q,
    ;
    assert(base * (n * q) == a * n) by (nonlinear_arith)
        requires
            a == base * q,
    ;
    assert(a * n <= a * 1000) by (nonlinear_arith)
        requires
            0 <= a,
            n < 1000,
    ;
    assert(0 <= a * n) by (nonlinear_arith)
        requires
            0 <= a,
            0 <= n,
    ;
    lemma_div_is_ordered(a * n, a * 1000, 1000 * p);
    lemma_div_denominator(a * 1000, 1000, p);
}

/// With a multiplier of at least one, a later step never gives less than an
/// earlier one.
pub proof fn lemma_scaled_grows(base: nat, multiplier: Milli, i: nat, j: nat)
    requires
        multiplier.at_least_one(),
        i <= j,
    ensures
        scaled(base, multiplier, i) <= scaled(base, multiplier, j),
    decreases j,
{
    if i < j {
        lemma_scaled_grows(base, multiplier, i, (j - 1) as nat);
        lemma_scaled_step_up(base, multiplier, (j - 1) as nat);
    }
}

/// With a multiplier below one, a later step never gives more than an
/// earlier one.
pub proof fn lemma_scaled_shrinks(base: nat, multiplier: Milli, i: nat, j: nat)
    requires
        !multiplier.at_least_one(),
        i <= j,
    ensures
        scaled(base, multiplier, j) <= scaled(base, multiplier, i),
    decreases j,
{
    if i < j {
        lemma_scaled_shrinks(base, multiplier, i, (j - 1) as nat);
        lemma_scaled_step_down(base, multiplier, (j - 1) as nat);
    }
}

/// With the multiplier one, every step gives the base.
pub proof fn lemma_scaled_by_one(base: nat, multiplier: Milli, attempt: nat)
    requires
        multiplier.thousandths == 1000,
    ensures
        scaled(base, multiplier, attempt) == base,
{
    let p = pow(1000, attempt);
    lemma_pow_positive(1000, attempt);
    lemma_fundamental_div_mod_converse(base * p, p, base as int, 0);
}

/// With a whole multiplier `w`, a step gives the base times the power of
/// `w`: nothing is rounded.
pub proof fn lemma_scaled_whole(base: nat, multiplier: Milli, w: nat, attempt: nat)
    requires
        multiplier.thousandths == 1000 * w,
    ensures
        scaled(base, multiplier, attempt) == base * pow(w as int, attempt),
{
    let p = pow(1000, attempt);
    let q = pow(w as int, attempt);
    lemma_pow_positive(1000, attempt);
    lemma_pow_not_negative(w as int, attempt);
    vstd::arithmetic::power::lemma_pow_distributes(1000, w as int, attempt);
    assert(base * (p * q) == (base * q) * p) by (nonlinear_arith);
    assert(0 <= base * q) by (nonlinear_arith)
        requires
            0 <= q,
    ;
    lemma_fundamental_div_mod_converse(base * (p * q), p, base * q, 0);
}

/// Multiplies a number by `n` and adds `add`.
fn times(digits: &Vec<u32>, n: u32, add: u32) -> (product: Vec<u32>)
    requires
        all_digits(digits@),
    ensures
        all_digits(product@),
        number(product@) == number(digits@) * n + add,
        product.len() > digits.len(),
{
    let mut product: Vec<u32> = Vec::new();
    let mut carry: u64 = add as u64;
    let mut i: usize = 0;
    proof {
        reveal(pow);
        assert(digits@.take(0) =~= Seq::<u32>::empty());
        assert(pow(1000, 0) == 1);
        assert(number(product@) == 0);
        assert(number(digits@.take(0)) == 0);
        assert(number(digits@.take(0)) * n == 0);
    }
    while i < digits.len()
        invariant
            i <= digits.len(),
            product.len() == i,
            all_digits(product@),
            all_digits(digits@),
            carry <= 0xffff_ffff,
            number(product@) + carry * pow(1000, i as nat) == number(digits@.take(i as int)) * n
                + add,
        decreases digits.len() - i,
    {
        let digit: u64 = digits[i] as u64;
        assert(digits@[i as int] < 1000);
        assert(digit * (n as u64) <= 999 * 0xffff_ffff) by (nonlinear_arith)
            requires
                digit <= 999,
                n <= 0xffff_ffff,
        ;
        let sum: u64 = digit * (n as u64) + carry;
        let low: u32 = (sum % 1000) as u32;
        let next: u64 = sum / 1000;
        proof {
            reveal(pow);
            let p = pow(1000, i as nat);
            lemma_number_push(product@, low);
            assert(digits@.take(i + 1) =~= digits@.take(i as int).push(digits@[i as int]));
            lemma_number_push(digits@.take(i as int), digits@[i as int]);
            let t = number(digits@.take(i as int)) as int;
            let v = number(product@) as int;
            assert(v + low * p + next * (1000 * p) == (t + digit * p) * n + add)
                by (nonlinear_arith)
                requires
                    v + carry * p == t * n + add,
                    low + 1000 * next == digit * n + carry,
            ;
        }
        product.push(low);
        carry = next;
        i = i + 1;
    }
    assert(digits@.take(i as int) =~= digits@);
    let low: u32 = (carry % 1000) as u32;
    proof {
        reveal(pow);
        let p = pow(1000, product.len() as nat);
        lemma_number_push(product@, low);
        let v = number(product@) as int;
        let c = carry as int;
        assert(v + low * p + (c / 1000) * (1000 * p) == v + c * p) by (nonlinear_arith)
            requires
                low + 1000 * (c / 1000) == c,
        ;
    }
    product.push(low);
    carry = carry / 1000;
    while carry > 0
        invariant
            all_digits(product@),
            product.len() > digits.len(),
            number(product@) + carry * pow(1000, product.len() as nat) == number(digits@) * n
                + add,
        decreases carry,
    {
        let low: u32 = (carry % 1000) as u32;
        proof {
            reveal(pow);
            let p = pow(1000, product.len() as nat);
            lemma_number_push(product@, low);
            let v = number(product@) as int;
            let c = carry as int;
            assert(v + low * p + (c / 1000) * (1000 * p) == v + c * p) by (nonlinear_arith)
                requires
                    low + 1000 * (c / 1000) == c,
            ;
        }
        product.push(low);
        carry = carry / 1000;
    }
    product
}

/// The digits from the position `from` upward, as a number that is capped
/// just above `cap`.
fn upper_capped(digits: &Vec<u32>, from: usize, cap: u32) -> (high: u64)
    requires
        all_digits(digits@),
        from <= digits.len(),
    ensures
        high == smaller(upper(digits@, from as nat), (cap + 1) as nat),
{
    let limit: u64 = cap as u64 + 1;
    let mut at: usize = digits.len();
    let mut high: u64 = 0;
    while at > from
        invariant
            from <= at <= digits.len(),
            all_digits(digits@),
            limit == cap + 1,
            high == smaller(upper(digits@, at as nat), limit as nat),
        decreases at,
    {
        at = at - 1;
        assert(digits@[at as int] < 1000);
        let value: u64 = digits[at] as u64 + 1000 * high;
        high = if value > limit {
            limit
        } else {
            value
        };
    }
    high
}

/// Computes `base` times the `attempt`-th power of the multiplier, rounded
/// down once and then capped at `cap`.
pub fn capped_power(base: u32, multiplier: Milli, attempt: u32, cap: u32) -> (r: u32)
    ensures
        r == smaller(scaled(base as nat, multiplier, attempt as nat), cap as nat),
{
    let n: u32 = multiplier.thousandths;
    if n == 1000 || base == 0 {
        proof {
            if n == 1000 {
                lemma_scaled_by_one(base as nat, multiplier, attempt as nat);
            } else {
                lemma_pow_positive(1000, attempt as nat);
                lemma_fundamental_div_mod_converse(
                    base * pow(n as int, attempt as nat),
                    pow(1000, attempt as nat),
                    0,
                    0,
                );
            }
        }
        return if base < cap {
            base
        } else {
            cap
        };
    }
    let empty: Vec<u32> = Vec::new();
    let mut digits: Vec<u32> = times(&empty, 0, base);
    let mut done: u32 = 0;
    proof {
        reveal(pow);
    }
    while done < attempt
        invariant
            done <= attempt,
            n == multiplier.thousandths,
            all_digits(digits@),
            digits.len() > done,
            number(digits@) == base * pow(n as int, done as nat),
        decreases attempt - done,
    {
        let high: u64 = upper_capped(&digits, done as usize, cap);
        proof {
            lemma_number_floor(digits@, done as nat);
        }
        if n > 1000 && high >= cap as u64 {
            proof {
                lemma_scaled_grows(base as nat, multiplier, done as nat, attempt as nat);
            }
            return cap;
        }
        if n < 1000 && high == 0 {
            proof {
                lemma_scaled_shrinks(base as nat, multiplier, done as nat, attempt as nat);
            }
            return 0;
        }
        digits = times(&digits, n, 0);
        proof {
            reveal(pow);
            let q = pow(n as int, done as nat);
            assert((base * q) * n == base * (n * q)) by (nonlinear_arith);
        }
        done = done + 1;
    }
    let high: u64 = upper_capped(&digits, attempt as usize, cap);
    proof {
        lemma_number_floor(digits@, attempt as nat);
    }
    if high > cap as u64 {
        cap
    } else {
        high as u32
    }
}

} // verus!
