//! Exact integer division helpers.
//!
//! Spec-level `/` and `%` are Euclidean, while the layout computations need
//! two other roundings: division truncated toward zero (how the enumeration
//! start position has always been derived from a possibly negative time) and
//! floor division (for mapping times onto screen coordinates, where rounding
//! must be monotone). Each helper pins its result to the spec-level operators
//! exactly.

use vstd::arithmetic::div_mod::{
    lemma_fundamental_div_mod, lemma_fundamental_div_mod_converse_div,
    lemma_fundamental_div_mod_converse_mod,
};
use vstd::prelude::*;

verus! {

/// Division truncated toward zero, the semantics of Rust's `/` operator,
/// defined for a positive divisor.
pub open spec fn spec_trunc_div(a: int, b: int) -> int {
    if a >= 0 {
        a / b
    } else {
        -((-a) / b)
    }
}

/// Quotient of `a` and `b`, truncated toward zero.
pub fn trunc_div_i64(a: i64, b: i64) -> (r: i64)
    requires
        b > 0,
    ensures
        r == spec_trunc_div(a as int, b as int),
        a >= 0 ==> 0 <= r * b <= a && r >= 0,
        a < 0 ==> a <= r * b <= 0 && r <= 0,
{
    let wa: i128 = a as i128;
    let wb: i128 = b as i128;
    if wa >= 0 {
        let q: i128 = wa / wb;
        proof {
            vstd::arithmetic::div_mod::lemma_div_pos_is_pos(wa as int, wb as int);
            lemma_fundamental_div_mod(wa as int, wb as int);
            assert((wa as int / wb as int) * wb == wa - wa as int % wb as int) by (nonlinear_arith)
                requires
                    wb > 0,
                    wa == wb * (wa as int / wb as int) + wa as int % wb as int,
            ;
        }
        q as i64
    } else {
        let m: i128 = -wa;
        let q: i128 = m / wb;
        proof {
            vstd::arithmetic::div_mod::lemma_div_pos_is_pos(m as int, wb as int);
            lemma_fundamental_div_mod(m as int, wb as int);
            assert((-(m as int / wb as int)) * wb == wa + m as int % wb as int) by (nonlinear_arith)
                requires
                    wb > 0,
                    m == -wa,
                    m == wb * (m as int / wb as int) + m as int % wb as int,
            ;
        }
        (-q) as i64
    }
}

/// Floor division: the unique `q` with `q * b <= a < (q + 1) * b`.
pub fn floor_div_i128(a: i128, b: i128) -> (r: i128)
    requires
        b > 0,
        i128::MIN + b <= a,
    ensures
        r == a as int / b as int,
{
    if a >= 0 {
        a / b
    } else {
        let m: i128 = -a;
        let q: i128 = (m - 1 + b) / b;
        proof {
            let qm = m as int / b as int;
            let rm = m as int % b as int;
            lemma_fundamental_div_mod(m as int, b as int);
            if rm == 0 {
                assert(m + b - 1 == qm * b + (b - 1) && a == (-qm) * b + 0) by (nonlinear_arith)
                    requires
                        m == b * qm,
                        a == -m,
                ;
                lemma_fundamental_div_mod_converse_div(m as int + b - 1, b as int, qm, b - 1);
                lemma_fundamental_div_mod_converse_div(a as int, b as int, -qm, 0);
            } else {
                assert(m + b - 1 == (qm + 1) * b + (rm - 1) && a == (-qm - 1) * b + (b - rm))
                    by (nonlinear_arith)
                    requires
                        m == b * qm + rm,
                        a == -m,
                ;
                lemma_fundamental_div_mod_converse_div(m as int + b - 1, b as int, qm + 1, rm - 1);
                lemma_fundamental_div_mod_converse_div(a as int, b as int, -qm - 1, b - rm);
            }
        }
        -q
    }
}

/// Whether `a` is an exact multiple of the positive spacing `b`.
pub fn is_multiple_of(a: i64, b: i64) -> (r: bool)
    requires
        b > 0,
    ensures
        r == (a as int % b as int == 0),
{
    let wa: i128 = a as i128;
    let wb: i128 = b as i128;
    let m: i128 = if wa < 0 {
        -wa
    } else {
        wa
    };
    let rem: i128 = m % wb;
    proof {
        let qm = m as int / wb as int;
        let rm = m as int % wb as int;
        lemma_fundamental_div_mod(m as int, wb as int);
        if wa < 0 {
            if rm == 0 {
                assert(wa == (-qm) * wb + 0) by (nonlinear_arith)
                    requires
                        m == wb * qm,
                        wa == -m,
                ;
                lemma_fundamental_div_mod_converse_mod(wa as int, wb as int, -qm, 0);
            } else {
                assert(wa == (-qm - 1) * wb + (wb - rm)) by (nonlinear_arith)
                    requires
                        m == wb * qm + rm,
                        wa == -m,
                ;
                lemma_fundamental_div_mod_converse_mod(wa as int, wb as int, -qm - 1, wb - rm);
            }
        }
    }
    rem == 0
}

} // verus!
