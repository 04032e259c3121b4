//! Key scatterer: a deterministic mapping of sequential identifiers to
//! pseudo-random positions of the same key space, used to avoid sequential
//! write hot-spots. The scatter is a heuristic, approximately uniform
//! permutation (a linear congruential bijection whenever the multiplier and
//! the range size are coprime), not a cryptographic one.

use vstd::prelude::*;

verus! {

use crate::SCATTER_MULTIPLIER;

/// What `scatter_id` returns: the sequential id times the fixed multiplier,
/// reduced into `[0, total_rows)` (the mathematical, always-nonnegative
/// remainder).
pub open spec fn scatter_spec(sequential_id: int, total_rows: int) -> int
    recommends
        total_rows >= 1,
{
    (sequential_id * SCATTER_MULTIPLIER) % total_rows
}

/// A one-to-one mapping from `[0, total_rows)` to `[0, total_rows)` that
/// scatters the sequential id (one-to-one whenever the multiplier and
/// `total_rows` are coprime). All arithmetic is 64-bit wide; the caller keeps
/// `sequential_id` small enough that the product fits.
pub fn scatter_id(sequential_id: i64, total_rows: u64) -> (scattered: i64)
    requires
        1 <= total_rows <= i64::MAX,
        i64::MIN <= sequential_id * SCATTER_MULTIPLIER <= i64::MAX,
    ensures
        0 <= scattered < total_rows,
        scattered == scatter_spec(sequential_id as int, total_rows as int),
{
    let product = sequential_id * SCATTER_MULTIPLIER;
    let n = total_rows as i64;
    let scattered = product % n;

    proof {
        // Rust's `%` truncates toward zero; fold its result back to the
        // mathematical remainder that `scatter_spec` uses.
        if product < 0 {
            let d = n as int;
            let q = -(product as int);
            let m = q % d;
            let k = q / d;
            vstd::arithmetic::div_mod::lemma_fundamental_div_mod(q, d);
            vstd::arithmetic::div_mod::lemma_mod_bound(q, d);
            if m == 0 {
                assert(product as int == (-k) * d + 0) by (nonlinear_arith)
                    requires
                        q == d * k + m,
                        m == 0,
                        product as int == -q,
                ;
                vstd::arithmetic::div_mod::lemma_fundamental_div_mod_converse_mod(
                    product as int,
                    d,
                    -k,
                    0,
                );
            } else {
                assert(product as int == (-k - 1) * d + (d - m)) by (nonlinear_arith)
                    requires
                        q == d * k + m,
                        product as int == -q,
                ;
                vstd::arithmetic::div_mod::lemma_fundamental_div_mod_converse_mod(
                    product as int,
                    d,
                    -k - 1,
                    d - m,
                );
            }
        }
    }

    if scattered < 0 {
        scattered + n
    } else {
        scattered
    }
}

/// What `scatter_for_pk` returns: the id's region (its quotient by the range
/// size) is kept, and only the offset inside the region is scattered.
pub open spec fn scatter_for_pk_spec(sequential_id: int, total_rows: int) -> int
    recommends
        total_rows >= 1,
        sequential_id >= 0,
{
    (sequential_id / total_rows) * total_rows + scatter_spec(
        sequential_id % total_rows,
        total_rows,
    )
}

/// Splits the monotonic counter by group, then scatters inside the group, to
/// allow unbounded insertions: keys from different regions never collide, and
/// inside a region the keys avoid hot-spotting.
pub fn scatter_for_pk(sequential_id: i64, total_rows: u64) -> (scattered: i64)
    requires
        1 <= total_rows <= i64::MAX,
        0 <= sequential_id,
        total_rows * SCATTER_MULTIPLIER <= i64::MAX,
        sequential_id + total_rows <= i64::MAX,
    ensures
        scattered == scatter_for_pk_spec(sequential_id as int, total_rows as int),
        0 <= scattered,
        scattered as int / (total_rows as int) == sequential_id as int / (total_rows as int),
{
    let base = total_rows as i64;
    let region_id = sequential_id / base;
    let rem = sequential_id % base;

    proof {
        let s = sequential_id as int;
        let d = base as int;
        vstd::arithmetic::div_mod::lemma_fundamental_div_mod(s, d);
        vstd::arithmetic::div_mod::lemma_mod_bound(s, d);
        vstd::arithmetic::div_mod::lemma_div_pos_is_pos(s, d);
        assert(rem * SCATTER_MULTIPLIER <= i64::MAX) by (nonlinear_arith)
            requires
                0 <= rem as int <= d - 1,
                d * SCATTER_MULTIPLIER <= i64::MAX,
                d >= 1,
        ;
    }

    let offset = scatter_id(rem, total_rows);

    proof {
        let s = sequential_id as int;
        let d = base as int;
        // region_id * base == s - rem, so the recombined key stays below
        // s + base and fits in 64 bits.
        assert(region_id as int * d == s - rem as int) by (nonlinear_arith)
            requires
                s == d * (region_id as int) + rem as int,
        ;
        vstd::arithmetic::div_mod::lemma_fundamental_div_mod_converse_div(
            region_id as int * d + offset as int,
            d,
            region_id as int,
            offset as int,
        );
    }

    region_id * base + offset
}

/// The greatest common divisor, by Euclid's recursion.
pub open spec fn gcd(a: nat, b: nat) -> nat
    decreases b,
{
    if b == 0 {
        a
    } else {
        gcd(b, a % b)
    }
}

/// Euclid's recursion reaches the gcd through integer combinations of its
/// arguments (Bezout's identity).
proof fn lemma_bezout(a: nat, b: nat) -> (c: (int, int))
    ensures
        c.0 * a + c.1 * b == gcd(a, b),
    decreases b,
{
    if b == 0 {
        (1, 0)
    } else {
        let (x, y) = lemma_bezout(b, a % b);
        let q = a as int / b as int;
        vstd::arithmetic::div_mod::lemma_fundamental_div_mod(a as int, b as int);
        assert(y * a + (x - y * q) * b == x * b + y * (a % b)) by (nonlinear_arith)
            requires
                a as int % b as int == a - b * q,
        ;
        (y, x - y * q)
    }
}

/// The scatter is one-to-one on `[0, total_rows)` whenever the range size is
/// coprime with the multiplier: no two ids in range collide, so applying
/// `scatter_id` to every element of `[0, total_rows)` yields a permutation
/// with no duplicates.
pub proof fn lemma_scatter_injective(x: int, y: int, total_rows: int)
    requires
        1 <= total_rows,
        gcd(SCATTER_MULTIPLIER as nat, total_rows as nat) == 1,
        0 <= x < total_rows,
        0 <= y < total_rows,
        scatter_spec(x, total_rows) == scatter_spec(y, total_rows),
    ensures
        x == y,
{
    let m = SCATTER_MULTIPLIER as int;
    let n = total_rows;
    let d = x - y;
    vstd::arithmetic::div_mod::lemma_mod_equivalence(x * m, y * m, n);
    assert(x * m - y * m == d * m) by (nonlinear_arith)
        requires
            d == x - y,
    ;
    vstd::arithmetic::div_mod::lemma_fundamental_div_mod(d * m, n);
    let k = (d * m) / n;
    let (a, b) = lemma_bezout(SCATTER_MULTIPLIER as nat, total_rows as nat);
    let t = a * k + b * d;
    assert(d == n * t) by (nonlinear_arith)
        requires
            a * m + b * n == 1,
            d * m == n * k + 0,
            t == a * k + b * d,
    ;
    assert(d == 0) by (nonlinear_arith)
        requires
            d == n * t,
            -n < d < n,
            n >= 1,
    ;
}

/// Scattered primary keys from different regions never collide: the composite
/// scatter keeps each id's region, so ids whose quotients by the range size
/// differ map to distinct keys.
pub proof fn lemma_scatter_for_pk_regions(i: int, j: int, total_rows: int)
    requires
        total_rows >= 1,
        i >= 0,
        j >= 0,
        i / total_rows != j / total_rows,
    ensures
        scatter_for_pk_spec(i, total_rows) != scatter_for_pk_spec(j, total_rows),
{
    let n = total_rows;
    vstd::arithmetic::div_mod::lemma_mod_bound(i % n * SCATTER_MULTIPLIER, n);
    vstd::arithmetic::div_mod::lemma_mod_bound(j % n * SCATTER_MULTIPLIER, n);
    vstd::arithmetic::div_mod::lemma_fundamental_div_mod_converse_div(
        scatter_for_pk_spec(i, n),
        n,
        i / n,
        scatter_spec(i % n, n),
    );
    vstd::arithmetic::div_mod::lemma_fundamental_div_mod_converse_div(
        scatter_for_pk_spec(j, n),
        n,
        j / n,
        scatter_spec(j % n, n),
    );
}

} // verus!

