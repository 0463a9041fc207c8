//! Fibonacci numbers, one at a time and as a line of text.

use crate::decimal::{append_decimal, decimal};
use vstd::prelude::*;

verus! {

/// The Fibonacci number of index `n`: 0 and 1 for the first two indices, and
/// from there on the sum of the two numbers before.
pub open spec fn fib(n: nat) -> nat
    decreases n,
{
    if n == 0 {
        0
    } else if n == 1 {
        1
    } else {
        fib((n - 1) as nat) + fib((n - 2) as nat)
    }
}

/// The largest index whose Fibonacci number fits in a `u64`.
pub const MAX_INDEX: u64 = 93;

/// Fibonacci numbers never shrink as the index grows.
pub proof fn lemma_fib_grows(low: nat, high: nat)
    requires
        low <= high,
    ensures
        fib(low) <= fib(high),
    decreases high,
{
    if low < high {
        lemma_fib_grows(low, (high - 1) as nat);
    }
}

/// The addition law: the number at index `m + n + 1` written with the numbers
/// at `m`, `m + 1`, `n` and `n + 1`.
pub proof fn lemma_fib_sum(m: nat, n: nat)
    ensures
        fib(m + n + 1) == fib(m + 1) * fib(n + 1) + fib(m) * fib(n),
    decreases n,
{
    let a = fib(m + 1);
    let b = fib(m);
    if n == 0 {
        assert(a == a * 1 + b * 0) by (nonlinear_arith);
    } else if n == 1 {
        assert(fib(2) == 1) by {
            reveal_with_fuel(fib, 3);
        }
        assert(a + b == a * 1 + b * 1) by (nonlinear_arith);
    } else {
        let before = (n - 1) as nat;
        let earlier = (n - 2) as nat;
        lemma_fib_sum(m, before);
        lemma_fib_sum(m, earlier);
        let x = fib(before);
        let y = fib(earlier);
        let whole = fib(m + n + 1);
        assert(whole == a * fib(n + 1) + b * fib(n)) by (nonlinear_arith)
            requires
                whole == (a * fib(n) + b * x) + (a * x + b * y),
                fib(n + 1) == fib(n) + x,
                fib(n) == x + y,
        ;
    }
}

/// From the numbers `a` at `k` and `b` at `k + 1` to those at `2k + 1` and
/// `2k + 2`.
pub proof fn lemma_fib_double(k: nat, a: nat, b: nat)
    requires
        fib(k) == a,
        fib(k + 1) == b,
    ensures
        fib(2 * k + 1) == a * a + b * b,
        fib(2 * k + 2) == b * (2 * a + b),
{
    lemma_fib_sum(k, k);
    lemma_fib_sum(k + 1, k);
    assert(b * b + a * a == a * a + b * b) by (nonlinear_arith);
    assert((b + a) * b + b * a == b * (2 * a + b)) by (nonlinear_arith);
}

/// The Fibonacci number of index `MAX_INDEX` fits in a `u64`, and the next one
/// does not.
pub proof fn lemma_fib_limit()
    ensures
        fib(MAX_INDEX as nat) == 12200160415121876738,
        fib(MAX_INDEX as nat) <= u64::MAX < fib((MAX_INDEX + 1) as nat),
{
    assert(fib(5) == 5 && fib(6) == 8) by {
        reveal_with_fuel(fib, 7);
    }
    lemma_fib_double(5, 5, 8);
    lemma_fib_double(11, 89, 144);
    lemma_fib_double(23, 28657, 46368);
    lemma_fib_double(46, 1836311903, 2971215073);
}

/// Computes the Fibonacci number of index `n` by the recurrence itself: each
/// call works out the two numbers before it afresh.
pub fn fibonacci(n: u64) -> (value: u64)
    requires
        n <= MAX_INDEX,
    ensures
        value == fib(n as nat),
    decreases n,
{
    if n == 0 {
        0
    } else if n == 1 {
        1
    } else {
        proof {
            lemma_fib_limit();
            lemma_fib_grows(n as nat, MAX_INDEX as nat);
        }
        fibonacci(n - 1) + fibonacci(n - 2)
    }
}

/// The first `count` Fibonacci numbers from index 1 on, in decimal, each
/// followed by one space.
pub open spec fn line_text(count: nat) -> Seq<char>
    decreases count,
{
    if count == 0 {
        Seq::empty()
    } else {
        line_text((count - 1) as nat) + decimal(fib(count)) + seq![' ']
    }
}

/// Writes the first `count` Fibonacci numbers, from index 1 on, as one line of
/// text without its line break.
pub fn fibonacci_line(count: u64) -> (line: String)
    requires
        count <= MAX_INDEX,
    ensures
        line@ == line_text(count as nat),
{
    let mut line = String::new();
    let mut index: u64 = 1;
    while index <= count
        invariant
            count <= MAX_INDEX,
            1 <= index <= count + 1,
            line@ == line_text((index - 1) as nat),
        decreases count + 1 - index,
    {
        append_decimal(&mut line, fibonacci(index));
        line.append(" ");
        proof {
            reveal_strlit(" ");
        }
        index = index + 1;
    }
    line
}

} // verus!
