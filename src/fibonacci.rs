use vstd::prelude::*;

verus! {

/// The Fibonacci sequence: `fib(0) == 0`, `fib(1) == 1`, and each later term
/// is the sum of the two before it.
pub open spec fn fib(n: nat) -> nat
    decreases n,
{
    if n == 0 {
        0
    } else if n == 1 {
        1
    } else {
        fib((n - 1) as nat) + fib((n - 2) as nat)
    }
}

/// The sequence never decreases.
pub proof fn lemma_fib_monotone(i: nat, j: nat)
    requires
        i <= j,
    ensures
        fib(i) <= fib(j),
    decreases j - i,
{
    if i < j {
        lemma_fib_monotone(i, (j - 1) as nat);
        if j >= 2 {
            assert(fib(j) == fib((j - 1) as nat) + fib((j - 2) as nat));
        }
    }
}

/// Computes the `n`-th Fibonacci number by the defining recursion.
pub fn fib_recursive(n: usize) -> (r: usize)
    requires
        fib(n as nat) <= usize::MAX,
    ensures
        r == fib(n as nat),
    decreases n,
{
    if n == 0 {
        0
    } else if n == 1 {
        1
    } else {
        proof {
            lemma_fib_monotone((n - 1) as nat, n as nat);
            lemma_fib_monotone((n - 2) as nat, n as nat);
        }
        fib_recursive(n - 1) + fib_recursive(n - 2)
    }
}

/// Computes the `n`-th Fibonacci number bottom-up, keeping only the last two
/// terms.
pub fn fib_dp(n: usize) -> (r: usize)
    requires
        fib(n as nat) <= usize::MAX,
    ensures
        r == fib(n as nat),
{
    if n == 0 || n == 1 {
        n
    } else {
        let mut f1: usize = 0;
        let mut f2: usize = 1;
        let mut total: usize = 1;
        let mut i: usize = 1;
        while i < n
            invariant
                1 <= i <= n,
                f1 == fib((i - 1) as nat),
                f2 == fib(i as nat),
                total == f2,
                fib(n as nat) <= usize::MAX,
            decreases n - i,
        {
            proof {
                lemma_fib_monotone((i + 1) as nat, n as nat);
            }
            total = f1 + f2;
            f1 = f2;
            f2 = total;
            i = i + 1;
        }
        total
    }
}

/// Computes the `n`-th Fibonacci number, or `None` when it does not fit in a
/// `usize`.
pub fn checked_fib(n: usize) -> (r: Option<usize>)
    ensures
        r == (if fib(n as nat) <= usize::MAX {
            Some(fib(n as nat) as usize)
        } else {
            None::<usize>
        }),
{
    if n == 0 {
        return Some(0);
    }
    let mut f1: usize = 0;
    let mut f2: usize = 1;
    let mut i: usize = 1;
    while i < n
        invariant
            1 <= i <= n,
            f1 == fib((i - 1) as nat),
            f2 == fib(i as nat),
        decreases n - i,
    {
        match f1.checked_add(f2) {
            Some(next) => {
                f1 = f2;
                f2 = next;
            },
            None => {
                proof {
                    lemma_fib_monotone((i + 1) as nat, n as nat);
                }
                return None;
            },
        }
        i = i + 1;
    }
    Some(f2)
}

} // verus!
