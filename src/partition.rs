//! Splitting a batch of requests across a fixed number of workers.
use vstd::arithmetic::div_mod::lemma_fundamental_div_mod;
use vstd::prelude::*;
use vstd::set_lib::{lemma_int_range, set_int_range};

verus! {

/// The number of requests that worker `index` is given when `total` requests
/// are split across `workers` workers: the quotient, plus one for each of the
/// first `total % workers` workers.
pub open spec fn share_of(total: nat, workers: nat, index: nat) -> nat
    recommends
        workers > 0,
{
    if index < total % workers {
        total / workers + 1
    } else {
        total / workers
    }
}

/// The shares of all workers, in worker order.
pub open spec fn shares(total: nat, workers: nat) -> Seq<nat> {
    Seq::new(workers, |i: int| share_of(total, workers, i as nat))
}

/// The sum of a sequence of counts.
pub open spec fn sum_of(s: Seq<nat>) -> nat
    decreases s.len(),
{
    if s.len() == 0 {
        0
    } else {
        sum_of(s.drop_last()) + s.last()
    }
}

/// The shares of the first `n` workers add up to `n` times the quotient plus
/// the number of those workers that got an extra request.
proof fn lemma_prefix_sum(total: nat, workers: nat, n: nat)
    requires
        workers > 0,
        n <= workers,
    ensures
        sum_of(shares(total, workers).take(n as int)) == n * (total / workers) + if n < total
            % workers {
            n
        } else {
            total % workers
        },
    decreases n,
{
    let s = shares(total, workers);
    if n > 0 {
        lemma_prefix_sum(total, workers, (n - 1) as nat);
        assert(s.take(n as int).drop_last() =~= s.take(n - 1));
        let q = total / workers;
        assert(n * q == (n - 1) * q + q) by (nonlinear_arith)
            requires
                n > 0,
        ;
    } else {
        assert(s.take(0) =~= Seq::<nat>::empty());
    }
}

/// Splitting loses no request and favours no worker by more than one: the
/// shares add up to the total, and any two shares differ by at most one.
pub proof fn lemma_shares_sum_and_balance(total: nat, workers: nat)
    requires
        total > 0,
        workers > 0,
    ensures
        sum_of(shares(total, workers)) == total,
        forall|i: int, j: int|
            0 <= i < workers && 0 <= j < workers ==> #[trigger] shares(total, workers)[i]
                <= #[trigger] shares(total, workers)[j] + 1,
{
    lemma_prefix_sum(total, workers, workers);
    assert(shares(total, workers).take(workers as int) =~= shares(total, workers));
    lemma_fundamental_div_mod(total as int, workers as int);
}

/// Exactly `total % workers` workers get one request more than the quotient,
/// and they are the lowest-indexed ones; the others get the quotient.
pub proof fn lemma_extra_requests_go_first(total: nat, workers: nat)
    requires
        total > 0,
        workers > 0,
    ensures
        forall|i: int|
            0 <= i < total % workers ==> #[trigger] shares(total, workers)[i] == total / workers
                + 1,
        forall|i: int|
            total % workers <= i < workers ==> #[trigger] shares(total, workers)[i] == total
                / workers,
        Set::new(|i: int| 0 <= i < workers && shares(total, workers)[i] == total / workers + 1)
            == set_int_range(0, (total % workers) as int),
        set_int_range(0, (total % workers) as int).len() == total % workers,
        Set::new(|i: int| 0 <= i < workers && shares(total, workers)[i] == total / workers)
            == set_int_range((total % workers) as int, workers as int),
        set_int_range((total % workers) as int, workers as int).len() == workers - total
            % workers,
{
    let s = shares(total, workers);
    let q = total / workers;
    let r = total % workers;
    assert(Set::new(|i: int| 0 <= i < workers && s[i] == q + 1) =~= set_int_range(0, r as int));
    assert(Set::new(|i: int| 0 <= i < workers && s[i] == q) =~= set_int_range(
        r as int,
        workers as int,
    ));
    lemma_int_range(0, r as int);
    lemma_int_range(r as int, workers as int);
}

/// With at least one request, the workers that get any are exactly the first
/// `min(total, workers)`.
pub proof fn lemma_positive_shares(total: nat, workers: nat)
    requires
        total > 0,
        workers > 0,
    ensures
        forall|i: nat|
            i < workers ==> (#[trigger] share_of(total, workers, i) > 0 <==> i < total && i
                < workers),
{
    lemma_fundamental_div_mod(total as int, workers as int);
    if total < workers {
        assert(total / workers == 0) by {
            vstd::arithmetic::div_mod::lemma_basic_div(total as int, workers as int);
        }
        assert(total % workers == total) by {
            vstd::arithmetic::div_mod::lemma_small_mod(total, workers);
        }
    } else {
        assert(total / workers >= 1) by {
            vstd::arithmetic::div_mod::lemma_div_non_zero(total as int, workers as int);
        }
    }
}

/// The number of requests that worker `index` runs when `total` requests are
/// split across `workers` workers.
pub fn worker_share(total: usize, workers: usize, index: usize) -> (r: usize)
    requires
        workers > 0,
    ensures
        r == share_of(total as nat, workers as nat, index as nat),
{
    let quot = total / workers;
    let rem = total % workers;
    if index < rem {
        assert(quot < total) by {
            lemma_fundamental_div_mod(total as int, workers as int);
            assert(workers * quot >= quot) by (nonlinear_arith)
                requires
                    workers > 0,
                    quot >= 0,
            ;
        }
        quot + 1
    } else {
        quot
    }
}

/// The shares of all workers, in worker order.
pub fn compute_shares(total: usize, workers: usize) -> (r: Vec<usize>)
    requires
        workers > 0,
    ensures
        r@.len() == workers,
        forall|i: int| 0 <= i < workers ==> r@[i] == shares(total as nat, workers as nat)[i],
{
    let mut out: Vec<usize> = Vec::new();
    let mut index: usize = 0;
    while index < workers
        invariant
            workers > 0,
            index <= workers,
            out@.len() == index,
            forall|i: int| 0 <= i < index ==> out@[i] == shares(total as nat, workers as nat)[i],
        decreases workers - index,
    {
        out.push(worker_share(total, workers, index));
        index = index + 1;
    }
    out
}

} // verus!
