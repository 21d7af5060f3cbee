use vstd::prelude::*;

verus! {

/// Read `n` records one after another starting at position `c`, `step` reading one
/// record at a position and giving the position after it; stop at the first error.
pub open spec fn repeat<T, E>(step: spec_fn(int) -> Result<(T, int), E>, c: int, n: nat) -> Result<(Seq<T>, int), E>
    decreases n,
{
    if n == 0 {
        Ok((Seq::empty(), c))
    } else {
        match repeat(step, c, (n - 1) as nat) {
            Err(e) => Err(e),
            Ok((s, c1)) => match step(c1) {
                Err(e) => Err(e),
                Ok((t, c2)) => Ok((s.push(t), c2)),
            },
        }
    }
}

/// Once reading some records has failed, reading more fails the same way.
pub proof fn lemma_repeat_err_persists<T, E>(step: spec_fn(int) -> Result<(T, int), E>, c: int, i: nat, n: nat)
    requires
        i <= n,
        repeat(step, c, i) is Err,
    ensures
        repeat(step, c, n) == repeat(step, c, i),
    decreases n - i,
{
    if i < n {
        lemma_repeat_err_persists(step, c, i, (n - 1) as nat);
    }
}

/// A failed step after `i` successful records is the result of reading any `n > i`.
pub proof fn lemma_repeat_fails_at<T, E>(step: spec_fn(int) -> Result<(T, int), E>, c: int, i: nat, n: nat, c1: int, e: E)
    requires
        i < n,
        repeat(step, c, i) matches Ok((_, p)) && p == c1,
        step(c1) == Err::<(T, int), E>(e),
    ensures
        repeat(step, c, n) == Err::<(Seq<T>, int), E>(e),
{
    assert(repeat(step, c, i + 1) == Err::<(Seq<T>, int), E>(e));
    lemma_repeat_err_persists(step, c, i + 1, n);
}

/// Reading `n` records that succeeds gives exactly `n` records.
pub proof fn lemma_repeat_len<T, E>(step: spec_fn(int) -> Result<(T, int), E>, c: int, n: nat)
    ensures
        repeat(step, c, n) matches Ok((s, _)) ==> s.len() == n,
    decreases n,
{
    if n > 0 {
        lemma_repeat_len(step, c, (n - 1) as nat);
    }
}

} // verus!
