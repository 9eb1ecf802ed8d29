//! Applying a fallible step to every element of a sequence, stopping at the first failure.

use vstd::prelude::*;

verus! {

/// The results of `f` on every element of `s` when all succeed, or the failure of the first
/// element on which `f` fails.
pub open spec fn all_ok<A, B, E>(s: Seq<A>, f: spec_fn(A) -> Result<B, E>) -> Result<Seq<B>, E>
    decreases s.len(),
{
    if s.len() == 0 {
        Ok(Seq::empty())
    } else {
        match all_ok(s.drop_last(), f) {
            Err(e) => Err(e),
            Ok(bs) => match f(s.last()) {
                Ok(b) => Ok(bs.push(b)),
                Err(e) => Err(e),
            },
        }
    }
}

/// Once a prefix of `s` fails, `s` fails the same way.
pub proof fn lemma_all_ok_prefix_err<A, B, E>(s: Seq<A>, f: spec_fn(A) -> Result<B, E>, i: int)
    requires
        0 <= i <= s.len(),
        all_ok(s.take(i), f) is Err,
    ensures
        all_ok(s, f) == all_ok(s.take(i), f),
    decreases s.len() - i,
{
    if i == s.len() {
        assert(s.take(i) =~= s);
    } else {
        assert(s.drop_last().take(i) =~= s.take(i));
        lemma_all_ok_prefix_err(s.drop_last(), f, i);
    }
}

/// One more element extends the results of a prefix.
pub proof fn lemma_all_ok_step<A, B, E>(s: Seq<A>, f: spec_fn(A) -> Result<B, E>, i: int)
    requires
        0 <= i < s.len(),
    ensures
        all_ok(s.take(i + 1), f) == (match all_ok(s.take(i), f) {
            Err(e) => Err(e),
            Ok(bs) => match f(s[i]) {
                Ok(b) => Ok(bs.push(b)),
                Err(e) => Err(e),
            },
        }),
{
    assert(s.take(i + 1).drop_last() =~= s.take(i));
}

/// The results of all of `s` are those of its longest prefix.
pub proof fn lemma_take_all<A>(s: Seq<A>)
    ensures
        s.take(s.len() as int) == s,
{
    assert(s.take(s.len() as int) =~= s);
}

/// A failure of the whole is the failure of `f` on one of the elements.
pub proof fn lemma_all_ok_err<A, B, E>(s: Seq<A>, f: spec_fn(A) -> Result<B, E>, e: E)
    requires
        all_ok(s, f) == Err::<Seq<B>, E>(e),
    ensures
        exists|i: int| 0 <= i < s.len() && #[trigger] f(s[i]) == Err::<B, E>(e),
    decreases s.len(),
{
    let init = s.drop_last();
    match all_ok(init, f) {
        Err(x) => {
            lemma_all_ok_err(init, f, e);
            let i = choose|i: int| 0 <= i < init.len() && #[trigger] f(init[i]) == Err::<B, E>(e);
            assert(s[i] == init[i]);
        },
        Ok(_) => {
            assert(f(s[s.len() - 1]) == Err::<B, E>(e));
        },
    }
}

} // verus!
