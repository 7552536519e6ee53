use vstd::prelude::*;
use vstd::string::StrSliceExecFns;

verus! {

/// The weight of one parenthesis: an opener counts one up, a closer one
/// down.
pub open spec fn paren_bal(c: char) -> int {
    if c == '(' {
        1
    } else {
        -1
    }
}

/// The running balance of a parenthesis string.
pub open spec fn paren_sum(s: Seq<char>) -> int
    decreases s.len(),
{
    if s.len() == 0 {
        0
    } else {
        paren_sum(s.drop_last()) + paren_bal(s.last())
    }
}

/// A parenthesis string is valid iff it balances to zero and no prefix
/// closes more than it has opened.
pub open spec fn spec_valid_parens(s: Seq<char>) -> bool {
    &&& paren_sum(s) == 0
    &&& forall|k: int| 0 <= k <= s.len() ==> paren_sum(#[trigger] s.subrange(0, k)) >= 0
}

/// The span `[i, j)` of `s` is a valid parenthesis substring.
pub open spec fn spec_valid_span(s: Seq<char>, i: int, j: int) -> bool {
    &&& 0 <= i <= j <= s.len()
    &&& spec_valid_parens(s.subrange(i, j))
}

pub proof fn lemma_paren_sum_bounds(s: Seq<char>)
    ensures
        -s.len() <= paren_sum(s) <= s.len(),
    decreases s.len(),
{
    if s.len() > 0 {
        lemma_paren_sum_bounds(s.drop_last());
    }
}

pub struct Solution;

impl Solution {
    /// The length of the longest valid parenthesis substring: some valid
    /// span has exactly this length, and none is longer.
    pub fn longest_valid_parentheses(s: String) -> (r: i32)
        requires
            forall|k: int| 0 <= k < s@.len() ==> s@[k] == '(' || s@[k] == ')',
            s@.len() <= 0x7FFF_FFFF,
        ensures
            exists|i: int, j: int| spec_valid_span(s@, i, j) && j - i == r,
            forall|i: int, j: int| spec_valid_span(s@, i, j) ==> j - i <= r,
    {
        let text = s.as_str();
        let n = text.unicode_len();
        let mut chars: Vec<char> = Vec::new();
        let mut p: usize = 0;
        while p < n
            invariant
                n == s@.len(),
                text@ == s@,
                p <= n,
                chars@ == s@.subrange(0, p as int),
            decreases n - p,
        {
            chars.push(text.get_char(p));
            p = p + 1;
            proof {
                assert(chars@ =~= s@.subrange(0, p as int));
            }
        }
        proof {
            assert(chars@ =~= s@);
        }
        let mut max: usize = 0;
        let ghost mut wi: int = 0;
        let ghost mut wj: int = 0;
        proof {
            assert(s@.subrange(0, 0) =~= Seq::<char>::empty());
            assert forall|k: int|
                0 <= k <= s@.subrange(0, 0).len() implies paren_sum(
                #[trigger] s@.subrange(0, 0).subrange(0, k),
            ) >= 0 by {
                assert(s@.subrange(0, 0).subrange(0, k) =~= Seq::<char>::empty());
            }
            assert(spec_valid_span(s@, 0, 0));
        }
        let mut i: usize = 0;
        while i < n
            invariant
                n == s@.len(),
                n <= 0x7FFF_FFFF,
                chars@ == s@,
                i <= n,
                max <= n,
                spec_valid_span(s@, wi, wj) && wj - wi == max,
                forall|i2: int, j2: int|
                    spec_valid_span(s@, i2, j2) && i2 < i ==> j2 - i2 <= max,
            decreases n - i,
        {
            let mut bal: i64 = 0;
            let mut ok: bool = true;
            let mut j: usize = i;
            proof {
                assert(s@.subrange(i as int, i as int) =~= Seq::<char>::empty());
            }
            while j < n
                invariant
                    n == s@.len(),
                    n <= 0x7FFF_FFFF,
                    chars@ == s@,
                    i < n,
                    i <= j <= n,
                    max <= n,
                    bal == paren_sum(s@.subrange(i as int, j as int)),
                    ok <==> (forall|k: int|
                        i <= k <= j ==> paren_sum(#[trigger] s@.subrange(i as int, k)) >= 0),
                    spec_valid_span(s@, wi, wj) && wj - wi == max,
                    forall|i2: int, j2: int|
                        spec_valid_span(s@, i2, j2) && i2 < i ==> j2 - i2 <= max,
                    forall|j2: int| spec_valid_span(s@, i as int, j2) && j2 <= j ==> j2 - i <= max,
                decreases n - j,
            {
                let c = chars[j];
                let ghost prev = s@.subrange(i as int, j as int);
                let ghost curr = s@.subrange(i as int, j + 1);
                proof {
                    assert(curr.drop_last() =~= prev);
                    assert(curr.last() == s@[j as int]);
                    lemma_paren_sum_bounds(prev);
                    assert(prev.len() <= n);
                    assert(-0x7FFF_FFFFi64 <= bal <= 0x7FFF_FFFFi64);
                }
                if c == '(' {
                    bal = bal + 1;
                } else {
                    bal = bal - 1;
                }
                if bal < 0 {
                    ok = false;
                }
                proof {
                    assert(bal == paren_sum(curr));
                    if ok {
                        assert forall|k: int|
                            i <= k <= j + 1 implies paren_sum(
                            #[trigger] s@.subrange(i as int, k),
                        ) >= 0 by {
                            if k == j + 1 {
                                assert(s@.subrange(i as int, k) == curr);
                            }
                        }
                    } else {
                        if forall|k: int|
                            i <= k <= j + 1 ==> paren_sum(#[trigger] s@.subrange(i as int, k))
                                >= 0 {
                            assert(paren_sum(curr) >= 0);
                            assert(false);
                        }
                    }
                }
                if ok && bal == 0 {
                    let span = j + 1 - i;
                    proof {
                        let t = curr;
                        assert forall|k: int|
                            0 <= k <= t.len() implies paren_sum(#[trigger] t.subrange(0, k))
                                >= 0 by {
                            assert(t.subrange(0, k) =~= s@.subrange(i as int, i + k));
                        }
                        assert(spec_valid_parens(t));
                        assert(spec_valid_span(s@, i as int, j + 1));
                    }
                    if span > max {
                        max = span;
                        proof {
                            wi = i as int;
                            wj = j + 1;
                        }
                    }
                } else {
                    proof {
                        if spec_valid_span(s@, i as int, j + 1) {
                            let t = s@.subrange(i as int, j + 1);
                            assert(paren_sum(t) == 0);
                            assert forall|k: int|
                                i <= k <= j + 1 implies paren_sum(
                                #[trigger] s@.subrange(i as int, k),
                            ) >= 0 by {
                                assert(s@.subrange(i as int, k) =~= t.subrange(0, k - i));
                                assert(paren_sum(t.subrange(0, k - i)) >= 0);
                            }
                            assert(ok && bal == 0);
                            assert(false);
                        }
                    }
                }
                proof {
                    assert forall|j2: int|
                        spec_valid_span(s@, i as int, j2) && j2 <= j + 1 implies j2 - i
                            <= max by {}
                }
                j = j + 1;
            }
            proof {
                assert forall|i2: int, j2: int|
                    spec_valid_span(s@, i2, j2) && i2 < i + 1 implies j2 - i2 <= max by {
                    if i2 == i {
                        assert(spec_valid_span(s@, i as int, j2) && j2 <= n);
                    }
                }
            }
            i = i + 1;
        }
        proof {
            assert forall|i2: int, j2: int| spec_valid_span(s@, i2, j2) implies j2 - i2 <= max by {
                if i2 >= n {
                    assert(i2 == n && j2 == n);
                }
            }
        }
        max as i32
    }
}

} // verus!
