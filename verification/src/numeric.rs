//! Sizes the spectrum analysis is fast on: the largest product of twos
//! and threes that fits a buffer.

use vstd::prelude::*;

use vstd::arithmetic::power::{
    lemma_pow0, lemma_pow1, lemma_pow_adds, lemma_pow_increases, lemma_pow_positive, pow,
};
use vstd::arithmetic::mul::lemma_mul_inequality;

verus! {

/// One more factor in a power.
proof fn lemma_pow_step(b: int, e: nat)
    ensures
        pow(b, (e + 1) as nat) == b * pow(b, e),
{
    lemma_pow_adds(b, e, 1);
    lemma_pow1(b);
    assert(pow(b, (e + 1) as nat) == pow(b, e) * pow(b, 1));
    assert(pow(b, e) * b == b * pow(b, e)) by (nonlinear_arith);
}

/// A transform size built of `a` twos and `b` threes.
pub open spec fn p23(a: nat, b: nat) -> int {
    pow(2, a) * pow(3, b)
}

/// The largest product of twos and threes no larger than `len`: the
/// transform sizes the analysis runs fastest on.
pub fn be_nice_to_fft(len: usize) -> (best: usize)
    requires
        len >= 1,
    ensures
        1 <= best <= len,
        exists|a: nat, b: nat| p23(a, b) == best,
        forall|a: nat, b: nat| p23(a, b) <= len ==> p23(a, b) <= best,
{
    let mut best: usize = 1;
    proof {
        lemma_pow0(2);
        lemma_pow0(3);
        assert(p23(0, 0) == 1);
    }
    let mut twos: usize = 1;
    let ghost mut ta: nat = 0;
    loop
        invariant_except_break
            1 <= best <= len,
            twos == pow(2, ta),
            1 <= twos <= len,
            exists|a: nat, b: nat| p23(a, b) == best,
            forall|a: nat, b: nat| a < ta && p23(a, b) <= len ==> p23(a, b) <= best,
        ensures
            1 <= best <= len,
            exists|a: nat, b: nat| p23(a, b) == best,
            forall|a: nat, b: nat| p23(a, b) <= len ==> p23(a, b) <= best,
        decreases len - twos,
    {
        let mut threes: usize = twos;
        let ghost mut tb: nat = 0;
        proof {
            lemma_pow0(3);
        }
        loop
            invariant_except_break
                1 <= best <= len,
                twos == pow(2, ta),
                threes == pow(2, ta) * pow(3, tb),
                1 <= threes <= len,
                exists|a: nat, b: nat| p23(a, b) == best,
                forall|a: nat, b: nat| a < ta && p23(a, b) <= len ==> p23(a, b) <= best,
                forall|b: nat| b < tb && p23(ta, b) <= len ==> p23(ta, b) <= best,
            ensures
                1 <= best <= len,
                twos == pow(2, ta),
                exists|a: nat, b: nat| p23(a, b) == best,
                forall|a: nat, b: nat| a < ta && p23(a, b) <= len ==> p23(a, b) <= best,
                forall|b: nat| p23(ta, b) <= len ==> p23(ta, b) <= best,
            decreases len - threes,
        {
            if threes > best {
                best = threes;
                proof {
                    assert(p23(ta, tb) == best);
                }
            }
            proof {
                assert forall|b: nat| b < tb + 1 && p23(ta, b) <= len implies p23(ta, b)
                    <= best by {
                    if b < tb {
                    } else {
                        assert(p23(ta, tb) == threes);
                    }
                }
            }
            if threes > len / 3 {
                proof {
                    assert(3 * threes > len);
                    assert forall|b: nat| p23(ta, b) <= len implies p23(ta, b) <= best by {
                        if b > tb {
                            assert(pow(3, b) >= pow(3, (tb + 1) as nat)) by {
                                lemma_pow_increases(3, (tb + 1) as nat, b);
                            }
                            assert(pow(3, (tb + 1) as nat) == 3 * pow(3, tb)) by {
                                lemma_pow_step(3, tb);
                            }
                            assert(pow(2, ta) * pow(3, b) >= pow(2, ta) * (3 * pow(3, tb))) by {
                                lemma_mul_inequality(3 * pow(3, tb), pow(3, b), pow(2, ta));
                                lemma_pow_positive(2, ta);
                            }
                            assert(pow(2, ta) * (3 * pow(3, tb)) == 3 * threes)
                                by (nonlinear_arith)
                                requires
                                    threes == pow(2, ta) * pow(3, tb),
                            ;
                        }
                    }
                }
                break ;
            }
            threes = threes * 3;
            proof {
                tb = tb + 1;
                assert(pow(3, tb) == 3 * pow(3, (tb - 1) as nat)) by {
                    lemma_pow_step(3, (tb - 1) as nat);
                }
                assert(threes == pow(2, ta) * pow(3, tb)) by (nonlinear_arith)
                    requires
                        threes == 3 * (pow(2, ta) * pow(3, (tb - 1) as nat)),
                        pow(3, tb) == 3 * pow(3, (tb - 1) as nat),
                ;
            }
        }
        if twos > len / 2 {
            proof {
                assert(2 * twos > len);
                assert forall|a: nat, b: nat| p23(a, b) <= len implies p23(a, b) <= best by {
                    if a > ta {
                        assert(pow(2, a) >= pow(2, (ta + 1) as nat)) by {
                            lemma_pow_increases(2, (ta + 1) as nat, a);
                        }
                        assert(pow(2, (ta + 1) as nat) == 2 * pow(2, ta)) by {
                            lemma_pow_step(2, ta);
                        }
                        assert(pow(3, b) >= 1) by {
                            lemma_pow_positive(3, b);
                        }
                        assert(pow(2, a) * pow(3, b) >= pow(2, a) * 1) by {
                            lemma_mul_inequality(1, pow(3, b), pow(2, a));
                            lemma_pow_positive(2, a);
                        }
                        assert(pow(2, a) >= 2 * twos);
                        assert(pow(2, a) * pow(3, b) >= pow(2, a)) by (nonlinear_arith)
                            requires
                                pow(3, b) >= 1,
                                pow(2, a) >= 0,
                        ;
                    } else if a == ta {
                    }
                }
            }
            break ;
        }
        twos = twos * 2;
        proof {
            ta = ta + 1;
            assert(pow(2, ta) == 2 * pow(2, (ta - 1) as nat)) by {
                lemma_pow_step(2, (ta - 1) as nat);
            }
            assert forall|a: nat, b: nat| a < ta && p23(a, b) <= len implies p23(a, b) <= best by {
                if a < ta - 1 {
                } else {
                    assert(p23((ta - 1) as nat, b) <= len ==> p23((ta - 1) as nat, b) <= best);
                }
            }
        }
    }
    best
}

} // verus!
