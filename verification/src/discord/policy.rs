//! The two policies of a link that are pure arithmetic: which encryption mode
//! to ask for, and how long to wait before the next attempt to resume.

use vstd::arithmetic::mul::lemma_mul_left_inequality;
use vstd::arithmetic::power2::{lemma_pow2_pos, lemma_pow2_strictly_increases, lemma_pow2_unfold, pow2};
use vstd::prelude::*;

verus! {

/// The first mode of `preference` that is among `offered`. The preference
/// list is ordered from the strongest mode down and is supplied by
/// configuration.
pub open spec fn preferred_mode(preference: Seq<Seq<char>>, offered: Seq<Seq<char>>) -> Option<
    Seq<char>,
>
    decreases preference.len(),
{
    if preference.len() == 0 {
        None
    } else if offered.contains(preference[0]) {
        Some(preference[0])
    } else {
        preferred_mode(preference.skip(1), offered)
    }
}

/// Modes that are not offered can be skipped from the front of the list.
pub proof fn lemma_preferred_mode_skip(preference: Seq<Seq<char>>, offered: Seq<Seq<char>>, n: int)
    requires
        0 <= n <= preference.len(),
        forall|j: int| 0 <= j < n ==> !offered.contains(preference[j]),
    ensures
        preferred_mode(preference, offered) == preferred_mode(preference.skip(n), offered),
    decreases n,
{
    if n > 0 {
        lemma_preferred_mode_skip(preference, offered, n - 1);
        let rest = preference.skip(n - 1);
        assert(rest[0] == preference[n - 1]);
        assert(rest.skip(1) =~= preference.skip(n));
    } else {
        assert(preference.skip(0) =~= preference);
    }
}

/// The mode that is chosen is on offer and in the preference list, and no
/// mode before it in the list is on offer. None is chosen only if no mode of
/// the list is on offer.
pub proof fn lemma_preferred_mode_is_the_first_on_offer(
    preference: Seq<Seq<char>>,
    offered: Seq<Seq<char>>,
)
    ensures
        match preferred_mode(preference, offered) {
            Some(mode) => {
                &&& offered.contains(mode)
                &&& exists|i: int|
                    {
                        &&& 0 <= i < preference.len()
                        &&& #[trigger] preference[i] == mode
                        &&& forall|j: int| 0 <= j < i ==> !offered.contains(#[trigger] preference[j])
                    }
            },
            None => forall|i: int|
                0 <= i < preference.len() ==> !offered.contains(#[trigger] preference[i]),
        },
    decreases preference.len(),
{
    if preference.len() > 0 {
        if offered.contains(preference[0]) {
            assert(preference[0] == preference[0]);
        } else {
            let rest = preference.skip(1);
            lemma_preferred_mode_is_the_first_on_offer(rest, offered);
            match preferred_mode(rest, offered) {
                Some(mode) => {
                    let i = choose|i: int|
                        {
                            &&& 0 <= i < rest.len()
                            &&& #[trigger] rest[i] == mode
                            &&& forall|j: int| 0 <= j < i ==> !offered.contains(#[trigger] rest[j])
                        };
                    assert(preference[i + 1] == rest[i]);
                    assert forall|j: int| 0 <= j < i + 1 implies !offered.contains(
                        #[trigger] preference[j],
                    ) by {
                        if j > 0 {
                            assert(preference[j] == rest[j - 1]);
                        }
                    }
                },
                None => {
                    assert forall|i: int| 0 <= i < preference.len() implies !offered.contains(
                        #[trigger] preference[i],
                    ) by {
                        if i > 0 {
                            assert(preference[i] == rest[i - 1]);
                        }
                    }
                },
            }
        }
    }
}

/// Whether `mode` is among `offered`.
pub fn offers(offered: &Vec<String>, mode: &String) -> (r: bool)
    ensures
        r == offered.deep_view().contains(mode@),
{
    let mut i: usize = 0;
    while i < offered.len()
        invariant
            i <= offered.len(),
            forall|j: int| 0 <= j < i ==> offered@[j]@ != mode@,
        decreases offered.len() - i,
    {
        if offered[i] == *mode {
            assert(offered.deep_view()[i as int] == mode@);
            return true;
        }
        i += 1;
    }
    assert forall|j: int| 0 <= j < offered.deep_view().len() implies offered.deep_view()[j]
        != mode@ by {
        assert(offered.deep_view()[j] == offered@[j]@);
    }
    false
}

/// Picks the mode to ask the gateway for.
pub fn choose_mode(preference: &Vec<String>, offered: &Vec<String>) -> (r: Option<String>)
    ensures
        r.deep_view() == preferred_mode(preference.deep_view(), offered.deep_view()),
{
    let mut i: usize = 0;
    while i < preference.len()
        invariant
            i <= preference.len(),
            forall|j: int| 0 <= j < i ==> !offered.deep_view().contains(preference@[j]@),
        decreases preference.len() - i,
    {
        if offers(offered, &preference[i]) {
            proof {
                let all = preference.deep_view();
                assert forall|j: int| 0 <= j < i implies !offered.deep_view().contains(all[j]) by {
                    assert(all[j] == preference@[j]@);
                }
                lemma_preferred_mode_skip(all, offered.deep_view(), i as int);
                assert(all.skip(i as int)[0] == preference@[i as int]@);
            }
            return Some(preference[i].clone());
        }
        i += 1;
    }
    proof {
        let all = preference.deep_view();
        assert forall|j: int| 0 <= j < all.len() implies !offered.deep_view().contains(all[j]) by {
            assert(all[j] == preference@[j]@);
        }
        lemma_preferred_mode_skip(all, offered.deep_view(), all.len() as int);
    }
    None
}

/// The wait before the attempt that follows `failures` failed attempts in a
/// row: `base_ms` after the first failure, doubled with each further one, and
/// never more than `cap_ms`.
pub open spec fn backoff_delay(base_ms: u64, cap_ms: u64, failures: u32) -> u64 {
    if failures == 0 {
        0
    } else if base_ms * pow2((failures - 1) as nat) >= cap_ms {
        cap_ms
    } else {
        (base_ms * pow2((failures - 1) as nat)) as u64
    }
}

/// The wait never exceeds the cap, and it never shrinks from one failure to
/// the next.
pub proof fn lemma_backoff_is_capped_and_grows(base_ms: u64, cap_ms: u64, failures: u32)
    requires
        failures < u32::MAX,
    ensures
        backoff_delay(base_ms, cap_ms, failures) <= cap_ms,
        backoff_delay(base_ms, cap_ms, failures) <= backoff_delay(
            base_ms,
            cap_ms,
            (failures + 1) as u32,
        ),
        backoff_delay(base_ms, cap_ms, 1) == if base_ms <= cap_ms {
            base_ms
        } else {
            cap_ms
        },
{
    vstd::arithmetic::power2::lemma2_to64();
    assert(base_ms * pow2(0) == base_ms);
    if failures > 0 && base_ms > 0 {
        lemma_doubling_grows(base_ms as int, (failures - 1) as nat, failures as nat);
    }
    if base_ms == 0 {
        assert(base_ms * pow2(failures as nat) == 0);
        if failures > 0 {
            assert(base_ms * pow2((failures - 1) as nat) == 0);
        }
    }
}

proof fn lemma_doubling_grows(base: int, i: nat, k: nat)
    requires
        base > 0,
        i <= k,
    ensures
        base * pow2(i) <= base * pow2(k),
{
    if i < k {
        lemma_pow2_strictly_increases(i, k);
    }
    lemma_mul_left_inequality(base, pow2(i) as int, pow2(k) as int);
}

/// Computes [`backoff_delay`].
pub fn backoff(base_ms: u64, cap_ms: u64, failures: u32) -> (d: u64)
    ensures
        d == backoff_delay(base_ms, cap_ms, failures),
{
    if failures == 0 {
        return 0;
    }
    proof {
        lemma_pow2_pos((failures - 1) as nat);
    }
    if base_ms == 0 {
        assert(base_ms * pow2((failures - 1) as nat) == 0);
        return 0;
    }
    if base_ms >= cap_ms {
        proof {
            lemma_doubling_grows(base_ms as int, 0, (failures - 1) as nat);
            vstd::arithmetic::power2::lemma2_to64();
            assert(pow2(0) == 1);
            assert(base_ms * pow2(0) == base_ms);
        }
        return cap_ms;
    }
    let mut d: u64 = base_ms;
    let mut i: u32 = 1;
    proof {
        vstd::arithmetic::power2::lemma2_to64();
        assert(pow2(0) == 1);
        assert(base_ms * pow2(0) == base_ms);
    }
    while i < failures
        invariant
            1 <= i <= failures,
            base_ms > 0,
            d == base_ms * pow2((i - 1) as nat),
            d < cap_ms,
        decreases failures - i,
    {
        proof {
            lemma_pow2_unfold(i as nat);
            assert(base_ms * pow2(i as nat) == 2 * (base_ms * pow2((i - 1) as nat)))
                by (nonlinear_arith)
                requires
                    pow2(i as nat) == 2 * pow2((i - 1) as nat),
            ;
            lemma_doubling_grows(base_ms as int, i as nat, (failures - 1) as nat);
        }
        if d > cap_ms / 2 {
            return cap_ms;
        }
        d = d * 2;
        i += 1;
        if d >= cap_ms {
            return cap_ms;
        }
    }
    d
}

} // verus!
