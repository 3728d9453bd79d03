//! Fungible asset amounts and multiset reasoning over lists of them.
//!
//! The exercise handler must compare the attached funds with the stored
//! counter-offer as collections of (denomination, amount) pairs irrespective
//! of order, so this module proves an executable occurrence-counting check
//! equivalent to multiset equality of the two lists.

use vstd::prelude::*;

verus! {

/// A quantity of one fungible asset: a denomination and how much of it.
#[derive(Debug, Clone, PartialEq, Eq)]
pub struct Coin {
    pub denom: String,
    pub amount: u128,
}

/// The mathematical value of a [`Coin`]: the denomination's characters and
/// the amount as an unbounded integer.
#[verifier::ext_equal]
pub struct CoinView {
    pub denom: Seq<char>,
    pub amount: int,
}

impl View for Coin {
    type V = CoinView;

    open spec fn view(&self) -> CoinView {
        CoinView { denom: self.denom@, amount: self.amount as int }
    }
}

/// The views of every coin in a list, in order.
pub open spec fn coins_view(s: Seq<Coin>) -> Seq<CoinView> {
    s.map_values(|c: Coin| c@)
}

/// Two asset lists carry the same coins, as multisets of
/// (denomination, amount) pairs: order does not matter, repetition does.
pub open spec fn same_coins(a: Seq<CoinView>, b: Seq<CoinView>) -> bool {
    a.to_multiset() == b.to_multiset()
}

/// How often `c` occurs in `s`.
pub open spec fn coin_occurrences(s: Seq<CoinView>, c: CoinView) -> nat
    decreases s.len(),
{
    if s.len() == 0 {
        0
    } else {
        coin_occurrences(s.drop_last(), c) + (if s.last() == c {
            1nat
        } else {
            0nat
        })
    }
}

/// Occurrence counting agrees with the count in the sequence's multiset.
pub proof fn lemma_occurrences_are_multiset_count(s: Seq<CoinView>, c: CoinView)
    ensures
        coin_occurrences(s, c) == s.to_multiset().count(c),
    decreases s.len(),
{
    broadcast use vstd::seq_lib::group_to_multiset_ensures;

    if s.len() == 0 {
        assert(!s.contains(c));
        assert(s.to_multiset().count(c) == 0);
    } else {
        lemma_occurrences_are_multiset_count(s.drop_last(), c);
        assert(s =~= s.drop_last().push(s.last()));
        assert(s.drop_last().push(s.last()).to_multiset() =~= s.drop_last().to_multiset().insert(
            s.last(),
        ));
    }
}

/// Appending one coin raises its own occurrence count by one and leaves
/// every other count unchanged.
proof fn lemma_occurrences_push(s: Seq<CoinView>, x: CoinView, c: CoinView)
    ensures
        coin_occurrences(s.push(x), c) == coin_occurrences(s, c) + (if x == c {
            1nat
        } else {
            0nat
        }),
{
    assert(s.push(x).drop_last() =~= s);
    assert(s.push(x).last() == x);
}

/// Counts how many coins in `v` equal `c`, denomination and amount both.
pub fn count_coin(v: &Vec<Coin>, c: &Coin) -> (n: usize)
    ensures
        n == coin_occurrences(coins_view(v@), c@),
{
    let ghost all = coins_view(v@);
    let mut n: usize = 0;
    let mut i: usize = 0;
    while i < v.len()
        invariant
            i <= v.len(),
            n <= i,
            all == coins_view(v@),
            all.len() == v@.len(),
            n == coin_occurrences(all.take(i as int), c@),
        decreases v.len() - i,
    {
        proof {
            assert(all.take(i + 1) =~= all.take(i as int).push(all[i as int]));
            lemma_occurrences_push(all.take(i as int), all[i as int], c@);
            assert(all[i as int] == v@[i as int]@);
        }
        if v[i].amount == c.amount && v[i].denom == c.denom {
            assert(v@[i as int]@ == c@);
            n = n + 1;
        } else {
            assert(v@[i as int]@ != c@);
        }
        i = i + 1;
    }
    proof {
        assert(all.take(v@.len() as int) =~= all);
    }
    n
}

/// Decides whether `a` and `b` hold the same coins irrespective of order, by
/// checking that every coin of either list occurs equally often in both.
pub fn coins_match(a: &Vec<Coin>, b: &Vec<Coin>) -> (r: bool)
    ensures
        r == same_coins(coins_view(a@), coins_view(b@)),
{
    let ghost av = coins_view(a@);
    let ghost bv = coins_view(b@);
    let mut i: usize = 0;
    while i < a.len()
        invariant
            i <= a.len(),
            av == coins_view(a@),
            bv == coins_view(b@),
            av.len() == a@.len(),
            forall|j: int|
                0 <= j < i ==> coin_occurrences(av, #[trigger] av[j]) == coin_occurrences(
                    bv,
                    av[j],
                ),
        decreases a.len() - i,
    {
        let ca = count_coin(a, &a[i]);
        let cb = count_coin(b, &a[i]);
        if ca != cb {
            proof {
                lemma_occurrences_are_multiset_count(av, av[i as int]);
                lemma_occurrences_are_multiset_count(bv, av[i as int]);
                assert(av.to_multiset().count(av[i as int]) != bv.to_multiset().count(
                    av[i as int],
                ));
            }
            return false;
        }
        i = i + 1;
    }
    let mut k: usize = 0;
    while k < b.len()
        invariant
            k <= b.len(),
            av == coins_view(a@),
            bv == coins_view(b@),
            av.len() == a@.len(),
            bv.len() == b@.len(),
            forall|j: int|
                0 <= j < av.len() ==> coin_occurrences(av, #[trigger] av[j]) == coin_occurrences(
                    bv,
                    av[j],
                ),
            forall|j: int|
                0 <= j < k ==> coin_occurrences(av, #[trigger] bv[j]) == coin_occurrences(
                    bv,
                    bv[j],
                ),
        decreases b.len() - k,
    {
        let ca = count_coin(a, &b[k]);
        let cb = count_coin(b, &b[k]);
        if ca != cb {
            proof {
                lemma_occurrences_are_multiset_count(av, bv[k as int]);
                lemma_occurrences_are_multiset_count(bv, bv[k as int]);
            }
            return false;
        }
        k = k + 1;
    }
    proof {
        broadcast use vstd::seq_lib::group_to_multiset_ensures;

        assert forall|c: CoinView| av.to_multiset().count(c) == bv.to_multiset().count(c) by {
            lemma_occurrences_are_multiset_count(av, c);
            lemma_occurrences_are_multiset_count(bv, c);
            if av.to_multiset().count(c) > 0 {
                let j = choose|j: int| 0 <= j < av.len() && av[j] == c;
                assert(coin_occurrences(av, av[j]) == coin_occurrences(bv, av[j]));
            } else if bv.to_multiset().count(c) > 0 {
                let j = choose|j: int| 0 <= j < bv.len() && bv[j] == c;
                assert(coin_occurrences(av, bv[j]) == coin_occurrences(bv, bv[j]));
            }
        }
        assert(av.to_multiset() =~= bv.to_multiset());
    }
    true
}

/// Copies one coin; the copy has the same denomination and amount.
pub fn clone_coin(c: &Coin) -> (r: Coin)
    ensures
        r == *c,
{
    Coin { denom: c.denom.clone(), amount: c.amount }
}

/// Copies an asset list element by element.
pub fn clone_coins(v: &Vec<Coin>) -> (r: Vec<Coin>)
    ensures
        r@ == v@,
{
    let mut r: Vec<Coin> = Vec::new();
    let mut i: usize = 0;
    while i < v.len()
        invariant
            i <= v.len(),
            r@ == v@.take(i as int),
        decreases v.len() - i,
    {
        r.push(clone_coin(&v[i]));
        proof {
            assert(r@ =~= v@.take(i + 1));
        }
        i = i + 1;
    }
    proof {
        assert(v@.take(v@.len() as int) =~= v@);
    }
    r
}

} // verus!
