//! Properties of the registry that span one or more mints.
use vstd::prelude::*;
use crate::dna::{Gender, gender_spec};
use crate::pallet::{AccountId, Error, Kitty, Origin, Pallet, MAX_COUNT, owned_in};

verus! {

/// A mint keeps the registry's invariants: the counter counts the records,
/// identifiers stay unique, and each account's list holds exactly its records'
/// identifiers, within the bound.
pub proof fn lemma_mint_preserves_wf(
    pre: Pallet,
    post: Pallet,
    owner: AccountId,
    dna: [u8; 16],
    gender: Gender,
    r: Result<[u8; 16], Error>,
)
    requires
        pre.wf(),
        Pallet::mint_spec(pre, post, owner, dna, gender, r),
    ensures
        post.wf(),
{
    if pre.mint_outcome(owner, dna) is Ok {
        lemma_added_preserves_wf(pre, post, owner, dna, gender);
    }
}

/// A call of `create_kitty` keeps the registry's invariants.
pub proof fn lemma_create_preserves_wf(
    pre: Pallet,
    post: Pallet,
    origin: Origin,
    dna: [u8; 16],
    r: Result<(), Error>,
)
    requires
        pre.wf(),
        Pallet::create_kitty_spec(pre, post, origin, dna, r),
    ensures
        post.wf(),
{
    if let Origin::Signed(who) = origin {
        if pre.mint_outcome(who, dna) is Ok {
            lemma_added_preserves_wf(pre, post, who, dna, gender_spec(dna));
        }
    }
}

/// Adding a record that passed the mint checks keeps the invariants.
proof fn lemma_added_preserves_wf(
    pre: Pallet,
    post: Pallet,
    owner: AccountId,
    dna: [u8; 16],
    gender: Gender,
)
    requires
        pre.wf(),
        pre.mint_outcome(owner, dna) is Ok,
        Pallet::added(pre, post, owner, dna, gender),
    ensures
        post.wf(),
{
    assert(post.records().drop_last() =~= pre.records());
    assert forall|a: AccountId| #[trigger] post.owned_of(a) == owned_in(post.records(), a) by {
        assert(pre.owned_of(a) == owned_in(pre.records(), a));
    }
    assert forall|a: AccountId| #[trigger] post.owned_of(a).len() <= post.max_owned() by {
        assert(pre.owned_of(a).len() <= pre.max_owned());
    }
    assert forall|i: int, j: int|
        0 <= i < j < post.records().len() implies #[trigger] post.records()[i].dna
            != #[trigger] post.records()[j].dna by {
        if j == pre.records().len() {
            assert(pre.records()[i].dna == post.records()[i].dna);
        } else {
            assert(pre.records()[i].dna == post.records()[i].dna);
            assert(pre.records()[j].dna == post.records()[j].dna);
        }
    }
    assert forall|i: int| 0 <= i < post.records().len() implies (
    #[trigger] post.records()[i]).price is None by {
        if i < pre.records().len() {
            assert(post.records()[i] == pre.records()[i]);
        }
    }
}

/// An identifier is in `owner`'s list over `records` exactly when some
/// record of `owner` carries it.
pub proof fn lemma_owned_in_contains(records: Seq<Kitty>, owner: AccountId, x: [u8; 16])
    ensures
        owned_in(records, owner).contains(x) <==> exists|i: int|
            0 <= i < records.len() && (#[trigger] records[i]).owner == owner && records[i].dna == x,
    decreases records.len(),
{
    if records.len() > 0 {
        let rest = records.drop_last();
        let n = records.len() - 1;
        lemma_owned_in_contains(rest, owner, x);
        let o = owned_in(rest, owner);
        if owned_in(records, owner).contains(x) {
            if records.last().owner == owner && records.last().dna == x {
                assert(records[n].owner == owner && records[n].dna == x);
            } else {
                let k = choose|k: int| 0 <= k < owned_in(records, owner).len() && owned_in(records, owner)[k] == x;
                if records.last().owner == owner {
                    assert(o.push(records.last().dna)[k] == x);
                    assert(k < o.len());
                    assert(o[k] == x);
                }
                assert(o.contains(x));
                let i = choose|i: int| 0 <= i < rest.len() && (#[trigger] rest[i]).owner == owner && rest[i].dna == x;
                assert(records[i] == rest[i]);
            }
        }
        if exists|i: int| 0 <= i < records.len() && (#[trigger] records[i]).owner == owner && records[i].dna == x {
            let i = choose|i: int| 0 <= i < records.len() && (#[trigger] records[i]).owner == owner && records[i].dna == x;
            if i == n {
                assert(owned_in(records, owner) == o.push(x));
                assert(o.push(x)[o.len() as int] == x);
            } else {
                assert(rest[i] == records[i]);
                assert(o.contains(x));
                let k = choose|k: int| 0 <= k < o.len() && o[k] == x;
                if records.last().owner == owner {
                    assert(o.push(records.last().dna)[k] == x);
                }
            }
        }
    }
}

/// Every identifier in an account's list belongs to a record owned by that
/// account, and no other account's list holds it.
pub proof fn law_owned_ids_are_records(p: Pallet, owner: AccountId, k: int)
    requires
        p.wf(),
        0 <= k < p.owned_of(owner).len(),
    ensures
        exists|i: int|
            0 <= i < p.records().len() && (#[trigger] p.records()[i]).owner == owner
                && p.records()[i].dna == p.owned_of(owner)[k],
        forall|other: AccountId|
            other != owner ==> !(#[trigger] p.owned_of(other)).contains(p.owned_of(owner)[k]),
{
    let x = p.owned_of(owner)[k];
    assert(p.owned_of(owner) == owned_in(p.records(), owner));
    assert(p.owned_of(owner).contains(x));
    lemma_owned_in_contains(p.records(), owner, x);
    let i = choose|i: int| 0 <= i < p.records().len() && (#[trigger] p.records()[i]).owner == owner && p.records()[i].dna == x;
    assert forall|other: AccountId| other != owner implies !(#[trigger] p.owned_of(other)).contains(x) by {
        assert(p.owned_of(other) == owned_in(p.records(), other));
        lemma_owned_in_contains(p.records(), other, x);
        if p.owned_of(other).contains(x) {
            let j = choose|j: int| 0 <= j < p.records().len() && (#[trigger] p.records()[j]).owner == other && p.records()[j].dna == x;
            if i < j {
                assert(p.records()[i].dna != p.records()[j].dna);
            } else if j < i {
                assert(p.records()[j].dna != p.records()[i].dna);
            }
        }
    }
}

/// No two records share an identifier, before or after a mint; and a mint of
/// an identifier that is already taken fails with `DuplicateKitty` and changes
/// nothing.
pub proof fn law_ids_stay_unique(
    pre: Pallet,
    post: Pallet,
    owner: AccountId,
    dna: [u8; 16],
    gender: Gender,
    r: Result<[u8; 16], Error>,
)
    requires
        pre.wf(),
        Pallet::mint_spec(pre, post, owner, dna, gender, r),
    ensures
        forall|i: int, j: int|
            0 <= i < j < post.records().len() ==> #[trigger] post.records()[i].dna
                != #[trigger] post.records()[j].dna,
        pre.has_kitty(dna) ==> r == Err::<[u8; 16], Error>(Error::DuplicateKitty) && post == pre,
{
    lemma_mint_preserves_wf(pre, post, owner, dna, gender, r);
}

/// A mint for an owner who already holds the most records allowed fails with
/// `TooManyOwned` and changes nothing (when the identifier is new and the
/// counter has room, since those checks come first).
pub proof fn law_capacity_is_enforced(
    pre: Pallet,
    post: Pallet,
    owner: AccountId,
    dna: [u8; 16],
    gender: Gender,
    r: Result<[u8; 16], Error>,
)
    requires
        pre.wf(),
        pre.owned_of(owner).len() == pre.max_owned(),
        !pre.has_kitty(dna),
        pre.total() < MAX_COUNT,
        Pallet::mint_spec(pre, post, owner, dna, gender, r),
    ensures
        r == Err::<[u8; 16], Error>(Error::TooManyOwned),
        post == pre,
{
}

/// A mint of a new identifier when the counter is at its largest value fails
/// with `Overflow` and changes nothing.
pub proof fn law_counter_overflow_fails(
    pre: Pallet,
    post: Pallet,
    owner: AccountId,
    dna: [u8; 16],
    gender: Gender,
    r: Result<[u8; 16], Error>,
)
    requires
        pre.wf(),
        pre.total() == MAX_COUNT,
        !pre.has_kitty(dna),
        Pallet::mint_spec(pre, post, owner, dna, gender, r),
    ensures
        r == Err::<[u8; 16], Error>(Error::Overflow),
        post == pre,
{
}

/// The number of successful results in `results`.
pub open spec fn successes<T>(results: Seq<Result<T, Error>>) -> nat
    decreases results.len(),
{
    if results.len() == 0 {
        0
    } else {
        successes(results.drop_last()) + if results.last() is Ok {
            1nat
        } else {
            0nat
        }
    }
}

/// `states` is a run of mints: each state follows from the one before by
/// the mint `calls[i]` with result `results[i]`.
pub open spec fn mint_run(
    states: Seq<Pallet>,
    calls: Seq<(AccountId, [u8; 16], Gender)>,
    results: Seq<Result<[u8; 16], Error>>,
) -> bool {
    &&& states.len() == results.len() + 1
    &&& calls.len() == results.len()
    &&& forall|i: int|
        #![trigger results[i]]
        0 <= i < results.len() ==> Pallet::mint_spec(
            states[i],
            states[i + 1],
            calls[i].0,
            calls[i].1,
            calls[i].2,
            results[i],
        )
}

/// Over a run of mints from a well-formed registry, the counter and the
/// number of records both grow by the number of successful mints.
pub proof fn lemma_run_counts(
    states: Seq<Pallet>,
    calls: Seq<(AccountId, [u8; 16], Gender)>,
    results: Seq<Result<[u8; 16], Error>>,
)
    requires
        states.len() > 0,
        states[0].wf(),
        mint_run(states, calls, results),
    ensures
        states.last().wf(),
        states.last().total() == states[0].total() + successes(results),
        states.last().records().len() == states[0].records().len() + successes(results),
    decreases results.len(),
{
    if results.len() > 0 {
        let n = results.len() - 1;
        let s = states.drop_last();
        let c = calls.drop_last();
        let rs = results.drop_last();
        assert forall|i: int| #![trigger rs[i]] 0 <= i < rs.len() implies Pallet::mint_spec(
            s[i],
            s[i + 1],
            c[i].0,
            c[i].1,
            c[i].2,
            rs[i],
        ) by {
            assert(Pallet::mint_spec(
                states[i],
                states[i + 1],
                calls[i].0,
                calls[i].1,
                calls[i].2,
                results[i],
            ));
        }
        lemma_run_counts(s, c, rs);
        assert(Pallet::mint_spec(states[n], states[n + 1], calls[n].0, calls[n].1, calls[n].2, results[n]));
        lemma_mint_preserves_wf(states[n], states[n + 1], calls[n].0, calls[n].1, calls[n].2, results[n]);
    }
}

/// After any run of mints from an empty registry, the counter and the
/// number of records both equal the number of mints that succeeded.
pub proof fn law_counter_counts_successes(
    states: Seq<Pallet>,
    calls: Seq<(AccountId, [u8; 16], Gender)>,
    results: Seq<Result<[u8; 16], Error>>,
)
    requires
        states.len() > 0,
        states[0].wf(),
        states[0].records().len() == 0,
        mint_run(states, calls, results),
    ensures
        states.last().total() == successes(results),
        states.last().records().len() == successes(results),
{
    lemma_run_counts(states, calls, results);
}

/// Repeating a failed mint, any number of times, never changes the registry
/// and always fails with the same error.
pub proof fn law_failure_is_idempotent(
    states: Seq<Pallet>,
    owner: AccountId,
    dna: [u8; 16],
    gender: Gender,
    results: Seq<Result<[u8; 16], Error>>,
)
    requires
        results.len() > 0,
        states.len() == results.len() + 1,
        results[0] is Err,
        forall|i: int|
            #![trigger results[i]]
            0 <= i < results.len() ==> Pallet::mint_spec(
                states[i],
                states[i + 1],
                owner,
                dna,
                gender,
                results[i],
            ),
    ensures
        forall|i: int| 0 <= i < states.len() ==> #[trigger] states[i] == states[0],
        forall|i: int| 0 <= i < results.len() ==> #[trigger] results[i] == results[0],
    decreases results.len(),
{
    if results.len() > 1 {
        let n = results.len() - 1;
        let s = states.drop_last();
        let rs = results.drop_last();
        assert forall|i: int| #![trigger rs[i]] 0 <= i < rs.len() implies Pallet::mint_spec(
            s[i],
            s[i + 1],
            owner,
            dna,
            gender,
            rs[i],
        ) by {
            assert(Pallet::mint_spec(states[i], states[i + 1], owner, dna, gender, results[i]));
        }
        law_failure_is_idempotent(s, owner, dna, gender, rs);
        assert(s[n] == states[0]);
        assert(Pallet::mint_spec(states[n], states[n + 1], owner, dna, gender, results[n]));
        assert forall|i: int| 0 <= i < states.len() implies #[trigger] states[i] == states[0] by {
            if i < n + 1 {
                assert(s[i] == states[0]);
            }
        }
        assert forall|i: int| 0 <= i < results.len() implies #[trigger] results[i] == results[0] by {
            if i < n {
                assert(rs[i] == results[0]);
            }
        }
    } else {
        assert(Pallet::mint_spec(states[0], states[1], owner, dna, gender, results[0]));
    }
}

/// `states` is a run of `create_kitty` calls: each state follows from the
/// one before by a call from `calls[i].0` that generated the identifier
/// `calls[i].1` and returned `results[i]`.
pub open spec fn create_run(
    states: Seq<Pallet>,
    calls: Seq<(Origin, [u8; 16])>,
    results: Seq<Result<(), Error>>,
) -> bool {
    &&& states.len() == results.len() + 1
    &&& calls.len() == results.len()
    &&& forall|i: int|
        #![trigger results[i]]
        0 <= i < results.len() ==> Pallet::create_kitty_spec(
            states[i],
            states[i + 1],
            calls[i].0,
            calls[i].1,
            results[i],
        )
}

/// Over a run of `create_kitty` calls from a well-formed registry, the
/// counter and the number of records both grow by the number of calls that
/// succeeded.
pub proof fn lemma_create_run_counts(
    states: Seq<Pallet>,
    calls: Seq<(Origin, [u8; 16])>,
    results: Seq<Result<(), Error>>,
)
    requires
        states.len() > 0,
        states[0].wf(),
        create_run(states, calls, results),
    ensures
        states.last().wf(),
        states.last().total() == states[0].total() + successes(results),
        states.last().records().len() == states[0].records().len() + successes(results),
    decreases results.len(),
{
    if results.len() > 0 {
        let n = results.len() - 1;
        let s = states.drop_last();
        let c = calls.drop_last();
        let rs = results.drop_last();
        assert forall|i: int| #![trigger rs[i]] 0 <= i < rs.len() implies Pallet::create_kitty_spec(
            s[i],
            s[i + 1],
            c[i].0,
            c[i].1,
            rs[i],
        ) by {
            assert(Pallet::create_kitty_spec(states[i], states[i + 1], calls[i].0, calls[i].1, results[i]));
        }
        lemma_create_run_counts(s, c, rs);
        assert(Pallet::create_kitty_spec(states[n], states[n + 1], calls[n].0, calls[n].1, results[n]));
        lemma_create_preserves_wf(states[n], states[n + 1], calls[n].0, calls[n].1, results[n]);
    }
}

/// After any run of `create_kitty` calls from an empty registry, the counter
/// and the number of records both equal the number of calls that succeeded,
/// whatever the number that failed.
pub proof fn law_created_count_counts_successes(
    states: Seq<Pallet>,
    calls: Seq<(Origin, [u8; 16])>,
    results: Seq<Result<(), Error>>,
)
    requires
        states.len() > 0,
        states[0].wf(),
        states[0].records().len() == 0,
        create_run(states, calls, results),
    ensures
        states.last().total() == successes(results),
        states.last().records().len() == successes(results),
{
    lemma_create_run_counts(states, calls, results);
}

/// The first `k` calls of a run of `create_kitty` calls signed by `who`, with
/// distinct identifiers, from an empty registry, all succeed while `k` is at
/// most the bound.
proof fn lemma_signed_prefix(
    states: Seq<Pallet>,
    calls: Seq<(Origin, [u8; 16])>,
    results: Seq<Result<(), Error>>,
    who: AccountId,
    k: int,
)
    requires
        states.len() > 0,
        states[0].wf(),
        states[0].records().len() == 0,
        create_run(states, calls, results),
        forall|i: int| 0 <= i < calls.len() ==> (#[trigger] calls[i]).0 == Origin::Signed(who),
        forall|i: int, j: int|
            0 <= i < j < calls.len() ==> (#[trigger] calls[i]).1 != (#[trigger] calls[j]).1,
        0 <= k <= states[0].max_owned(),
        k <= results.len(),
    ensures
        states[k].wf(),
        states[k].total() == k,
        states[k].records().len() == k,
        states[k].owned_of(who).len() == k,
        states[k].max_owned() == states[0].max_owned(),
        forall|i: int| 0 <= i < k ==> (#[trigger] states[k].records()[i]).dna == calls[i].1,
        forall|i: int| 0 <= i < k ==> #[trigger] results[i] == Ok::<(), Error>(()),
    decreases k,
{
    if k == 0 {
        assert(states[0].owned_of(who) == owned_in(states[0].records(), who));
    } else {
        let m = k - 1;
        lemma_signed_prefix(states, calls, results, who, m);
        let pre = states[m];
        let post = states[k];
        let dna = calls[m].1;
        assert(calls[m].0 == Origin::Signed(who));
        assert(Pallet::create_kitty_spec(pre, post, calls[m].0, dna, results[m]));
        assert(!pre.has_kitty(dna)) by {
            assert forall|i: int| 0 <= i < pre.records().len() implies #[trigger] pre.records()[i].dna != dna by {
                assert(pre.records()[i].dna == calls[i].1);
                assert(calls[i].1 != calls[m].1);
            }
        }
        assert(pre.mint_outcome(who, dna) is Ok);
        lemma_create_preserves_wf(pre, post, calls[m].0, dna, results[m]);
        assert forall|i: int| 0 <= i < k implies (#[trigger] post.records()[i]).dna == calls[i].1 by {
            if i < m {
                assert(post.records()[i] == pre.records()[i]);
                assert(pre.records()[i].dna == calls[i].1);
            }
        }
        assert forall|i: int| 0 <= i < k implies #[trigger] results[i] == Ok::<(), Error>(()) by {
            if i < m {
                assert(results[i] == Ok::<(), Error>(()));
            }
        }
    }
}

/// An account that, from an empty registry, calls `create_kitty` one time
/// more than the bound, each call generating a new identifier, succeeds the
/// first `max_owned` times; the last call fails with `TooManyOwned` and
/// leaves the counter, the records and the account's list at the bound.
pub proof fn law_capacity_after_max_creates(
    states: Seq<Pallet>,
    calls: Seq<(Origin, [u8; 16])>,
    results: Seq<Result<(), Error>>,
    who: AccountId,
)
    requires
        states.len() > 0,
        states[0].wf(),
        states[0].records().len() == 0,
        results.len() == states[0].max_owned() + 1,
        create_run(states, calls, results),
        forall|i: int| 0 <= i < calls.len() ==> (#[trigger] calls[i]).0 == Origin::Signed(who),
        forall|i: int, j: int|
            0 <= i < j < calls.len() ==> (#[trigger] calls[i]).1 != (#[trigger] calls[j]).1,
    ensures
        forall|i: int| 0 <= i < results.len() - 1 ==> #[trigger] results[i] == Ok::<(), Error>(()),
        results.last() == Err::<(), Error>(Error::TooManyOwned),
        states.last().total() == states[0].max_owned(),
        states.last().records().len() == states[0].max_owned(),
        states.last().owned_of(who).len() == states[0].max_owned(),
{
    let k = states[0].max_owned() as int;
    lemma_signed_prefix(states, calls, results, who, k);
    let pre = states[k];
    let dna = calls[k].1;
    assert(calls[k].0 == Origin::Signed(who));
    assert(Pallet::create_kitty_spec(pre, states[k + 1], calls[k].0, dna, results[k]));
    assert(!pre.has_kitty(dna)) by {
        assert forall|i: int| 0 <= i < pre.records().len() implies #[trigger] pre.records()[i].dna != dna by {
            assert(pre.records()[i].dna == calls[i].1);
            assert(calls[i].1 != calls[k].1);
        }
    }
    assert(pre.total() < MAX_COUNT);
}

} // verus!
