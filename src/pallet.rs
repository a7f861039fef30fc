//! The registry state and the transitions that mint records into it.
use std::collections::HashMap;
use vstd::prelude::*;
use crate::dna::{Gender, gender_spec, dna_spec, gen_dna};
use crate::laws::lemma_mint_preserves_wf;

verus! {

broadcast use vstd::std_specs::hash::group_hash_axioms;

/// The identity of an account.
pub type AccountId = u64;

/// The largest value the record counter can hold.
pub const MAX_COUNT: u64 = 0xffff_ffff_ffff_ffff;

/// A minted record. Records are never changed after creation.
#[derive(Clone, Copy, Debug, PartialEq, Eq)]
pub struct Kitty {
    /// The 16-byte identifier, unique over the registry.
    pub dna: [u8; 16],
    /// The asking price; `None` means not for sale.
    pub price: Option<u128>,
    pub gender: Gender,
    pub owner: AccountId,
}

/// Configuration fixed when the registry is created.
#[derive(Clone, Copy, Debug, PartialEq, Eq, Structural)]
pub struct Config {
    /// The largest number of records a single account may own.
    pub max_kitties_owned: u32,
}

/// Notifications emitted by the registry.
#[derive(Clone, Copy, Debug, PartialEq, Eq)]
pub enum Event {
    /// A new record was created.
    Created { kitty: [u8; 16], owner: AccountId },
}

/// The ways a transition can fail.
#[derive(Clone, Copy, Debug, PartialEq, Eq, Structural)]
pub enum Error {
    /// An account may only own `max_kitties_owned` records.
    TooManyOwned,
    /// A record with this identifier already exists.
    DuplicateKitty,
    /// The record counter would overflow.
    Overflow,
    /// The caller is not a single signed account.
    BadOrigin,
}

/// Who submitted a call.
#[derive(Clone, Copy, Debug, PartialEq, Eq, Structural)]
pub enum Origin {
    /// A call signed by one account.
    Signed(AccountId),
    /// The privileged system origin.
    Root,
    /// A call carrying no signature.
    Unsigned,
}

/// The account behind a signed origin.
pub fn ensure_signed(origin: Origin) -> (r: Result<AccountId, Error>)
    ensures
        match origin {
            Origin::Signed(who) => r == Ok::<AccountId, Error>(who),
            _ => r == Err::<AccountId, Error>(Error::BadOrigin),
        },
{
    match origin {
        Origin::Signed(who) => Ok(who),
        _ => Err(Error::BadOrigin),
    }
}

/// The identifiers of the records in `records` owned by `owner`, in the order
/// they were minted.
pub open spec fn owned_in(records: Seq<Kitty>, owner: AccountId) -> Seq<[u8; 16]>
    decreases records.len(),
{
    if records.len() == 0 {
        Seq::empty()
    } else {
        let rest = owned_in(records.drop_last(), owner);
        if records.last().owner == owner {
            rest.push(records.last().dna)
        } else {
            rest
        }
    }
}

/// The outcome of the checks a mint makes, in order: the identifier must be
/// new, the counter must not overflow, and the owner must have room. On
/// success it is the new value of the counter.
pub open spec fn mint_check_spec(exists: bool, count: u64, owned: nat, max_owned: u32) -> Result<
    u64,
    Error,
> {
    if exists {
        Err(Error::DuplicateKitty)
    } else if count == MAX_COUNT {
        Err(Error::Overflow)
    } else if owned >= max_owned {
        Err(Error::TooManyOwned)
    } else {
        Ok((count + 1) as u64)
    }
}

/// Decides whether a mint may go ahead, and gives the next counter value.
pub fn mint_check(exists: bool, count: u64, owned: usize, max_owned: u32) -> (r: Result<
    u64,
    Error,
>)
    ensures
        r == mint_check_spec(exists, count, owned as nat, max_owned),
{
    if exists {
        return Err(Error::DuplicateKitty);
    }
    if count == MAX_COUNT {
        return Err(Error::Overflow);
    }
    if owned >= max_owned as usize {
        return Err(Error::TooManyOwned);
    }
    Ok(count + 1)
}

/// Whether two identifiers are the same.
fn same_dna(a: &[u8; 16], b: &[u8; 16]) -> (r: bool)
    ensures
        r == (*a == *b),
{
    let mut i: usize = 0;
    while i < 16
        invariant
            0 <= i <= 16,
            forall|j: int| 0 <= j < i ==> a@[j] == b@[j],
        decreases 16 - i,
    {
        if a[i] != b[i] {
            return false;
        }
        i = i + 1;
    }
    assert(*a =~= *b);
    true
}

/// The registry: a record counter, the records, the identifiers each account
/// owns, and the notifications emitted so far.
pub struct Pallet {
    config: Config,
    count: u64,
    kitties: Vec<Kitty>,
    owned: HashMap<AccountId, Vec<[u8; 16]>>,
    events: Vec<Event>,
}

impl Pallet {
    /// The number of records, as the counter holds it.
    pub closed spec fn total(&self) -> u64 {
        self.count
    }

    /// The records, in the order they were minted.
    pub closed spec fn records(&self) -> Seq<Kitty> {
        self.kitties@
    }

    /// The identifiers that `owner` holds, in the order they were minted.
    pub closed spec fn owned_of(&self, owner: AccountId) -> Seq<[u8; 16]> {
        if self.owned@.contains_key(owner) {
            self.owned@[owner]@
        } else {
            Seq::empty()
        }
    }

    /// The notifications emitted so far, oldest first.
    pub closed spec fn notifications(&self) -> Seq<Event> {
        self.events@
    }

    /// The largest number of records one account may own.
    pub closed spec fn max_owned(&self) -> u32 {
        self.config.max_kitties_owned
    }

    /// Whether a record with identifier `dna` exists.
    pub open spec fn has_kitty(&self, dna: [u8; 16]) -> bool {
        exists|i: int| 0 <= i < self.records().len() && #[trigger] self.records()[i].dna == dna
    }

    /// The registry's invariants: the counter counts the records, identifiers
    /// are unique, no record has a price, each account's list holds exactly
    /// the identifiers of its records and stays within the bound.
    pub open spec fn wf(&self) -> bool {
        &&& self.total() as int == self.records().len()
        &&& forall|i: int, j: int|
            0 <= i < j < self.records().len() ==> #[trigger] self.records()[i].dna
                != #[trigger] self.records()[j].dna
        &&& forall|i: int| 0 <= i < self.records().len() ==> (#[trigger] self.records()[i]).price is None
        &&& forall|a: AccountId| #[trigger] self.owned_of(a) == owned_in(self.records(), a)
        &&& forall|a: AccountId| #[trigger] self.owned_of(a).len() <= self.max_owned()
    }

    /// The outcome of the checks that a mint of `dna` for `owner` makes on
    /// this registry: the next counter value, or the first check that fails.
    pub open spec fn mint_outcome(&self, owner: AccountId, dna: [u8; 16]) -> Result<u64, Error> {
        mint_check_spec(self.has_kitty(dna), self.total(), self.owned_of(owner).len(), self.max_owned())
    }

    /// `post` is `pre` with one more record, `dna` of class `gender` owned by
    /// `owner`, appended to the records and to the owner's list, and counted.
    pub open spec fn added(pre: Pallet, post: Pallet, owner: AccountId, dna: [u8; 16], gender: Gender) -> bool {
        &&& post.total() == pre.total() + 1
        &&& post.records() == pre.records().push(
            (Kitty { dna, price: None, gender, owner }),
        )
        &&& post.owned_of(owner) == pre.owned_of(owner).push(dna)
        &&& forall|a: AccountId| a != owner ==> #[trigger] post.owned_of(a) == pre.owned_of(a)
        &&& post.max_owned() == pre.max_owned()
    }

    /// What `mint(owner, dna, gender)` does: on `pre`, it returns `r` and
    /// leaves `post`. A failed mint changes nothing.
    pub open spec fn mint_spec(
        pre: Pallet,
        post: Pallet,
        owner: AccountId,
        dna: [u8; 16],
        gender: Gender,
        r: Result<[u8; 16], Error>,
    ) -> bool {
        match pre.mint_outcome(owner, dna) {
            Ok(_) => {
                &&& r == Ok::<[u8; 16], Error>(dna)
                &&& Pallet::added(pre, post, owner, dna, gender)
                &&& post.notifications() == pre.notifications()
            },
            Err(e) => r == Err::<[u8; 16], Error>(e) && post == pre,
        }
    }

    /// What `create_kitty` does when signed by `who`, with `dna` the identifier
    /// generated for the call: a mint, and on success a `Created` notification.
    pub open spec fn create_spec(
        pre: Pallet,
        post: Pallet,
        who: AccountId,
        dna: [u8; 16],
        r: Result<(), Error>,
    ) -> bool {
        match pre.mint_outcome(who, dna) {
            Ok(_) => {
                &&& r == Ok::<(), Error>(())
                &&& Pallet::added(pre, post, who, dna, gender_spec(dna))
                &&& post.notifications() == pre.notifications().push(
                    Event::Created { kitty: dna, owner: who },
                )
            },
            Err(e) => r == Err::<(), Error>(e) && post == pre,
        }
    }

    /// What `create_kitty` does when called from `origin`, with `dna` the
    /// identifier generated for the call: a call that is not signed by one
    /// account fails with `BadOrigin` and changes nothing.
    pub open spec fn create_kitty_spec(
        pre: Pallet,
        post: Pallet,
        origin: Origin,
        dna: [u8; 16],
        r: Result<(), Error>,
    ) -> bool {
        match origin {
            Origin::Signed(who) => Pallet::create_spec(pre, post, who, dna, r),
            _ => r == Err::<(), Error>(Error::BadOrigin) && post == pre,
        }
    }

    /// An empty registry with the given configuration.
    pub fn new(config: Config) -> (r: Pallet)
        ensures
            r.wf(),
            r.total() == 0,
            r.records() == Seq::<Kitty>::empty(),
            r.notifications() == Seq::<Event>::empty(),
            r.max_owned() == config.max_kitties_owned,
            forall|a: AccountId| #[trigger] r.owned_of(a) == Seq::<[u8; 16]>::empty(),
    {
        let r = Pallet {
            config,
            count: 0,
            kitties: Vec::new(),
            owned: HashMap::new(),
            events: Vec::new(),
        };
        assert forall|a: AccountId| #[trigger] r.owned_of(a) == owned_in(r.records(), a) by {}
        r
    }

    /// The record with identifier `dna`, if there is one.
    pub fn kitty(&self, dna: &[u8; 16]) -> (r: Option<Kitty>)
        requires
            self.wf(),
        ensures
            r is Some <==> self.has_kitty(*dna),
            forall|i: int|
                0 <= i < self.records().len() && #[trigger] self.records()[i].dna == *dna
                    ==> r == Some(self.records()[i]),
    {
        let mut i: usize = 0;
        while i < self.kitties.len()
            invariant
                self.wf(),
                0 <= i <= self.kitties.len(),
                forall|j: int| 0 <= j < i ==> #[trigger] self.kitties@[j].dna != *dna,
            decreases self.kitties.len() - i,
        {
            if same_dna(&self.kitties[i].dna, dna) {
                return Some(self.kitties[i]);
            }
            i = i + 1;
        }
        None
    }

    /// The number of records in the registry.
    pub fn count_for_kitties(&self) -> (r: u64)
        ensures
            r == self.total(),
    {
        self.count
    }

    /// The largest number of records one account may own.
    pub fn max_kitties_owned(&self) -> (r: u32)
        ensures
            r == self.max_owned(),
    {
        self.config.max_kitties_owned
    }

    /// The notifications emitted so far, oldest first.
    pub fn events(&self) -> (r: &Vec<Event>)
        ensures
            r@ == self.notifications(),
    {
        &self.events
    }

    /// The number of records `owner` holds.
    pub fn owned_count(&self, owner: &AccountId) -> (r: usize)
        ensures
            r == self.owned_of(*owner).len(),
    {
        match self.owned.get(owner) {
            Some(v) => v.len(),
            None => 0,
        }
    }

    /// The identifiers `owner` holds, in the order they were minted.
    pub fn kitties_owned(&self, owner: &AccountId) -> (r: Vec<[u8; 16]>)
        ensures
            r@ == self.owned_of(*owner),
    {
        let mut out: Vec<[u8; 16]> = Vec::new();
        match self.owned.get(owner) {
            Some(v) => {
                let mut i: usize = 0;
                while i < v.len()
                    invariant
                        0 <= i <= v.len(),
                        v@ == self.owned_of(*owner),
                        out@ == v@.subrange(0, i as int),
                    decreases v.len() - i,
                {
                    out.push(v[i]);
                    i = i + 1;
                    assert(out@ =~= v@.subrange(0, i as int));
                }
                assert(out@ =~= v@);
            },
            None => {},
        }
        out
    }

    /// Creates a record with identifier `dna` and classification `gender` for
    /// `owner`. Fails, changing nothing, when the identifier is taken, when
    /// the counter would overflow, or when the owner holds the most records
    /// allowed, checked in that order.
    pub fn mint(&mut self, owner: &AccountId, dna: [u8; 16], gender: Gender) -> (r: Result<
        [u8; 16],
        Error,
    >)
        requires
            old(self).wf(),
        ensures
            final(self).wf(),
            Pallet::mint_spec(*old(self), *final(self), *owner, dna, gender, r),
    {
        let exists = self.kitty(&dna).is_some();
        let owned_len = self.owned_count(owner);
        let new_count = match mint_check(exists, self.count, owned_len, self.config.max_kitties_owned) {
            Ok(n) => n,
            Err(e) => {
                return Err(e);
            },
        };
        let ghost pre = *self;
        let kitty = Kitty { dna, price: None, gender, owner: *owner };
        let mut list = match self.owned.remove(owner) {
            Some(v) => v,
            None => Vec::new(),
        };
        list.push(dna);
        self.owned.insert(*owner, list);
        self.kitties.push(kitty);
        self.count = new_count;
        proof {
            lemma_mint_preserves_wf(pre, *self, *owner, dna, gender, Ok(dna));
        }
        Ok(dna)
    }

    /// Mints a new record for the account that signed `origin`. Its identifier
    /// is derived from `random`, the entropy of the current slot, from the
    /// index of the call within its block and from the block height. On
    /// success a `Created` notification is emitted; on failure nothing
    /// changes.
    pub fn create_kitty(
        &mut self,
        origin: Origin,
        random: [u8; 32],
        extrinsic_index: Option<u32>,
        block_number: u32,
    ) -> (r: Result<(), Error>)
        requires
            old(self).wf(),
        ensures
            final(self).wf(),
            Pallet::create_kitty_spec(
                *old(self),
                *final(self),
                origin,
                dna_spec(random, extrinsic_index, block_number),
                r,
            ),
    {
        let who = match ensure_signed(origin) {
            Ok(w) => w,
            Err(e) => {
                return Err(e);
            },
        };
        let (dna, gender) = gen_dna(random, extrinsic_index, block_number);
        match self.mint(&who, dna, gender) {
            Ok(_) => {},
            Err(e) => {
                return Err(e);
            },
        }
        self.deposit_event(Event::Created { kitty: dna, owner: who });
        Ok(())
    }

    /// Appends a notification.
    fn deposit_event(&mut self, event: Event)
        ensures
            final(self).notifications() == old(self).notifications().push(event),
            final(self).total() == old(self).total(),
            final(self).records() == old(self).records(),
            final(self).max_owned() == old(self).max_owned(),
            forall|a: AccountId| #[trigger] final(self).owned_of(a) == old(self).owned_of(a),
    {
        self.events.push(event);
    }
}

} // verus!
