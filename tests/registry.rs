use kitties::dna::{gen_dna, gender_of_dna, Gender};
use kitties::pallet::{ensure_signed, mint_check, Config, Error, Event, Origin, Pallet};

const ALICE: u64 = 1;
const BOB: u64 = 2;

fn registry(max: u32) -> Pallet {
    Pallet::new(Config { max_kitties_owned: max })
}

fn id(n: u8) -> [u8; 16] {
    let mut d = [0u8; 16];
    d[0] = n;
    d[15] = n.wrapping_mul(3);
    d
}

#[test]
fn gender_follows_first_byte_parity() {
    assert_eq!(gender_of_dna(&[0u8; 16]), Gender::Male);
    assert_eq!(gender_of_dna(&id(2)), Gender::Male);
    assert_eq!(gender_of_dna(&id(3)), Gender::Female);
    let mut d = [0u8; 16];
    d[1] = 1;
    assert_eq!(gender_of_dna(&d), Gender::Male);
}

#[test]
fn gen_dna_known_answers() {
    let (d, g) = gen_dna([0u8; 32], Some(1), 5);
    assert_eq!(d, [23, 87, 130, 88, 177, 57, 182, 108, 173, 153, 45, 26, 249, 171, 47, 199]);
    assert_eq!(g, Gender::Female);
    let (d, _) = gen_dna([7u8; 32], None, 0);
    assert_eq!(d, [213, 185, 161, 230, 237, 130, 108, 98, 254, 133, 164, 138, 78, 114, 25, 168]);
    let mut r = [0u8; 32];
    for (i, b) in r.iter_mut().enumerate() {
        *b = i as u8;
    }
    let (d, _) = gen_dna(r, Some(3), 100);
    assert_eq!(d, [69, 33, 52, 214, 157, 196, 135, 129, 110, 98, 138, 91, 15, 47, 123, 13]);
}

#[test]
fn gen_dna_is_deterministic_and_index_sensitive() {
    let a = gen_dna([9u8; 32], Some(4), 12);
    assert_eq!(a, gen_dna([9u8; 32], Some(4), 12));
    assert_eq!(gen_dna([9u8; 32], None, 12), gen_dna([9u8; 32], Some(0), 12));
    assert_ne!(a.0, gen_dna([9u8; 32], Some(5), 12).0);
    assert_ne!(a.0, gen_dna([9u8; 32], Some(4), 13).0);
    assert_eq!(a.1, gender_of_dna(&a.0));
}

#[test]
fn ensure_signed_accepts_only_signed() {
    assert_eq!(ensure_signed(Origin::Signed(ALICE)), Ok(ALICE));
    assert_eq!(ensure_signed(Origin::Root), Err(Error::BadOrigin));
    assert_eq!(ensure_signed(Origin::Unsigned), Err(Error::BadOrigin));
}

#[test]
fn mint_check_order_and_values() {
    assert_eq!(mint_check(false, 0, 0, 3), Ok(1));
    assert_eq!(mint_check(false, 41, 2, 3), Ok(42));
    assert_eq!(mint_check(true, 0, 0, 3), Err(Error::DuplicateKitty));
    assert_eq!(mint_check(true, u64::MAX, 3, 3), Err(Error::DuplicateKitty));
    assert_eq!(mint_check(false, u64::MAX, 3, 3), Err(Error::Overflow));
    assert_eq!(mint_check(false, 5, 3, 3), Err(Error::TooManyOwned));
    assert_eq!(mint_check(false, 5, 0, 0), Err(Error::TooManyOwned));
}

#[test]
fn counter_overflow_boundary() {
    assert_eq!(mint_check(false, u64::MAX, 0, 10), Err(Error::Overflow));
    assert_eq!(mint_check(false, u64::MAX - 1, 0, 10), Ok(u64::MAX));
}

#[test]
fn new_registry_is_empty() {
    let p = registry(3);
    assert_eq!(p.count_for_kitties(), 0);
    assert_eq!(p.max_kitties_owned(), 3);
    assert!(p.events().is_empty());
    assert!(p.kitties_owned(&ALICE).is_empty());
    assert_eq!(p.owned_count(&ALICE), 0);
    assert_eq!(p.kitty(&id(1)), None);
}

#[test]
fn first_mint_creates_record_and_notifies() {
    let mut p = registry(3);
    assert_eq!(p.create_kitty(Origin::Signed(ALICE), [0u8; 32], Some(1), 5), Ok(()));
    let (dna, gender) = gen_dna([0u8; 32], Some(1), 5);
    assert_eq!(p.count_for_kitties(), 1);
    let k = p.kitty(&dna).unwrap();
    assert_eq!(k.owner, ALICE);
    assert_eq!(k.dna, dna);
    assert_eq!(k.gender, gender);
    assert_eq!(k.price, None);
    assert_eq!(p.kitties_owned(&ALICE), vec![dna]);
    assert_eq!(p.events().clone(), vec![Event::Created { kitty: dna, owner: ALICE }]);
}

#[test]
fn capacity_reached_after_max_owned_mints() {
    let max = 4u32;
    let mut p = registry(max);
    for i in 0..max {
        assert_eq!(p.create_kitty(Origin::Signed(ALICE), [5u8; 32], Some(i), 7), Ok(()));
    }
    assert_eq!(p.count_for_kitties(), max as u64);
    assert_eq!(p.create_kitty(Origin::Signed(ALICE), [5u8; 32], Some(max), 7), Err(Error::TooManyOwned));
    assert_eq!(p.count_for_kitties(), max as u64);
    assert_eq!(p.owned_count(&ALICE), max as usize);
    assert_eq!(p.events().len(), max as usize);
    // Another account still has room.
    assert_eq!(p.create_kitty(Origin::Signed(BOB), [5u8; 32], Some(max), 7), Ok(()));
    assert_eq!(p.count_for_kitties(), max as u64 + 1);
}

#[test]
fn unsigned_origin_is_rejected() {
    let mut p = registry(3);
    assert_eq!(p.create_kitty(Origin::Unsigned, [1u8; 32], Some(0), 1), Err(Error::BadOrigin));
    assert_eq!(p.create_kitty(Origin::Root, [1u8; 32], Some(0), 1), Err(Error::BadOrigin));
    assert_eq!(p.count_for_kitties(), 0);
    assert!(p.events().is_empty());
    assert_eq!(p.kitty(&gen_dna([1u8; 32], Some(0), 1).0), None);
}

#[test]
fn duplicate_id_is_rejected_without_change() {
    let mut p = registry(3);
    assert_eq!(p.mint(&ALICE, id(1), Gender::Female), Ok(id(1)));
    assert_eq!(p.mint(&BOB, id(1), Gender::Male), Err(Error::DuplicateKitty));
    assert_eq!(p.count_for_kitties(), 1);
    assert_eq!(p.kitty(&id(1)).unwrap().owner, ALICE);
    assert!(p.kitties_owned(&BOB).is_empty());
    // The same entropy and context give the same id: the second call collides.
    assert_eq!(p.create_kitty(Origin::Signed(ALICE), [3u8; 32], Some(2), 9), Ok(()));
    assert_eq!(p.create_kitty(Origin::Signed(BOB), [3u8; 32], Some(2), 9), Err(Error::DuplicateKitty));
    assert_eq!(p.count_for_kitties(), 2);
    assert_eq!(p.events().len(), 1);
}

#[test]
fn mint_does_not_notify() {
    let mut p = registry(3);
    assert_eq!(p.mint(&ALICE, id(4), Gender::Male), Ok(id(4)));
    assert!(p.events().is_empty());
    assert_eq!(p.kitty(&id(4)).unwrap().gender, Gender::Male);
}

#[test]
fn repeated_failures_change_nothing() {
    let mut p = registry(1);
    assert_eq!(p.mint(&ALICE, id(1), Gender::Male), Ok(id(1)));
    for _ in 0..5 {
        assert_eq!(p.mint(&ALICE, id(2), Gender::Male), Err(Error::TooManyOwned));
        assert_eq!(p.count_for_kitties(), 1);
        assert_eq!(p.kitties_owned(&ALICE), vec![id(1)]);
        assert_eq!(p.kitty(&id(2)), None);
    }
    for _ in 0..3 {
        assert_eq!(p.mint(&BOB, id(1), Gender::Male), Err(Error::DuplicateKitty));
        assert_eq!(p.count_for_kitties(), 1);
    }
}

#[test]
fn counter_counts_successful_mints() {
    let mut p = registry(2);
    let mut ok = 0u64;
    let attempts = [(ALICE, 1u8), (ALICE, 2), (ALICE, 3), (BOB, 2), (BOB, 4), (BOB, 5), (3, 6)];
    for (owner, n) in attempts {
        if p.mint(&owner, id(n), Gender::Male).is_ok() {
            ok += 1;
        }
    }
    assert_eq!(ok, 5);
    assert_eq!(p.count_for_kitties(), 5);
    assert_eq!(p.kitties_owned(&ALICE), vec![id(1), id(2)]);
    assert_eq!(p.kitties_owned(&BOB), vec![id(4), id(5)]);
    assert_eq!(p.kitties_owned(&3), vec![id(6)]);
}

#[test]
fn zero_capacity_rejects_every_mint() {
    let mut p = registry(0);
    assert_eq!(p.mint(&ALICE, id(1), Gender::Male), Err(Error::TooManyOwned));
    assert_eq!(p.count_for_kitties(), 0);
}

#[test]
fn counter_counts_successful_creates() {
    let mut p = registry(2);
    let mut ok = 0u64;
    let calls = [
        (Origin::Signed(ALICE), 0u32),
        (Origin::Unsigned, 1),
        (Origin::Signed(ALICE), 2),
        (Origin::Signed(BOB), 2),
        (Origin::Signed(ALICE), 3),
        (Origin::Root, 4),
        (Origin::Signed(BOB), 5),
    ];
    for (origin, index) in calls {
        if p.create_kitty(origin, [8u8; 32], Some(index), 11).is_ok() {
            ok += 1;
        }
    }
    assert_eq!(ok, 3);
    assert_eq!(p.count_for_kitties(), 3);
    assert_eq!(p.owned_count(&ALICE), 2);
    assert_eq!(p.owned_count(&BOB), 1);
    assert_eq!(p.events().len(), 3);
}
