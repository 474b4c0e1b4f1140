use emoji_ledger::{EmojiContract, EmojiRecord};
use soroban_sdk::testutils::{Address as _, Ledger as _};
use soroban_sdk::{Address, Env, Symbol};

fn record(emoji: &Symbol, user: &Address, timestamp: u64) -> EmojiRecord {
    EmojiRecord { emoji: emoji.clone(), user: user.clone(), timestamp }
}

#[test]
fn empty_store_reports_nothing() {
    let env = Env::default();
    let store = EmojiContract::new();
    assert_eq!(store.get_total_votes(), 0);
    assert_eq!(store.get_emoji_data(), Vec::<EmojiRecord>::new());
    assert_eq!(store.get_emoji_count(Symbol::new(&env, "party")), 0);
}

#[test]
fn three_appends_are_counted_and_kept_in_order() {
    let env = Env::default();
    let party = Symbol::new(&env, "party");
    let fire = Symbol::new(&env, "fire");
    let u1 = Address::generate(&env);
    let u2 = Address::generate(&env);

    let mut store = EmojiContract::new();
    store.append(party.clone(), u1.clone(), 100);
    store.append(fire.clone(), u2.clone(), 105);
    store.append(party.clone(), u1.clone(), 110);

    assert_eq!(store.get_total_votes(), 3);
    assert_eq!(store.get_emoji_count(party.clone()), 2);
    assert_eq!(store.get_emoji_count(fire.clone()), 1);
    assert_eq!(
        store.get_emoji_data(),
        vec![record(&party, &u1, 100), record(&fire, &u2, 105), record(&party, &u1, 110)]
    );
}

#[test]
fn equal_timestamps_keep_call_order() {
    let env = Env::default();
    let party = Symbol::new(&env, "party");
    let fire = Symbol::new(&env, "fire");
    let u1 = Address::generate(&env);
    let u2 = Address::generate(&env);

    let mut store = EmojiContract::new();
    store.append(fire.clone(), u2.clone(), 200);
    store.append(party.clone(), u1.clone(), 200);

    assert_eq!(store.get_total_votes(), 2);
    assert_eq!(store.get_emoji_count(party.clone()), 1);
    assert_eq!(store.get_emoji_count(fire.clone()), 1);
    assert_eq!(
        store.get_emoji_data(),
        vec![record(&fire, &u2, 200), record(&party, &u1, 200)]
    );
}

#[test]
fn append_echoes_the_emoji() {
    let env = Env::default();
    let party = Symbol::new(&env, "party");
    let user = Address::generate(&env);
    let mut store = EmojiContract::new();
    assert_eq!(store.append(party.clone(), user, 7), party);
}

#[test]
fn record_emoji_takes_the_ledger_time() {
    let env = Env::default();
    let party = Symbol::new(&env, "party");
    let fire = Symbol::new(&env, "fire");
    let u1 = Address::generate(&env);
    let u2 = Address::generate(&env);
    let name = Symbol::new(&env, "alice");

    let mut store = EmojiContract::new();
    env.ledger().set_timestamp(100);
    let first = store.record_emoji(&env, party.clone(), name.clone(), u1.clone());
    env.ledger().set_timestamp(105);
    let second = store.record_emoji(&env, fire.clone(), name.clone(), u2.clone());
    env.ledger().set_timestamp(110);
    let third = store.record_emoji(&env, party.clone(), name.clone(), u1.clone());

    assert_eq!(first, party);
    assert_eq!(second, fire);
    assert_eq!(third, party);
    assert_eq!(store.get_total_votes(), 3);
    assert_eq!(store.get_emoji_count(party.clone()), 2);
    assert_eq!(store.get_emoji_count(fire.clone()), 1);
    assert_eq!(
        store.get_emoji_data(),
        vec![record(&party, &u1, 100), record(&fire, &u2, 105), record(&party, &u1, 110)]
    );
}

#[test]
fn record_emoji_within_one_ledger_close() {
    let env = Env::default();
    let party = Symbol::new(&env, "party");
    let fire = Symbol::new(&env, "fire");
    let u1 = Address::generate(&env);
    let u2 = Address::generate(&env);
    let name = Symbol::new(&env, "bob");

    let mut store = EmojiContract::new();
    env.ledger().set_timestamp(4242);
    store.record_emoji(&env, party.clone(), name.clone(), u1.clone());
    store.record_emoji(&env, fire.clone(), name.clone(), u2.clone());

    assert_eq!(store.get_total_votes(), 2);
    assert_eq!(
        store.get_emoji_data(),
        vec![record(&party, &u1, 4242), record(&fire, &u2, 4242)]
    );
}

#[test]
fn name_is_not_stored() {
    let env = Env::default();
    let party = Symbol::new(&env, "party");
    let user = Address::generate(&env);

    let mut with_one_name = EmojiContract::new();
    let mut with_another = EmojiContract::new();
    env.ledger().set_timestamp(9);
    with_one_name.record_emoji(&env, party.clone(), Symbol::new(&env, "alice"), user.clone());
    with_another.record_emoji(&env, party.clone(), Symbol::new(&env, "bob"), user.clone());

    assert_eq!(with_one_name.get_emoji_data(), with_another.get_emoji_data());
    assert_eq!(with_one_name.get_emoji_count(Symbol::new(&env, "alice")), 0);
}

#[test]
fn extreme_timestamps_are_kept() {
    let env = Env::default();
    let party = Symbol::new(&env, "party");
    let user = Address::generate(&env);

    let mut store = EmojiContract::new();
    store.append(party.clone(), user.clone(), 0);
    store.append(party.clone(), user.clone(), u64::MAX);

    assert_eq!(
        store.get_emoji_data(),
        vec![record(&party, &user, 0), record(&party, &user, u64::MAX)]
    );
}
