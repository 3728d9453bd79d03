use simple_option::coins::{Coin, coins_match, count_coin};
use simple_option::state::{OptionStore, State};

#[test]
fn save_and_load() {
    let mut store = OptionStore::new();
    assert_eq!(store.may_load(), None);

    let cfg = State {
        creator: "creator".to_string(),
        owner: "owner".to_string(),
        collateral: vec![Coin { denom: "ETH".to_string(), amount: 40 }],
        counter_offer: vec![Coin { denom: "ETH".to_string(), amount: 40 }],
        expires: 1234,
    };
    store.save(&cfg);
    assert_eq!(cfg, store.load().unwrap());
}

#[test]
fn remove_deletes_the_record() {
    let mut store = OptionStore::new();
    let cfg = State {
        creator: "creator".to_string(),
        owner: "owner".to_string(),
        collateral: vec![Coin { denom: "BTC".to_string(), amount: 1 }],
        counter_offer: vec![Coin { denom: "ETH".to_string(), amount: 40 }],
        expires: 1234,
    };
    store.save(&cfg);
    store.remove();
    assert_eq!(store.may_load(), None);
    assert!(store.load().is_err());
}

#[test]
fn coins_match_ignores_order_but_not_multiplicity() {
    let a = vec![
        Coin { denom: "ETH".to_string(), amount: 40 },
        Coin { denom: "BTC".to_string(), amount: 1 },
    ];
    let b = vec![
        Coin { denom: "BTC".to_string(), amount: 1 },
        Coin { denom: "ETH".to_string(), amount: 40 },
    ];
    assert!(coins_match(&a, &b));
    assert!(coins_match(&a, &a));

    // one pair repeated is a different multiset
    let c = vec![
        Coin { denom: "ETH".to_string(), amount: 40 },
        Coin { denom: "ETH".to_string(), amount: 40 },
    ];
    let d = vec![Coin { denom: "ETH".to_string(), amount: 40 }];
    assert!(!coins_match(&c, &d));
    assert!(!coins_match(&d, &c));

    // same denomination, different amount
    let e = vec![Coin { denom: "ETH".to_string(), amount: 39 }];
    assert!(!coins_match(&d, &e));

    // both empty
    let f: Vec<Coin> = vec![];
    assert!(coins_match(&f, &f));
}

#[test]
fn count_coin_counts_occurrences() {
    let list = vec![
        Coin { denom: "ETH".to_string(), amount: 40 },
        Coin { denom: "BTC".to_string(), amount: 1 },
        Coin { denom: "ETH".to_string(), amount: 40 },
        Coin { denom: "ETH".to_string(), amount: 39 },
    ];
    assert_eq!(count_coin(&list, &Coin { denom: "ETH".to_string(), amount: 40 }), 2);
    assert_eq!(count_coin(&list, &Coin { denom: "BTC".to_string(), amount: 1 }), 1);
    assert_eq!(count_coin(&list, &Coin { denom: "ETH".to_string(), amount: 38 }), 0);
}
