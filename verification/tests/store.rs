use job_market::ledger::Ledger;
use job_market::records::{Account, Job, Listing, ListingStatus, Role, NFT};
use job_market::table::Table;

fn s(text: &str) -> String {
    String::from(text)
}

#[test]
fn empty_table_holds_nothing() {
    let table: Table<Job> = Table::new();
    assert!(table.get(&s("")).is_none());
    assert!(table.get(&s("a")).is_none());
}

#[test]
fn table_returns_what_was_put() {
    let mut table: Table<Account> = Table::new();
    table.put(s("k1"), Account { role: Role::Creator, address: s("one") });
    table.put(s("k2"), Account { role: Role::Maker, address: s("two") });
    assert_eq!(table.get(&s("k1")), Some(&Account { role: Role::Creator, address: s("one") }));
    assert_eq!(table.get(&s("k2")), Some(&Account { role: Role::Maker, address: s("two") }));
    assert_eq!(table.get(&s("k3")), None);
}

#[test]
fn table_put_replaces_only_its_key() {
    let mut table: Table<Account> = Table::new();
    table.put(s("k1"), Account { role: Role::Creator, address: s("one") });
    table.put(s("k2"), Account { role: Role::Maker, address: s("two") });
    table.put(s("k3"), Account { role: Role::Maker, address: s("three") });
    table.put(s("k2"), Account { role: Role::Shopper, address: s("new") });
    assert_eq!(table.get(&s("k1")), Some(&Account { role: Role::Creator, address: s("one") }));
    assert_eq!(table.get(&s("k2")), Some(&Account { role: Role::Shopper, address: s("new") }));
    assert_eq!(table.get(&s("k3")), Some(&Account { role: Role::Maker, address: s("three") }));
}

#[test]
fn table_key_need_not_match_the_record() {
    let mut table: Table<NFT> = Table::new();
    table.put(s("key"), NFT { id: s("other"), owner: s("o"), metadata: s("m") });
    assert_eq!(table.get(&s("key")).unwrap().id, s("other"));
    assert!(table.get(&s("other")).is_none());
}

#[test]
fn table_holds_many_keys() {
    let mut table: Table<Listing> = Table::new();
    for i in 0..200i128 {
        table.put(
            format!("n{}", i),
            Listing { nft_id: format!("n{}", i), price: i, status: ListingStatus::Listed },
        );
    }
    for i in 0..200i128 {
        table.put(
            format!("n{}", i),
            Listing { nft_id: format!("n{}", i), price: i + 1000, status: ListingStatus::Sold },
        );
    }
    for i in 0..200i128 {
        let found = table.get(&format!("n{}", i)).unwrap();
        assert_eq!(found.price, i + 1000);
        assert_eq!(found.status, ListingStatus::Sold);
    }
    assert!(table.get(&s("n200")).is_none());
}

#[test]
fn new_ledger_is_empty() {
    let ledger = Ledger::new();
    assert_eq!(ledger.account(&s("k")), None);
    assert_eq!(ledger.job(&s("k")), None);
    assert_eq!(ledger.nft(&s("k")), None);
    assert_eq!(ledger.listing(&s("k")), None);
}

#[test]
fn ledger_key_spaces_are_apart() {
    let mut ledger = Ledger::new();
    ledger.set_account(s("k"), Account { role: Role::Maker, address: s("k") });
    assert_eq!(ledger.job(&s("k")), None);
    assert_eq!(ledger.nft(&s("k")), None);
    assert_eq!(ledger.listing(&s("k")), None);
    ledger.set_job(
        s("k"),
        Job { id: s("k"), creator: s("c"), maker: s("m"), price: 7, is_completed: true },
    );
    ledger.set_nft(s("k"), NFT { id: s("k"), owner: s("o"), metadata: s("d") });
    ledger.set_listing(s("k"), Listing { nft_id: s("k"), price: 9, status: ListingStatus::Sold });
    assert_eq!(ledger.account(&s("k")), Some(&Account { role: Role::Maker, address: s("k") }));
    assert_eq!(
        ledger.job(&s("k")),
        Some(&Job { id: s("k"), creator: s("c"), maker: s("m"), price: 7, is_completed: true })
    );
    assert_eq!(ledger.nft(&s("k")), Some(&NFT { id: s("k"), owner: s("o"), metadata: s("d") }));
    assert_eq!(
        ledger.listing(&s("k")),
        Some(&Listing { nft_id: s("k"), price: 9, status: ListingStatus::Sold })
    );
}
