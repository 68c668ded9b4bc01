//! The store behind the marketplace: four key spaces, one per kind of record.
//!
//! Accounts are keyed by address, jobs by job id, NFTs and listings by NFT id.
//! An NFT and its listing share an identifier but never a slot: each kind of
//! record has a key space of its own. Records are written and read whole;
//! nothing is ever deleted.
//!
//! The ledger is the store, not the rules: it keeps whatever it is given under
//! the key it is given. The rules are those of the marketplace operations.

use vstd::prelude::*;
use crate::records::{Account, AccountView, Job, JobView, Listing, ListingView, NFT, NFTView};
use crate::table::Table;

verus! {

/// The value of a [`Ledger`]: what each key space holds.
pub struct LedgerView {
    pub accounts: Map<Seq<char>, AccountView>,
    pub jobs: Map<Seq<char>, JobView>,
    pub nfts: Map<Seq<char>, NFTView>,
    pub listings: Map<Seq<char>, ListingView>,
}

impl LedgerView {
    /// The ledger in which nothing was ever stored.
    pub open spec fn empty() -> LedgerView {
        LedgerView {
            accounts: Map::empty(),
            jobs: Map::empty(),
            nfts: Map::empty(),
            listings: Map::empty(),
        }
    }
}

/// The store that every marketplace operation works on.
pub struct Ledger {
    accounts: Table<Account>,
    jobs: Table<Job>,
    nfts: Table<NFT>,
    listings: Table<Listing>,
}

impl View for Ledger {
    type V = LedgerView;

    closed spec fn view(&self) -> LedgerView {
        LedgerView {
            accounts: self.accounts@,
            jobs: self.jobs@,
            nfts: self.nfts@,
            listings: self.listings@,
        }
    }
}

impl Ledger {
    /// A ledger that holds no record.
    pub fn new() -> (ledger: Self)
        ensures
            ledger@ == LedgerView::empty(),
    {
        Ledger {
            accounts: Table::new(),
            jobs: Table::new(),
            nfts: Table::new(),
            listings: Table::new(),
        }
    }

    /// The account stored under `address`, if there is one.
    pub fn account(&self, address: &String) -> (found: Option<&Account>)
        ensures
            match found {
                Some(account) => self@.accounts.contains_key(address@)
                    && account@ == self@.accounts[address@],
                None => !self@.accounts.contains_key(address@),
            },
    {
        self.accounts.get(address)
    }

    /// Stores `account` under `address`. Only the account key space changes.
    pub fn set_account(&mut self, address: String, account: Account)
        ensures
            final(self)@ == (LedgerView {
                accounts: old(self)@.accounts.insert(address@, account@),
                ..old(self)@
            }),
    {
        self.accounts.put(address, account);
    }

    /// The job stored under `id`, if there is one.
    pub fn job(&self, id: &String) -> (found: Option<&Job>)
        ensures
            match found {
                Some(job) => self@.jobs.contains_key(id@) && job@ == self@.jobs[id@],
                None => !self@.jobs.contains_key(id@),
            },
    {
        self.jobs.get(id)
    }

    /// Stores `job` under `id`. Only the job key space changes.
    pub fn set_job(&mut self, id: String, job: Job)
        ensures
            final(self)@ == (LedgerView {
                jobs: old(self)@.jobs.insert(id@, job@),
                ..old(self)@
            }),
    {
        self.jobs.put(id, job);
    }

    /// The NFT stored under `id`, if there is one.
    pub fn nft(&self, id: &String) -> (found: Option<&NFT>)
        ensures
            match found {
                Some(nft) => self@.nfts.contains_key(id@) && nft@ == self@.nfts[id@],
                None => !self@.nfts.contains_key(id@),
            },
    {
        self.nfts.get(id)
    }

    /// Stores `nft` under `id`. Only the NFT key space changes.
    pub fn set_nft(&mut self, id: String, nft: NFT)
        ensures
            final(self)@ == (LedgerView {
                nfts: old(self)@.nfts.insert(id@, nft@),
                ..old(self)@
            }),
    {
        self.nfts.put(id, nft);
    }

    /// The listing stored under `nft_id`, if there is one.
    pub fn listing(&self, nft_id: &String) -> (found: Option<&Listing>)
        ensures
            match found {
                Some(listing) => self@.listings.contains_key(nft_id@)
                    && listing@ == self@.listings[nft_id@],
                None => !self@.listings.contains_key(nft_id@),
            },
    {
        self.listings.get(nft_id)
    }

    /// Stores `listing` under `nft_id`. Only the listing key space changes.
    pub fn set_listing(&mut self, nft_id: String, listing: Listing)
        ensures
            final(self)@ == (LedgerView {
                listings: old(self)@.listings.insert(nft_id@, listing@),
                ..old(self)@
            }),
    {
        self.listings.put(nft_id, listing);
    }
}

} // verus!
