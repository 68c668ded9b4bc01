//! The marketplace operations and the rules that gate them.
//!
//! Each operation reads the records it needs, checks every condition, and only
//! then writes: a rejected call leaves the ledger as it was. What an operation
//! does is stated by spec functions over the ledger's value: one for the
//! outcome, where the operation can fail, and one for the ledger afterwards,
//! where it writes.

use vstd::prelude::*;
use crate::ledger::{Ledger, LedgerView};
use crate::records::{
    outcome_is, Account, AccountView, Event, EventView, Job, JobView, Listing, ListingStatus,
    ListingView, MarketError, NFT, NFTView, Role,
};

verus! {

/// What a lookup of the account at `address` yields.
pub open spec fn account_at(s: LedgerView, address: Seq<char>) -> Result<AccountView, MarketError> {
    if s.accounts.contains_key(address) {
        Ok(s.accounts[address])
    } else {
        Err(MarketError::NotFound)
    }
}

/// What a lookup of the job `id` yields.
pub open spec fn job_at(s: LedgerView, id: Seq<char>) -> Result<JobView, MarketError> {
    if s.jobs.contains_key(id) {
        Ok(s.jobs[id])
    } else {
        Err(MarketError::NotFound)
    }
}

/// What a lookup of the NFT `id` yields.
pub open spec fn nft_at(s: LedgerView, id: Seq<char>) -> Result<NFTView, MarketError> {
    if s.nfts.contains_key(id) {
        Ok(s.nfts[id])
    } else {
        Err(MarketError::NotFound)
    }
}

/// What a lookup of the listing of the NFT `nft_id` yields.
pub open spec fn listing_at(s: LedgerView, nft_id: Seq<char>) -> Result<ListingView, MarketError> {
    if s.listings.contains_key(nft_id) {
        Ok(s.listings[nft_id])
    } else {
        Err(MarketError::NotFound)
    }
}

/// The ledger after an account was created: the record at `address` is new,
/// whatever stood there before.
pub open spec fn with_account(s: LedgerView, role: Role, address: Seq<char>) -> LedgerView {
    LedgerView { accounts: s.accounts.insert(address, AccountView { role, address }), ..s }
}

/// The ledger after a job was created: the record at `id` is new and not yet
/// completed, whatever stood there before.
pub open spec fn with_job(
    s: LedgerView,
    id: Seq<char>,
    creator: Seq<char>,
    maker: Seq<char>,
    price: i128,
) -> LedgerView {
    LedgerView {
        jobs: s.jobs.insert(id, JobView { id, creator, maker, price, is_completed: false }),
        ..s
    }
}

/// The outcome of completing the job `id`.
pub open spec fn complete_job_outcome(s: LedgerView, id: Seq<char>) -> Result<(), MarketError> {
    if s.jobs.contains_key(id) {
        Ok(())
    } else {
        Err(MarketError::NotFound)
    }
}

/// The ledger after the job `id` was asked to be completed: the job is marked
/// completed if it exists, and nothing changes if it does not.
pub open spec fn with_job_completed(s: LedgerView, id: Seq<char>) -> LedgerView {
    if s.jobs.contains_key(id) {
        LedgerView { jobs: s.jobs.insert(id, JobView { is_completed: true, ..s.jobs[id] }), ..s }
    } else {
        s
    }
}

/// The outcome of releasing the payment of the job `id`: the event to
/// announce, or the reason for the rejection.
pub open spec fn release_payment_outcome(s: LedgerView, id: Seq<char>) -> Result<
    EventView,
    MarketError,
> {
    if !s.jobs.contains_key(id) {
        Err(MarketError::NotFound)
    } else if !s.jobs[id].is_completed {
        Err(MarketError::InvalidState)
    } else {
        Ok(EventView::PaymentReleased(id))
    }
}

/// The ledger after an NFT was minted: the record at `id` is new, whatever
/// stood there before.
pub open spec fn with_nft(
    s: LedgerView,
    id: Seq<char>,
    owner: Seq<char>,
    metadata: Seq<char>,
) -> LedgerView {
    LedgerView { nfts: s.nfts.insert(id, NFTView { id, owner, metadata }), ..s }
}

/// The ledger after an NFT was listed: the listing at `nft_id` is new and
/// open, whatever stood there before.
pub open spec fn with_listing(s: LedgerView, nft_id: Seq<char>, price: i128) -> LedgerView {
    LedgerView {
        listings: s.listings.insert(
            nft_id,
            ListingView { nft_id, price, status: ListingStatus::Listed },
        ),
        ..s
    }
}

/// The outcome of buying the NFT `nft_id`: the event to announce, or the
/// reason for the rejection. The listing is looked at first, then the NFT.
pub open spec fn buy_nft_outcome(s: LedgerView, nft_id: Seq<char>) -> Result<
    EventView,
    MarketError,
> {
    if !s.listings.contains_key(nft_id) {
        Err(MarketError::NotFound)
    } else if s.listings[nft_id].status != ListingStatus::Listed {
        Err(MarketError::InvalidState)
    } else if !s.nfts.contains_key(nft_id) {
        Err(MarketError::NotFound)
    } else {
        Ok(EventView::NFTSold(nft_id))
    }
}

/// The ledger after `buyer` asked to buy the NFT `nft_id`: on success the
/// listing is sold and the NFT belongs to the buyer, both at once; on a
/// rejection nothing changes.
pub open spec fn with_nft_bought(s: LedgerView, nft_id: Seq<char>, buyer: Seq<char>) -> LedgerView {
    if buy_nft_outcome(s, nft_id) is Ok {
        LedgerView {
            listings: s.listings.insert(
                nft_id,
                ListingView { status: ListingStatus::Sold, ..s.listings[nft_id] },
            ),
            nfts: s.nfts.insert(nft_id, NFTView { owner: buyer, ..s.nfts[nft_id] }),
            ..s
        }
    } else {
        s
    }
}

/// The marketplace: the operations that callers reach the ledger through.
pub struct JobContract;

impl JobContract {
    /// Creates the account of `address` with the given role. An account that
    /// already exists at that address is replaced.
    pub fn create_account(ledger: &mut Ledger, role: Role, address: String)
        ensures
            final(ledger)@ == with_account(old(ledger)@, role, address@),
    {
        let account = Account { role, address: address.clone() };
        ledger.set_account(address, account);
    }

    /// Creates the job `id`, not yet completed. A job that already exists
    /// under that id is replaced. The price is taken as it comes.
    pub fn create_job(ledger: &mut Ledger, id: String, creator: String, maker: String, price: i128)
        ensures
            final(ledger)@ == with_job(old(ledger)@, id@, creator@, maker@, price),
    {
        let job = Job { id: id.clone(), creator, maker, price, is_completed: false };
        ledger.set_job(id, job);
    }

    /// Marks the job `id` as completed. Fails with `NotFound`, and changes
    /// nothing, where no such job exists.
    pub fn complete_job(ledger: &mut Ledger, id: String) -> (outcome: Result<(), MarketError>)
        ensures
            outcome == complete_job_outcome(old(ledger)@, id@),
            final(ledger)@ == with_job_completed(old(ledger)@, id@),
    {
        let completed = match ledger.job(&id) {
            Some(job) => Job {
                id: job.id.clone(),
                creator: job.creator.clone(),
                maker: job.maker.clone(),
                price: job.price,
                is_completed: true,
            },
            None => {
                return Err(MarketError::NotFound);
            },
        };
        ledger.set_job(id, completed);
        Ok(())
    }

    /// Releases the payment of the job `id`: returns the `PaymentReleased`
    /// event to announce. Fails with `NotFound` where no such job exists and
    /// with `InvalidState` where the job is not completed. The ledger is only
    /// read, so a release that succeeded once succeeds again.
    pub fn release_payment(ledger: &Ledger, id: String) -> (outcome: Result<Event, MarketError>)
        ensures
            outcome_is(outcome, release_payment_outcome(ledger@, id@)),
    {
        match ledger.job(&id) {
            None => Err(MarketError::NotFound),
            Some(job) => {
                if job.is_completed {
                    Ok(Event::PaymentReleased(id))
                } else {
                    Err(MarketError::InvalidState)
                }
            },
        }
    }

    /// Mints the NFT `nft_id` for `owner`. An NFT that already exists under
    /// that id is replaced.
    pub fn mint_nft(ledger: &mut Ledger, nft_id: String, owner: String, metadata: String)
        ensures
            final(ledger)@ == with_nft(old(ledger)@, nft_id@, owner@, metadata@),
    {
        let nft = NFT { id: nft_id.clone(), owner, metadata };
        ledger.set_nft(nft_id, nft);
    }

    /// Offers the NFT `nft_id` for sale at `price`. Neither the NFT's
    /// existence nor its owner is looked at.
    pub fn list_nft(ledger: &mut Ledger, nft_id: String, price: i128)
        ensures
            final(ledger)@ == with_listing(old(ledger)@, nft_id@, price),
    {
        let listing = Listing { nft_id: nft_id.clone(), price, status: ListingStatus::Listed };
        ledger.set_listing(nft_id, listing);
    }

    /// Sells the NFT `nft_id` to `buyer`: marks the listing sold, makes the
    /// buyer the owner, and returns the `NFTSold` event to announce. Fails with
    /// `NotFound` where the listing or the NFT is missing and with
    /// `InvalidState` where the listing is not open; a rejected call changes
    /// nothing.
    pub fn buy_nft(ledger: &mut Ledger, nft_id: String, buyer: String) -> (outcome: Result<
        Event,
        MarketError,
    >)
        ensures
            outcome_is(outcome, buy_nft_outcome(old(ledger)@, nft_id@)),
            final(ledger)@ == with_nft_bought(old(ledger)@, nft_id@, buyer@),
    {
        let sold = match ledger.listing(&nft_id) {
            None => {
                return Err(MarketError::NotFound);
            },
            Some(listing) => {
                match listing.status {
                    ListingStatus::Listed => Listing {
                        nft_id: listing.nft_id.clone(),
                        price: listing.price,
                        status: ListingStatus::Sold,
                    },
                    ListingStatus::Sold => {
                        return Err(MarketError::InvalidState);
                    },
                }
            },
        };
        let moved = match ledger.nft(&nft_id) {
            None => {
                return Err(MarketError::NotFound);
            },
            Some(nft) => NFT { id: nft.id.clone(), owner: buyer, metadata: nft.metadata.clone() },
        };
        ledger.set_listing(nft_id.clone(), sold);
        ledger.set_nft(nft_id.clone(), moved);
        Ok(Event::NFTSold(nft_id))
    }

    /// The job `id`. Fails with `NotFound` where no such job exists.
    pub fn get_job(ledger: &Ledger, id: String) -> (outcome: Result<Job, MarketError>)
        ensures
            outcome_is(outcome, job_at(ledger@, id@)),
    {
        match ledger.job(&id) {
            Some(job) => Ok(job.clone()),
            None => Err(MarketError::NotFound),
        }
    }

    /// The account of `address`. Fails with `NotFound` where no such account
    /// exists.
    pub fn get_account(ledger: &Ledger, address: String) -> (outcome: Result<Account, MarketError>)
        ensures
            outcome_is(outcome, account_at(ledger@, address@)),
    {
        match ledger.account(&address) {
            Some(account) => Ok(account.clone()),
            None => Err(MarketError::NotFound),
        }
    }

    /// The NFT `nft_id`. Fails with `NotFound` where no such NFT exists.
    pub fn get_nft(ledger: &Ledger, nft_id: String) -> (outcome: Result<NFT, MarketError>)
        ensures
            outcome_is(outcome, nft_at(ledger@, nft_id@)),
    {
        match ledger.nft(&nft_id) {
            Some(nft) => Ok(nft.clone()),
            None => Err(MarketError::NotFound),
        }
    }
}

} // verus!
