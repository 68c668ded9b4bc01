//! What holds of the marketplace whatever the ledger and the arguments are,
//! stated over the spec functions that the operations' contracts use.

use vstd::prelude::*;
use crate::ledger::LedgerView;
use crate::market::{
    account_at, buy_nft_outcome, complete_job_outcome, job_at, listing_at, nft_at,
    release_payment_outcome, with_account, with_job, with_job_completed, with_listing, with_nft,
    with_nft_bought,
};
use crate::records::{
    AccountView, EventView, JobView, ListingStatus, ListingView, MarketError, NFTView, Role,
};

verus! {

/// An account that was just created is found at its address, with the role and
/// the address it was created with.
pub proof fn law_created_account_is_found(s: LedgerView, role: Role, address: Seq<char>)
    ensures
        account_at(with_account(s, role, address), address) == Ok::<AccountView, MarketError>(
            AccountView { role, address },
        ),
{
}

/// A job that was just created is found under its id, as it was given and not
/// completed.
pub proof fn law_created_job_is_open(
    s: LedgerView,
    id: Seq<char>,
    creator: Seq<char>,
    maker: Seq<char>,
    price: i128,
)
    ensures
        job_at(with_job(s, id, creator, maker, price), id) == Ok::<JobView, MarketError>(
            JobView { id, creator, maker, price, is_completed: false },
        ),
{
}

/// Completing an existing job succeeds, and the job is then found completed
/// and otherwise unchanged.
pub proof fn law_completed_job_is_completed(s: LedgerView, id: Seq<char>)
    requires
        job_at(s, id) is Ok,
    ensures
        complete_job_outcome(s, id) == Ok::<(), MarketError>(()),
        job_at(with_job_completed(s, id), id) == Ok::<JobView, MarketError>(
            JobView { is_completed: true, ..job_at(s, id)->Ok_0 },
        ),
{
}

/// Completing a job twice leaves the ledger as completing it once does, and
/// the second call has the outcome of the first.
pub proof fn law_completion_is_idempotent(s: LedgerView, id: Seq<char>)
    ensures
        with_job_completed(with_job_completed(s, id), id) == with_job_completed(s, id),
        complete_job_outcome(with_job_completed(s, id), id) == complete_job_outcome(s, id),
{
    let once = with_job_completed(s, id);
    let twice = with_job_completed(once, id);
    assert(twice.jobs =~= once.jobs);
}

/// Completing one job never reopens a job: whatever was completed before is
/// still completed afterwards.
pub proof fn law_completion_never_reopens(s: LedgerView, id: Seq<char>, other: Seq<char>)
    requires
        s.jobs.contains_key(other),
        s.jobs[other].is_completed,
    ensures
        with_job_completed(s, id).jobs.contains_key(other),
        with_job_completed(s, id).jobs[other].is_completed,
{
}

/// The payment of a job that is not completed is not released: the call is
/// rejected with `InvalidState`.
pub proof fn law_open_job_is_not_paid(s: LedgerView, id: Seq<char>)
    requires
        job_at(s, id) is Ok,
        !job_at(s, id)->Ok_0.is_completed,
    ensures
        release_payment_outcome(s, id) == Err::<EventView, MarketError>(MarketError::InvalidState),
{
}

/// The payment of a job is released exactly when the job exists and is
/// completed, and the event then carries the job's id.
pub proof fn law_payment_needs_completion(s: LedgerView, id: Seq<char>)
    ensures
        release_payment_outcome(s, id) is Ok <==> (job_at(s, id) is Ok && job_at(
            s,
            id,
        )->Ok_0.is_completed),
        release_payment_outcome(s, id) is Ok ==> release_payment_outcome(s, id)
            == Ok::<EventView, MarketError>(EventView::PaymentReleased(id)),
{
}

/// Once a job was completed, its payment is released on every call: the
/// release reads the ledger and leaves it as it is, so nothing blocks the
/// next one.
pub proof fn law_completed_job_is_paid(s: LedgerView, id: Seq<char>)
    requires
        job_at(s, id) is Ok,
    ensures
        release_payment_outcome(with_job_completed(s, id), id) == Ok::<EventView, MarketError>(
            EventView::PaymentReleased(id),
        ),
{
}

/// An NFT that was just minted is found under its id, with the owner and the
/// metadata it was minted with.
pub proof fn law_minted_nft_is_found(
    s: LedgerView,
    id: Seq<char>,
    owner: Seq<char>,
    metadata: Seq<char>,
)
    ensures
        nft_at(with_nft(s, id, owner, metadata), id) == Ok::<NFTView, MarketError>(
            NFTView { id, owner, metadata },
        ),
{
}

/// Listing an existing NFT and then buying it succeeds: the buyer owns the
/// NFT, whose id and metadata are as before, and the listing is sold at the
/// listed price.
pub proof fn law_listed_nft_is_bought(
    s: LedgerView,
    nft_id: Seq<char>,
    price: i128,
    buyer: Seq<char>,
)
    requires
        nft_at(s, nft_id) is Ok,
    ensures
        ({
            let listed = with_listing(s, nft_id, price);
            let bought = with_nft_bought(listed, nft_id, buyer);
            &&& buy_nft_outcome(listed, nft_id) == Ok::<EventView, MarketError>(
                EventView::NFTSold(nft_id),
            )
            &&& nft_at(bought, nft_id) == Ok::<NFTView, MarketError>(
                NFTView { owner: buyer, ..nft_at(s, nft_id)->Ok_0 },
            )
            &&& listing_at(bought, nft_id) == Ok::<ListingView, MarketError>(
                ListingView { nft_id, price, status: ListingStatus::Sold },
            )
        }),
{
}

/// Listing an NFT that does not exist and then buying it is rejected with
/// `NotFound`, and the listing stays open.
pub proof fn law_listing_without_nft_is_not_bought(
    s: LedgerView,
    nft_id: Seq<char>,
    price: i128,
    buyer: Seq<char>,
)
    requires
        nft_at(s, nft_id) is Err,
    ensures
        ({
            let listed = with_listing(s, nft_id, price);
            &&& buy_nft_outcome(listed, nft_id) == Err::<EventView, MarketError>(
                MarketError::NotFound,
            )
            &&& with_nft_bought(listed, nft_id, buyer) == listed
        }),
{
}

/// A listing that is sold cannot be bought: the call is rejected with
/// `InvalidState` and changes nothing.
pub proof fn law_sold_listing_is_not_bought(s: LedgerView, nft_id: Seq<char>, buyer: Seq<char>)
    requires
        listing_at(s, nft_id) is Ok,
        listing_at(s, nft_id)->Ok_0.status == ListingStatus::Sold,
    ensures
        buy_nft_outcome(s, nft_id) == Err::<EventView, MarketError>(MarketError::InvalidState),
        with_nft_bought(s, nft_id, buyer) == s,
{
}

/// After a purchase that succeeded, a second purchase of the same NFT is
/// rejected with `InvalidState`, whoever the second buyer is.
pub proof fn law_second_purchase_is_rejected(
    s: LedgerView,
    nft_id: Seq<char>,
    first: Seq<char>,
    second: Seq<char>,
)
    requires
        buy_nft_outcome(s, nft_id) is Ok,
    ensures
        ({
            let bought = with_nft_bought(s, nft_id, first);
            &&& buy_nft_outcome(bought, nft_id) == Err::<EventView, MarketError>(
                MarketError::InvalidState,
            )
            &&& with_nft_bought(bought, nft_id, second) == bought
        }),
{
}

/// A purchase never reopens a listing: whatever was sold before is still sold
/// afterwards.
pub proof fn law_purchase_never_relists(
    s: LedgerView,
    nft_id: Seq<char>,
    buyer: Seq<char>,
    other: Seq<char>,
)
    requires
        s.listings.contains_key(other),
        s.listings[other].status == ListingStatus::Sold,
    ensures
        with_nft_bought(s, nft_id, buyer).listings.contains_key(other),
        with_nft_bought(s, nft_id, buyer).listings[other].status == ListingStatus::Sold,
{
}

/// An operation that is rejected leaves the ledger as it was.
pub proof fn law_rejected_call_changes_nothing(s: LedgerView, key: Seq<char>, buyer: Seq<char>)
    ensures
        complete_job_outcome(s, key) is Err ==> with_job_completed(s, key) == s,
        buy_nft_outcome(s, key) is Err ==> with_nft_bought(s, key, buyer) == s,
{
}

/// A purchase succeeds exactly when the listing exists and is open and the
/// NFT exists. The listing is then sold and the NFT belongs to the buyer, and
/// nothing else about either has changed.
pub proof fn law_purchase_needs_open_listing(s: LedgerView, nft_id: Seq<char>, buyer: Seq<char>)
    ensures
        buy_nft_outcome(s, nft_id) is Ok <==> (listing_at(s, nft_id) is Ok && listing_at(
            s,
            nft_id,
        )->Ok_0.status == ListingStatus::Listed && nft_at(s, nft_id) is Ok),
        buy_nft_outcome(s, nft_id) is Ok ==> ({
            let bought = with_nft_bought(s, nft_id, buyer);
            &&& buy_nft_outcome(s, nft_id) == Ok::<EventView, MarketError>(
                EventView::NFTSold(nft_id),
            )
            &&& listing_at(bought, nft_id) == Ok::<ListingView, MarketError>(
                ListingView { status: ListingStatus::Sold, ..listing_at(s, nft_id)->Ok_0 },
            )
            &&& nft_at(bought, nft_id) == Ok::<NFTView, MarketError>(
                NFTView { owner: buyer, ..nft_at(s, nft_id)->Ok_0 },
            )
        }),
{
}

/// A lookup under a key that was never written is rejected with `NotFound`,
/// in every key space.
pub proof fn law_unused_key_is_not_found(s: LedgerView, key: Seq<char>)
    ensures
        !s.accounts.contains_key(key) ==> account_at(s, key) == Err::<AccountView, MarketError>(
            MarketError::NotFound,
        ),
        !s.jobs.contains_key(key) ==> job_at(s, key) == Err::<JobView, MarketError>(
            MarketError::NotFound,
        ),
        !s.nfts.contains_key(key) ==> nft_at(s, key) == Err::<NFTView, MarketError>(
            MarketError::NotFound,
        ),
        !s.listings.contains_key(key) ==> listing_at(s, key) == Err::<ListingView, MarketError>(
            MarketError::NotFound,
        ),
        account_at(LedgerView::empty(), key) == Err::<AccountView, MarketError>(
            MarketError::NotFound,
        ),
        job_at(LedgerView::empty(), key) == Err::<JobView, MarketError>(MarketError::NotFound),
        nft_at(LedgerView::empty(), key) == Err::<NFTView, MarketError>(MarketError::NotFound),
        listing_at(LedgerView::empty(), key) == Err::<ListingView, MarketError>(
            MarketError::NotFound,
        ),
{
}

/// The key spaces are apart: an operation on one kind of record leaves the
/// records of the other kinds as they were.
pub proof fn law_key_spaces_are_apart(
    s: LedgerView,
    key: Seq<char>,
    role: Role,
    other: Seq<char>,
    text: Seq<char>,
    price: i128,
)
    ensures
        with_account(s, role, key).jobs == s.jobs,
        with_account(s, role, key).nfts == s.nfts,
        with_account(s, role, key).listings == s.listings,
        with_job(s, key, other, text, price).accounts == s.accounts,
        with_job(s, key, other, text, price).nfts == s.nfts,
        with_job(s, key, other, text, price).listings == s.listings,
        with_job_completed(s, key).accounts == s.accounts,
        with_job_completed(s, key).nfts == s.nfts,
        with_job_completed(s, key).listings == s.listings,
        with_nft(s, key, other, text).accounts == s.accounts,
        with_nft(s, key, other, text).jobs == s.jobs,
        with_nft(s, key, other, text).listings == s.listings,
        with_listing(s, key, price).accounts == s.accounts,
        with_listing(s, key, price).jobs == s.jobs,
        with_listing(s, key, price).nfts == s.nfts,
        with_nft_bought(s, key, other).accounts == s.accounts,
        with_nft_bought(s, key, other).jobs == s.jobs,
{
}

} // verus!
