//! The records that the ledger keeps, the events it announces and the errors
//! it reports, each with the mathematical value that contracts speak of.
//!
//! Identities and identifiers are opaque text: the ledger only stores them and
//! compares them for equality.

use vstd::prelude::*;

verus! {

/// The part an account plays in the marketplace.
#[derive(Clone, Copy, Debug, PartialEq, Eq, Structural)]
pub enum Role {
    Creator,
    Maker,
    Shopper,
}

/// Whether a listing can still be bought.
#[derive(Clone, Copy, Debug, PartialEq, Eq, Structural)]
pub enum ListingStatus {
    Listed,
    Sold,
}

/// Why an operation was rejected.
#[derive(Clone, Copy, Debug, PartialEq, Eq, Structural)]
pub enum MarketError {
    /// No record is stored under the key that the operation addressed.
    NotFound,
    /// The addressed record is not in the state that the operation needs.
    InvalidState,
}

/// A role-tagged account, keyed by its address.
#[derive(Debug, PartialEq, Eq)]
pub struct Account {
    pub role: Role,
    pub address: String,
}

/// The value of an [`Account`].
pub struct AccountView {
    pub role: Role,
    pub address: Seq<char>,
}

impl View for Account {
    type V = AccountView;

    open spec fn view(&self) -> AccountView {
        AccountView { role: self.role, address: self.address@ }
    }
}

impl Clone for Account {
    fn clone(&self) -> (copy: Self)
        ensures
            copy@ == self@,
    {
        Account { role: self.role, address: self.address.clone() }
    }
}

/// A piece of work that a creator pays a maker for, keyed by its id.
#[derive(Debug, PartialEq, Eq)]
pub struct Job {
    pub id: String,
    pub creator: String,
    pub maker: String,
    pub price: i128,
    pub is_completed: bool,
}

/// The value of a [`Job`].
pub struct JobView {
    pub id: Seq<char>,
    pub creator: Seq<char>,
    pub maker: Seq<char>,
    pub price: i128,
    pub is_completed: bool,
}

impl View for Job {
    type V = JobView;

    open spec fn view(&self) -> JobView {
        JobView {
            id: self.id@,
            creator: self.creator@,
            maker: self.maker@,
            price: self.price,
            is_completed: self.is_completed,
        }
    }
}

impl Clone for Job {
    fn clone(&self) -> (copy: Self)
        ensures
            copy@ == self@,
    {
        Job {
            id: self.id.clone(),
            creator: self.creator.clone(),
            maker: self.maker.clone(),
            price: self.price,
            is_completed: self.is_completed,
        }
    }
}

/// A token with an owner and free-form metadata, keyed by its id.
#[derive(Debug, PartialEq, Eq)]
pub struct NFT {
    pub id: String,
    pub owner: String,
    pub metadata: String,
}

/// The value of an [`NFT`].
pub struct NFTView {
    pub id: Seq<char>,
    pub owner: Seq<char>,
    pub metadata: Seq<char>,
}

impl View for NFT {
    type V = NFTView;

    open spec fn view(&self) -> NFTView {
        NFTView { id: self.id@, owner: self.owner@, metadata: self.metadata@ }
    }
}

impl Clone for NFT {
    fn clone(&self) -> (copy: Self)
        ensures
            copy@ == self@,
    {
        NFT { id: self.id.clone(), owner: self.owner.clone(), metadata: self.metadata.clone() }
    }
}

/// An offer to sell one NFT at a price, keyed by the NFT's id.
#[derive(Debug, PartialEq, Eq)]
pub struct Listing {
    pub nft_id: String,
    pub price: i128,
    pub status: ListingStatus,
}

/// The value of a [`Listing`].
pub struct ListingView {
    pub nft_id: Seq<char>,
    pub price: i128,
    pub status: ListingStatus,
}

impl View for Listing {
    type V = ListingView;

    open spec fn view(&self) -> ListingView {
        ListingView { nft_id: self.nft_id@, price: self.price, status: self.status }
    }
}

impl Clone for Listing {
    fn clone(&self) -> (copy: Self)
        ensures
            copy@ == self@,
    {
        Listing { nft_id: self.nft_id.clone(), price: self.price, status: self.status }
    }
}

/// A notification for outside observers. Each carries the identifier of the
/// record that it is about.
#[derive(Debug, PartialEq, Eq)]
pub enum Event {
    /// The payment of the job with this id was released.
    PaymentReleased(String),
    /// The NFT with this id was sold.
    NFTSold(String),
}

/// The value of an [`Event`].
pub enum EventView {
    PaymentReleased(Seq<char>),
    NFTSold(Seq<char>),
}

impl View for Event {
    type V = EventView;

    open spec fn view(&self) -> EventView {
        match self {
            Event::PaymentReleased(id) => EventView::PaymentReleased(id@),
            Event::NFTSold(id) => EventView::NFTSold(id@),
        }
    }
}

impl Event {
    /// The name under which observers know this kind of event.
    pub fn name(&self) -> (name: &'static str)
        ensures
            name@ == (match self {
                Event::PaymentReleased(_) => "PaymentReleased"@,
                Event::NFTSold(_) => "NFTSold"@,
            }),
    {
        match self {
            Event::PaymentReleased(_) => "PaymentReleased",
            Event::NFTSold(_) => "NFTSold",
        }
    }

    /// The identifier that this event carries.
    pub fn subject(&self) -> (id: &String)
        ensures
            id@ == (match self@ {
                EventView::PaymentReleased(id) => id,
                EventView::NFTSold(id) => id,
            }),
    {
        match self {
            Event::PaymentReleased(id) => id,
            Event::NFTSold(id) => id,
        }
    }
}

/// `got` is the outcome `expected`, taken by value.
pub open spec fn outcome_is<T: View>(
    got: Result<T, MarketError>,
    expected: Result<T::V, MarketError>,
) -> bool {
    match got {
        Ok(val) => expected == Ok::<T::V, MarketError>(val@),
        Err(err) => expected == Err::<T::V, MarketError>(err),
    }
}

} // verus!
