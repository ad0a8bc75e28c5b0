//! What the registry tells the outside world of each change it makes.

use vstd::prelude::*;
use crate::address::Address;
use crate::state::{BoatType, BoatTypeView};

verus! {

/// A boat was registered.
#[derive(Debug, PartialEq, Eq)]
pub struct BoatMinted {
    pub mint: Address,
    pub owner: Address,
    pub name: String,
    pub boat_type: BoatType,
    pub registration_number: String,
    pub price: u64,
    pub fee: u64,
}

/// `BoatMinted` as a mathematical value.
pub struct BoatMintedView {
    pub mint: Address,
    pub owner: Address,
    pub name: Seq<char>,
    pub boat_type: BoatTypeView,
    pub registration_number: Seq<char>,
    pub price: u64,
    pub fee: u64,
}

impl View for BoatMinted {
    type V = BoatMintedView;

    open spec fn view(&self) -> BoatMintedView {
        BoatMintedView {
            mint: self.mint,
            owner: self.owner,
            name: self.name@,
            boat_type: self.boat_type@,
            registration_number: self.registration_number@,
            price: self.price,
            fee: self.fee,
        }
    }
}

impl Clone for BoatMinted {
    fn clone(&self) -> (copy: BoatMinted)
        ensures
            copy == *self,
    {
        BoatMinted {
            mint: self.mint,
            owner: self.owner,
            name: self.name.clone(),
            boat_type: self.boat_type.clone(),
            registration_number: self.registration_number.clone(),
            price: self.price,
            fee: self.fee,
        }
    }
}

/// The protocol fee of a registration was paid.
#[derive(Clone, Copy, Debug, PartialEq, Eq)]
pub struct FeeCollected {
    pub mint: Address,
    pub payer: Address,
    pub amount: u64,
}

/// One field of a boat's record was overwritten.
#[derive(Debug, PartialEq, Eq)]
pub struct MetadataUpdated {
    pub mint: Address,
    /// The field's name.
    pub field: String,
    /// The field's new value, as text.
    pub new_value: String,
}

/// `MetadataUpdated` as a mathematical value.
pub struct MetadataUpdatedView {
    pub mint: Address,
    pub field: Seq<char>,
    pub new_value: Seq<char>,
}

impl View for MetadataUpdated {
    type V = MetadataUpdatedView;

    open spec fn view(&self) -> MetadataUpdatedView {
        MetadataUpdatedView { mint: self.mint, field: self.field@, new_value: self.new_value@ }
    }
}

impl Clone for MetadataUpdated {
    fn clone(&self) -> (copy: MetadataUpdated)
        ensures
            copy == *self,
    {
        MetadataUpdated {
            mint: self.mint,
            field: self.field.clone(),
            new_value: self.new_value.clone(),
        }
    }
}

/// A boat's ownership unit went from one holder to another.
#[derive(Clone, Copy, Debug, PartialEq, Eq)]
pub struct OwnershipTransferred {
    pub mint: Address,
    pub from: Address,
    pub to: Address,
}

/// Any one of the registry's events.
#[derive(Debug, PartialEq, Eq)]
pub enum Event {
    BoatMinted(BoatMinted),
    FeeCollected(FeeCollected),
    MetadataUpdated(MetadataUpdated),
    OwnershipTransferred(OwnershipTransferred),
}

/// An event as a mathematical value.
pub enum EventView {
    BoatMinted(BoatMintedView),
    FeeCollected(FeeCollected),
    MetadataUpdated(MetadataUpdatedView),
    OwnershipTransferred(OwnershipTransferred),
}

impl View for Event {
    type V = EventView;

    open spec fn view(&self) -> EventView {
        match self {
            Event::BoatMinted(event) => EventView::BoatMinted(event@),
            Event::FeeCollected(event) => EventView::FeeCollected(*event),
            Event::MetadataUpdated(event) => EventView::MetadataUpdated(event@),
            Event::OwnershipTransferred(event) => EventView::OwnershipTransferred(*event),
        }
    }
}

impl Clone for Event {
    fn clone(&self) -> (copy: Event)
        ensures
            copy == *self,
    {
        match self {
            Event::BoatMinted(event) => Event::BoatMinted(event.clone()),
            Event::FeeCollected(event) => Event::FeeCollected(*event),
            Event::MetadataUpdated(event) => Event::MetadataUpdated(event.clone()),
            Event::OwnershipTransferred(event) => Event::OwnershipTransferred(*event),
        }
    }
}

/// A run of events, in the order of their emission, as mathematical values.
pub open spec fn events_view(events: Seq<Event>) -> Seq<EventView> {
    events.map_values(|event: Event| event@)
}

} // verus!
