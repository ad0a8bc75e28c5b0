//! What the registry takes for granted of its host, written down as a model,
//! and what then holds of the two together.
//!
//! The host keeps the records, creates each address at most once, moves
//! native currency, and keeps the ledger of ownership units. An operation of
//! the registry decides; the host then carries out what the operation
//! returned, all of it or none. The model says what carrying out means, and
//! the laws below are proved of it.

use vstd::prelude::*;
use crate::address::{same_address_is_same_bytes, Address};
use crate::effects::{CurrencyTransfer, IssueUnitView, TransferUnit};
use crate::error::ErrorCode;
use crate::events::{BoatMintedView, EventView};
use crate::fee::{fee_charged, fee_quotient};
use crate::instructions::{
    mint_outcome, transfer_outcome, update_outcome, InitializeConfig, MintBoatNft, MintedView,
    TransferBoatOwnership, TransferredView,
};
use crate::state::{BoatNFTView, BoatTypeView, Config, TokenAccount};

verus! {

/// The state of the host, as far as the registry depends on it.
pub struct Host {
    /// The addresses at which something has been created.
    pub created: Set<Address>,
    /// The configuration records, by address.
    pub configs: Map<Address, Config>,
    /// The boat records, by address.
    pub boats: Map<Address, BoatNFTView>,
    /// The unit ledger: how many units of an ownership unit a holder has,
    /// by unit and holder. A pair that is absent stands for none.
    pub units: Map<(Address, Address), nat>,
    /// Native currency, by holder. A holder that is absent has none.
    pub currency: Map<Address, nat>,
}

impl Host {
    /// How many units of `unit` the address `holder` has.
    pub open spec fn balance_of(self, unit: Address, holder: Address) -> nat {
        if self.units.dom().contains((unit, holder)) {
            self.units[(unit, holder)]
        } else {
            0
        }
    }

    /// How much native currency the address `holder` has.
    pub open spec fn funds_of(self, holder: Address) -> nat {
        if self.currency.dom().contains(holder) {
            self.currency[holder]
        } else {
            0
        }
    }

    /// Creates `address`. An address can be created once only.
    pub open spec fn create(self, address: Address) -> Option<Host> {
        if self.created.contains(address) {
            None
        } else {
            Some(Host { created: self.created.insert(address), ..self })
        }
    }

    /// Moves native currency. The payer must have the amount.
    pub open spec fn pay(self, transfer: CurrencyTransfer) -> Option<Host> {
        if self.funds_of(transfer.from) < transfer.amount {
            None
        } else {
            let debited = Host {
                currency: self.currency.insert(
                    transfer.from,
                    (self.funds_of(transfer.from) - transfer.amount) as nat,
                ),
                ..self
            };
            Some(
                Host {
                    currency: debited.currency.insert(
                        transfer.to,
                        debited.funds_of(transfer.to) + transfer.amount as nat,
                    ),
                    ..self
                },
            )
        }
    }

    /// Issues units of an ownership unit to a holder.
    pub open spec fn issue_unit(self, issue: IssueUnitView) -> Host {
        Host {
            units: self.units.insert(
                (issue.mint, issue.to),
                self.balance_of(issue.mint, issue.to) + issue.amount as nat,
            ),
            ..self
        }
    }

    /// Moves units of an ownership unit from one holder to another. The
    /// holder who gives must have them.
    pub open spec fn transfer_unit(self, transfer: TransferUnit) -> Option<Host> {
        if self.balance_of(transfer.mint, transfer.from) < transfer.amount {
            None
        } else {
            let debited = Host {
                units: self.units.insert(
                    (transfer.mint, transfer.from),
                    (self.balance_of(transfer.mint, transfer.from) - transfer.amount) as nat,
                ),
                ..self
            };
            Some(
                Host {
                    units: debited.units.insert(
                        (transfer.mint, transfer.to),
                        debited.balance_of(transfer.mint, transfer.to) + transfer.amount as nat,
                    ),
                    ..self
                },
            )
        }
    }

    /// Carries out the setting up of a configuration: creates the record's
    /// address and stores the configuration there.
    pub open spec fn install(self, ctx: InitializeConfig, config: Config) -> Option<Host> {
        match self.create(ctx.config) {
            Some(host) => Some(Host { configs: host.configs.insert(ctx.config, config), ..host }),
            None => None,
        }
    }

    /// Carries out a registration: creates the ownership unit and the
    /// record's address, moves the fee where one is owed, issues the unit
    /// and stores the record. Where one step fails nothing has happened.
    pub open spec fn register(self, ctx: MintBoatNft, minted: MintedView) -> Option<Host> {
        match self.create(ctx.mint) {
            Some(host) => match host.create(ctx.boat_nft) {
                Some(host) => {
                    let paid = match minted.fee_transfer {
                        Some(transfer) => host.pay(transfer),
                        None => Some(host),
                    };
                    match paid {
                        Some(host) => {
                            let host = host.issue_unit(minted.issue);
                            Some(
                                Host {
                                    boats: host.boats.insert(ctx.boat_nft, minted.boat_nft),
                                    ..host
                                },
                            )
                        },
                        None => None,
                    }
                },
                None => None,
            },
            None => None,
        }
    }

    /// Carries out an update: stores the record that the update left.
    pub open spec fn update(self, at: Address, boat_nft: BoatNFTView) -> Host {
        Host { boats: self.boats.insert(at, boat_nft), ..self }
    }

    /// Carries out a transfer of ownership: moves the unit and stores the
    /// record that the transfer left.
    pub open spec fn hand_over(
        self,
        at: Address,
        boat_nft: BoatNFTView,
        transferred: TransferredView,
    ) -> Option<Host> {
        match self.transfer_unit(transferred.unit_transfer) {
            Some(host) => Some(Host { boats: host.boats.insert(at, boat_nft), ..host }),
            None => None,
        }
    }

    /// The holding is what the unit ledger says of its unit and its holder.
    pub open spec fn holds(self, holding: TokenAccount) -> bool {
        holding.amount == self.balance_of(holding.mint, holding.owner)
    }

    /// What holds of the host in every state that the registry's operations
    /// lead to: every record lies at a created address and belongs to a
    /// created ownership unit; no two records belong to the same unit; units
    /// exist only of created ownership units; and of each record's unit
    /// there is exactly one, held by the record's owner.
    pub open spec fn consistent(self) -> bool {
        &&& forall|at: Address| #[trigger]
            self.boats.dom().contains(at) ==> self.created.contains(at) && self.created.contains(
                self.boats[at].mint,
            )
        &&& forall|at: Address, other: Address|
            #![trigger self.boats[at], self.boats[other]]
            self.boats.dom().contains(at) && self.boats.dom().contains(other)
                && self.boats[at].mint == self.boats[other].mint ==> at == other
        &&& forall|unit: Address, holder: Address| #[trigger]
            self.balance_of(unit, holder) > 0 ==> self.created.contains(unit)
        &&& forall|at: Address, holder: Address|
            #![trigger self.boats[at], self.balance_of(self.boats[at].mint, holder)]
            self.boats.dom().contains(at) ==> self.balance_of(self.boats[at].mint, holder) == (
            if holder == self.boats[at].owner {
                1nat
            } else {
                0nat
            })
    }
}

/// A governing authority has one configuration: once the configuration of
/// an authority has been set up, the host refuses to set it up again.
pub proof fn law_one_configuration_per_authority(
    host: Host,
    program_id: Address,
    first: InitializeConfig,
    first_config: Config,
    second: InitializeConfig,
    second_config: Config,
)
    requires
        first.resolved(program_id),
        second.resolved(program_id),
        first.authority == second.authority,
        host.install(first, first_config) is Some,
    ensures
        host.install(first, first_config).unwrap().install(second, second_config) is None,
{
    same_address_is_same_bytes(first.config, second.config);
}

/// A boat is registered once: after a registration by an owner under a
/// registration number, the host refuses every other registration by the
/// same owner under the same number, whatever else it says of the boat.
pub proof fn law_registration_is_unique(
    host: Host,
    program_id: Address,
    registration_number: Seq<char>,
    first: MintBoatNft,
    first_minted: MintedView,
    second: MintBoatNft,
    second_minted: MintedView,
)
    requires
        first.resolved(program_id, registration_number),
        second.resolved(program_id, registration_number),
        first.owner == second.owner,
        host.register(first, first_minted) is Some,
    ensures
        host.register(first, first_minted).unwrap().register(second, second_minted) is None,
{
    same_address_is_same_bytes(first.mint, second.mint);
}

/// After a registration the caller holds exactly one unit of the boat's
/// ownership unit and nobody else holds any; the record lies at its address;
/// and the host is consistent as it was before.
pub proof fn law_registration_issues_one_unit(
    host: Host,
    ctx: MintBoatNft,
    name: Seq<char>,
    boat_type: BoatTypeView,
    description: Seq<char>,
    registration_number: Seq<char>,
    year_built: u16,
    length: u32,
    manufacturer: Seq<char>,
    price: u64,
    minted: MintedView,
    after: Host,
)
    requires
        host.consistent(),
        mint_outcome(
            ctx,
            name,
            boat_type,
            description,
            registration_number,
            year_built,
            length,
            manufacturer,
            price,
        ) == Ok::<MintedView, ErrorCode>(minted),
        host.register(ctx, minted) == Some(after),
    ensures
        after.balance_of(ctx.mint, ctx.owner) == 1,
        forall|other: Address| other != ctx.owner ==> after.balance_of(ctx.mint, other) == 0,
        after.boats.dom().contains(ctx.boat_nft),
        after.boats[ctx.boat_nft] == minted.boat_nft,
        after.consistent(),
{
    assert forall|holder: Address| host.balance_of(ctx.mint, holder) == 0 by {
        if host.balance_of(ctx.mint, holder) > 0 {
            assert(host.created.contains(ctx.mint));
        }
    }
    assert(!host.boats.dom().contains(ctx.boat_nft));
    assert forall|at: Address| #[trigger] host.boats.dom().contains(at) implies host.boats[at].mint
        != ctx.mint by {}
    let created = host.create(ctx.mint).unwrap().create(ctx.boat_nft).unwrap();
    let paid = match minted.fee_transfer {
        Some(transfer) => created.pay(transfer).unwrap(),
        None => created,
    };
    assert(paid.units == host.units);
    assert(after.units == paid.issue_unit(minted.issue).units);
    assert forall|unit: Address, holder: Address|
        after.balance_of(unit, holder) == (if unit == ctx.mint && holder == ctx.owner {
            1nat
        } else {
            host.balance_of(unit, holder)
        }) by {
        assert(paid.balance_of(unit, holder) == host.balance_of(unit, holder));
    }
    assert forall|at: Address, holder: Address|
        #![trigger after.boats[at], after.balance_of(after.boats[at].mint, holder)]
        after.boats.dom().contains(at) implies after.balance_of(after.boats[at].mint, holder) == (
        if holder == after.boats[at].owner {
            1nat
        } else {
            0nat
        }) by {
        if at != ctx.boat_nft {
            assert(host.boats.dom().contains(at));
            assert(after.boats[at] == host.boats[at]);
        }
    }
}

/// A registration at a fee rate of zero moves no currency; it still creates
/// the record and tells of the registration, with a fee of zero, and of
/// nothing else.
pub proof fn law_zero_rate_registration_is_free(
    host: Host,
    ctx: MintBoatNft,
    name: Seq<char>,
    boat_type: BoatTypeView,
    description: Seq<char>,
    registration_number: Seq<char>,
    year_built: u16,
    length: u32,
    manufacturer: Seq<char>,
    price: u64,
    minted: MintedView,
    after: Host,
)
    requires
        ctx.config.fee_bps == 0,
        mint_outcome(
            ctx,
            name,
            boat_type,
            description,
            registration_number,
            year_built,
            length,
            manufacturer,
            price,
        ) == Ok::<MintedView, ErrorCode>(minted),
        host.register(ctx, minted) == Some(after),
    ensures
        minted.fee_transfer is None,
        after.currency == host.currency,
        after.boats.dom().contains(ctx.boat_nft),
        after.boats[ctx.boat_nft] == minted.boat_nft,
        minted.events == seq![
            EventView::BoatMinted(
                BoatMintedView {
                    mint: ctx.mint,
                    owner: ctx.owner,
                    name,
                    boat_type,
                    registration_number,
                    price,
                    fee: 0,
                },
            ),
        ],
{
    assert(fee_quotient(price, 0) == 0) by (nonlinear_arith);
}

/// The fee of a registration goes from the caller to the treasury, all of it
/// and nothing more: the treasury has gained, and the caller has lost, the
/// fee charged on the price, and nobody else's funds have changed.
pub proof fn law_fee_reaches_the_treasury(
    host: Host,
    ctx: MintBoatNft,
    name: Seq<char>,
    boat_type: BoatTypeView,
    description: Seq<char>,
    registration_number: Seq<char>,
    year_built: u16,
    length: u32,
    manufacturer: Seq<char>,
    price: u64,
    minted: MintedView,
    after: Host,
)
    requires
        ctx.owner != ctx.treasury_account,
        mint_outcome(
            ctx,
            name,
            boat_type,
            description,
            registration_number,
            year_built,
            length,
            manufacturer,
            price,
        ) == Ok::<MintedView, ErrorCode>(minted),
        host.register(ctx, minted) == Some(after),
    ensures
        after.funds_of(ctx.treasury_account) == host.funds_of(ctx.treasury_account) + fee_charged(
            price,
            ctx.config.fee_bps,
        ),
        after.funds_of(ctx.owner) == host.funds_of(ctx.owner) - fee_charged(
            price,
            ctx.config.fee_bps,
        ),
        forall|other: Address|
            other != ctx.owner && other != ctx.treasury_account ==> after.funds_of(other)
                == host.funds_of(other),
{
}

/// The host hands a transfer of ownership the record that lies at `at` and
/// a holding whose amount is what the unit ledger says.
pub open spec fn presents_transfer(host: Host, at: Address, ctx: TransferBoatOwnership) -> bool {
    &&& host.boats.dom().contains(at)
    &&& host.boats[at] == ctx.boat_nft@
    &&& host.holds(ctx.from_token_account)
}

/// A host stays consistent where one record is replaced by a record of the
/// same ownership unit, nothing is created, the holdings of every other unit
/// stay as they were, and of the record's unit there is exactly one, held by
/// the new record's owner.
proof fn lemma_replaced_record_keeps_consistency(host: Host, after: Host, at: Address)
    requires
        host.consistent(),
        host.boats.dom().contains(at),
        after.created == host.created,
        after.boats == host.boats.insert(at, after.boats[at]),
        after.boats[at].mint == host.boats[at].mint,
        forall|unit: Address, holder: Address|
            unit != host.boats[at].mint ==> #[trigger] after.balance_of(unit, holder)
                == host.balance_of(unit, holder),
        forall|holder: Address| #[trigger]
            after.balance_of(host.boats[at].mint, holder) == (if holder == after.boats[at].owner {
                1nat
            } else {
                0nat
            }),
    ensures
        after.consistent(),
{
    let unit_at = host.boats[at].mint;
    assert forall|other: Address| #[trigger]
        after.boats.dom().contains(other) implies after.created.contains(other)
        && after.created.contains(after.boats[other].mint) by {
        assert(host.boats.dom().contains(other));
    }
    assert forall|one: Address, other: Address|
        #![trigger after.boats[one], after.boats[other]]
        after.boats.dom().contains(one) && after.boats.dom().contains(other)
            && after.boats[one].mint == after.boats[other].mint implies one == other by {
        assert(after.boats[one].mint == host.boats[one].mint);
        assert(after.boats[other].mint == host.boats[other].mint);
    }
    assert forall|unit: Address, holder: Address| #[trigger]
        after.balance_of(unit, holder) > 0 implies after.created.contains(unit) by {
        if unit != unit_at {
            assert(host.balance_of(unit, holder) > 0);
        }
    }
    assert forall|other: Address, holder: Address|
        #![trigger after.boats[other], after.balance_of(after.boats[other].mint, holder)]
        after.boats.dom().contains(other) implies after.balance_of(
        after.boats[other].mint,
        holder,
    ) == (if holder == after.boats[other].owner {
        1nat
    } else {
        0nat
    }) by {
        if other != at {
            assert(host.boats.dom().contains(other));
            assert(after.boats[other] == host.boats[other]);
            assert(host.boats[other].mint != unit_at);
            assert(host.balance_of(host.boats[other].mint, holder) == (if holder
                == host.boats[other].owner {
                1nat
            } else {
                0nat
            }));
        }
    }
}

/// A transfer of ownership to another address moves the unit: afterwards
/// the old owner holds none and the new owner holds one, the record names
/// the new owner, and it is not for sale, whether or not it was before.
pub proof fn law_transfer_moves_the_unit(
    host: Host,
    at: Address,
    ctx: TransferBoatOwnership,
    boat_nft: BoatNFTView,
    transferred: TransferredView,
)
    requires
        host.consistent(),
        presents_transfer(host, at, ctx),
        ctx.from_owner != ctx.to_owner,
        transfer_outcome(
            ctx.config,
            ctx.boat_nft@,
            ctx.mint,
            ctx.from_token_account,
            ctx.from_owner,
            ctx.to_owner,
        ) == Ok::<(BoatNFTView, TransferredView), ErrorCode>((boat_nft, transferred)),
    ensures
        ctx.config.operational(),
        host.hand_over(at, boat_nft, transferred) is Some,
        host.hand_over(at, boat_nft, transferred).unwrap().balance_of(ctx.mint, ctx.from_owner)
            == 0,
        host.hand_over(at, boat_nft, transferred).unwrap().balance_of(ctx.mint, ctx.to_owner) == 1,
        host.hand_over(at, boat_nft, transferred).unwrap().boats[at].owner == ctx.to_owner,
        !host.hand_over(at, boat_nft, transferred).unwrap().boats[at].is_for_sale,
{
    assert(host.balance_of(host.boats[at].mint, ctx.from_owner) == 1);
    assert(host.balance_of(host.boats[at].mint, ctx.to_owner) == (if ctx.to_owner
        == host.boats[at].owner {
        1nat
    } else {
        0nat
    }));
}

/// A transfer of ownership keeps the host consistent: whoever the unit goes
/// to, the caller themselves included, the record's owner is afterwards the
/// one holder of the boat's unit.
pub proof fn law_transfer_keeps_owner_and_holder_one(
    host: Host,
    at: Address,
    ctx: TransferBoatOwnership,
    boat_nft: BoatNFTView,
    transferred: TransferredView,
)
    requires
        host.consistent(),
        presents_transfer(host, at, ctx),
        transfer_outcome(
            ctx.config,
            ctx.boat_nft@,
            ctx.mint,
            ctx.from_token_account,
            ctx.from_owner,
            ctx.to_owner,
        ) == Ok::<(BoatNFTView, TransferredView), ErrorCode>((boat_nft, transferred)),
    ensures
        host.hand_over(at, boat_nft, transferred) is Some,
        host.hand_over(at, boat_nft, transferred).unwrap().consistent(),
{
    let after = host.hand_over(at, boat_nft, transferred).unwrap();
    assert(host.balance_of(host.boats[at].mint, ctx.from_owner) == 1);
    assert(ctx.from_owner == host.boats[at].owner);
    assert(host.balance_of(host.boats[at].mint, ctx.to_owner) == (if ctx.to_owner
        == host.boats[at].owner {
        1nat
    } else {
        0nat
    }));
    assert forall|unit: Address, holder: Address|
        after.balance_of(unit, holder) == (if unit == ctx.mint && holder == ctx.to_owner {
            1nat
        } else if unit == ctx.mint && holder == ctx.from_owner {
            0nat
        } else {
            host.balance_of(unit, holder)
        }) by {}
    assert forall|holder: Address| #[trigger]
        after.balance_of(host.boats[at].mint, holder) == (if holder == after.boats[at].owner {
            1nat
        } else {
            0nat
        }) by {
        assert(host.balance_of(host.boats[at].mint, holder) == (if holder
            == host.boats[at].owner {
            1nat
        } else {
            0nat
        }));
    }
    lemma_replaced_record_keeps_consistency(host, after, at);
}

/// An update of a boat's metadata keeps the host consistent: it changes
/// neither the record's owner nor its ownership unit.
pub proof fn law_update_keeps_owner_and_holder_one(
    host: Host,
    at: Address,
    config: Config,
    holding: TokenAccount,
    caller: Address,
    new_description: Option<Seq<char>>,
    new_maintenance_date: Option<i64>,
    new_is_for_sale: Option<bool>,
    boat_nft: BoatNFTView,
    events: Seq<EventView>,
)
    requires
        host.consistent(),
        host.boats.dom().contains(at),
        update_outcome(
            config,
            host.boats[at],
            holding,
            caller,
            new_description,
            new_maintenance_date,
            new_is_for_sale,
        ) == Ok::<(BoatNFTView, Seq<EventView>), ErrorCode>((boat_nft, events)),
    ensures
        host.update(at, boat_nft).consistent(),
{
    let after = host.update(at, boat_nft);
    assert forall|holder: Address| #[trigger]
        after.balance_of(host.boats[at].mint, holder) == (if holder == after.boats[at].owner {
            1nat
        } else {
            0nat
        }) by {
        assert(host.balance_of(host.boats[at].mint, holder) == (if holder
            == host.boats[at].owner {
            1nat
        } else {
            0nat
        }));
    }
    lemma_replaced_record_keeps_consistency(host, after, at);
}

} // verus!
