//! The asset registry and marketplace: minting, genetic-style breeding,
//! transfer, and a fixed-price sale/buy lifecycle, all against the persistent
//! maps held in [`Pallet`]. Every command either fully succeeds — exactly one
//! event describes it — or fails with the documented error and leaves every
//! map and balance untouched.

use std::collections::HashMap;
use vstd::prelude::*;

use crate::currency::{balance_in, transferred, AccountId, Balance, Balances};
use crate::entropy::{blake2_128_of, counter_step, synth_payload, Synthesizer};
use crate::migrations::v2::{Kitty, KittyId};

verus! {

broadcast use vstd::std_specs::hash::group_hash_axioms;

/// Static configuration: the module identifier the protocol account is
/// derived from, and the fixed price a mint, a breed, or a purchase moves.
#[derive(Clone, Copy, Debug)]
pub struct Config {
    pub pallet_id: [u8; 8],
    pub kitty_price: Balance,
}

/// Why a command was rejected. Every rejection aborts the whole call with no
/// state change.
#[derive(Clone, Copy, Debug, PartialEq, Eq, Structural)]
pub enum Error {
    /// The id counter is at the top of its range; nothing further can be
    /// minted.
    IdSpaceExhausted,
    /// The named asset does not exist.
    UnknownAsset,
    /// Breeding needs two distinct parents.
    SameParent,
    /// An asset cannot be transferred to its current owner.
    SelfTransfer,
    /// The asset is already listed for sale.
    AlreadyListed,
    /// The asset is not listed for sale.
    NotListed,
    /// The buyer already owns the asset.
    AlreadyOwned,
    /// The caller does not own the asset.
    NotOwner,
    /// No owner is recorded for the asset (defensive; unreachable while the
    /// registry's invariant holds).
    NoOwner,
    /// The currency collaborator could not cover the price from the payer.
    InsufficientFunds,
}

/// The notification emitted after a successful state change, carrying the
/// acting account and the ids involved; consumed externally, never read back.
#[derive(Clone, Copy, Debug, PartialEq, Eq)]
pub enum Event {
    KittyCreated { who: AccountId, kitty_id: KittyId, kitty: Kitty },
    KittyBred { who: AccountId, kitty_id: KittyId, kitty: Kitty },
    KittyTransferred { who: AccountId, recipient: AccountId, kitty_id: KittyId },
    KittyOnSale { who: AccountId, kitty_id: KittyId },
    KittyBought { who: AccountId, kitty_id: KittyId },
}

/// The registry's persistent state, as mathematics.
#[verifier::ext_equal]
pub ghost struct State {
    pub next_kitty_id: KittyId,
    pub kitties: Map<KittyId, Kitty>,
    pub owners: Map<KittyId, AccountId>,
    pub parents: Map<KittyId, (KittyId, KittyId)>,
    pub on_sale: Set<KittyId>,
}

impl State {
    /// Well-formedness, held by every reachable state: every existing asset
    /// has exactly one owner; parentage and listings only describe existing
    /// assets; every issued id lies below the counter.
    pub open spec fn wf(self) -> bool {
        &&& self.owners.dom() == self.kitties.dom()
        &&& self.parents.dom().subset_of(self.kitties.dom())
        &&& self.on_sale.subset_of(self.kitties.dom())
        &&& forall|id: KittyId| self.kitties.dom().contains(id) ==> id < self.next_kitty_id
    }

    /// The state after recording the fresh asset `kitty` under `kitty_id`,
    /// owned by `who`, with the id counter advanced past `kitty_id`.
    pub open spec fn with_minted(self, kitty_id: KittyId, kitty: Kitty, who: AccountId) -> State {
        State {
            next_kitty_id: (kitty_id + 1) as KittyId,
            kitties: self.kitties.insert(kitty_id, kitty),
            owners: self.owners.insert(kitty_id, who),
            ..self
        }
    }

    /// As `with_minted`, with the parent pair recorded as well.
    pub open spec fn with_bred(
        self,
        kitty_id: KittyId,
        kitty: Kitty,
        who: AccountId,
        parent_a: KittyId,
        parent_b: KittyId,
    ) -> State {
        State {
            parents: self.parents.insert(kitty_id, (parent_a, parent_b)),
            ..self.with_minted(kitty_id, kitty, who)
        }
    }
}

/// The fresh registry: no assets, no owners, no parentage, no listings, the
/// id counter at zero.
pub open spec fn empty_state() -> State {
    State {
        next_kitty_id: 0,
        kitties: Map::empty(),
        owners: Map::empty(),
        parents: Map::empty(),
        on_sale: Set::empty(),
    }
}

/// One atomic step of the identifier allocator: the value handed out and the
/// advanced counter — or exhaustion, with the counter unchanged.
pub open spec fn alloc_next(next: KittyId) -> (KittyId, Result<KittyId, Error>) {
    if next == KittyId::MAX {
        (next, Err(Error::IdSpaceExhausted))
    } else {
        ((next + 1) as KittyId, Ok(next))
    }
}

/// The ids handed out by `n` consecutive allocator steps starting from the
/// counter value `start`; the sequence stops early if the allocator is
/// exhausted.
pub open spec fn alloc_ids(start: KittyId, n: nat) -> Seq<KittyId>
    decreases n,
{
    if n == 0 {
        Seq::empty()
    } else {
        match alloc_next(start).1 {
            Ok(id) => seq![id] + alloc_ids(alloc_next(start).0, (n - 1) as nat),
            Err(_) => Seq::empty(),
        }
    }
}

/// Everything that can reject a mint, in the order checked.
pub open spec fn mint_rejection(
    s: State,
    balances: Map<AccountId, Balance>,
    price: Balance,
    who: AccountId,
) -> Option<Error> {
    if s.next_kitty_id == KittyId::MAX {
        Some(Error::IdSpaceExhausted)
    } else if balance_in(balances, who) < price {
        Some(Error::InsufficientFunds)
    } else {
        None
    }
}

/// Everything that can reject a breed, in the order checked.
pub open spec fn breed_rejection(
    s: State,
    balances: Map<AccountId, Balance>,
    price: Balance,
    who: AccountId,
    parent_a: KittyId,
    parent_b: KittyId,
) -> Option<Error> {
    if parent_a == parent_b {
        Some(Error::SameParent)
    } else if !s.kitties.contains_key(parent_a) {
        Some(Error::UnknownAsset)
    } else if !s.kitties.contains_key(parent_b) {
        Some(Error::UnknownAsset)
    } else {
        mint_rejection(s, balances, price, who)
    }
}

/// Byte-for-byte genetic selection: each bit of the child's dna comes from
/// parent A where the selector bit is 1 and from parent B where it is 0.
pub open spec fn child_dna(dna_a: Seq<u8>, dna_b: Seq<u8>, selector: Seq<u8>) -> Seq<u8> {
    Seq::new(dna_a.len(), |i: int| (dna_a[i] & selector[i]) | (dna_b[i] & !selector[i]))
}

/// The outcome of `transfer`: the next state and the result.
pub open spec fn transfer_outcome(
    s: State,
    who: AccountId,
    recipient: AccountId,
    kitty_id: KittyId,
) -> (State, Result<(), Error>) {
    if !s.kitties.contains_key(kitty_id) {
        (s, Err(Error::UnknownAsset))
    } else if !(s.owners.contains_key(kitty_id) && s.owners[kitty_id] == who) {
        (s, Err(Error::NotOwner))
    } else if recipient == who {
        (s, Err(Error::SelfTransfer))
    } else {
        (State { owners: s.owners.insert(kitty_id, recipient), ..s }, Ok(()))
    }
}

/// The outcome of `sale`: the next state and the result.
pub open spec fn sale_outcome(s: State, who: AccountId, kitty_id: KittyId) -> (
    State,
    Result<(), Error>,
) {
    if !s.kitties.contains_key(kitty_id) {
        (s, Err(Error::UnknownAsset))
    } else if !(s.owners.contains_key(kitty_id) && s.owners[kitty_id] == who) {
        (s, Err(Error::NotOwner))
    } else if s.on_sale.contains(kitty_id) {
        (s, Err(Error::AlreadyListed))
    } else {
        (State { on_sale: s.on_sale.insert(kitty_id), ..s }, Ok(()))
    }
}

/// The outcome of `buy`: the next state, the next balances, and the result.
/// Payment and the ownership/listing change form one atomic unit.
pub open spec fn buy_outcome(
    s: State,
    balances: Map<AccountId, Balance>,
    price: Balance,
    who: AccountId,
    kitty_id: KittyId,
) -> (State, Map<AccountId, Balance>, Result<(), Error>) {
    if !s.kitties.contains_key(kitty_id) {
        (s, balances, Err(Error::UnknownAsset))
    } else if !s.owners.contains_key(kitty_id) {
        (s, balances, Err(Error::NoOwner))
    } else if s.owners[kitty_id] == who {
        (s, balances, Err(Error::AlreadyOwned))
    } else if !s.on_sale.contains(kitty_id) {
        (s, balances, Err(Error::NotListed))
    } else if balance_in(balances, who) < price {
        (s, balances, Err(Error::InsufficientFunds))
    } else {
        (
            State {
                owners: s.owners.insert(kitty_id, who),
                on_sale: s.on_sale.remove(kitty_id),
                ..s
            },
            transferred(balances, who, s.owners[kitty_id], price),
            Ok(()),
        )
    }
}

/// Forget the event a successful command reports; keep success or the error.
pub open spec fn result_code(r: Result<Event, Error>) -> Result<(), Error> {
    match r {
        Ok(_) => Ok(()),
        Err(e) => Err(e),
    }
}

/// The protocol-owned account, a pure function of the configured module
/// identifier: the runtime derives it by reading the four-byte module tag
/// `0x6d 0x6f 0x64 0x6c` ("modl") followed by the identifier as one
/// little-endian account word, dropping whatever does not fit.
pub open spec fn protocol_account(config: Config) -> AccountId {
    account_from_le_bytes(
        0x6d,
        0x6f,
        0x64,
        0x6c,
        config.pallet_id@[0],
        config.pallet_id@[1],
        config.pallet_id@[2],
        config.pallet_id@[3],
    )
}

/// The account word assembled from eight bytes, least significant first.
pub open spec fn account_from_le_bytes(
    b0: u8,
    b1: u8,
    b2: u8,
    b3: u8,
    b4: u8,
    b5: u8,
    b6: u8,
    b7: u8,
) -> AccountId {
    (b0 as u64) | ((b1 as u64) << 8) | ((b2 as u64) << 16) | ((b3 as u64) << 24) | ((b4 as u64)
        << 32) | ((b5 as u64) << 40) | ((b6 as u64) << 48) | ((b7 as u64) << 56)
}

/// The registry's persistent store: the id counter and the four maps, keyed
/// by asset id. Exclusively owned by this module; read access goes through
/// the query methods.
pub struct Pallet {
    pub next_kitty_id: KittyId,
    pub kitties: HashMap<KittyId, Kitty>,
    pub owners: HashMap<KittyId, AccountId>,
    pub parents: HashMap<KittyId, (KittyId, KittyId)>,
    pub on_sale: HashMap<KittyId, ()>,
}

impl View for Pallet {
    type V = State;

    open spec fn view(&self) -> State {
        State {
            next_kitty_id: self.next_kitty_id,
            kitties: self.kitties@,
            owners: self.owners@,
            parents: self.parents@,
            on_sale: self.on_sale@.dom(),
        }
    }
}

impl Pallet {
    /// A fresh, empty registry.
    pub fn new() -> (p: Pallet)
        ensures
            p@ == empty_state(),
            p@.wf(),
    {
        let p = Pallet {
            next_kitty_id: 0,
            kitties: HashMap::new(),
            owners: HashMap::new(),
            parents: HashMap::new(),
            on_sale: HashMap::new(),
        };
        proof {
            assert(p@ =~= empty_state());
        }
        p
    }

    /// The id the next successful mint or breed will return.
    pub fn next_kitty_id(&self) -> (r: KittyId)
        ensures
            r == self@.next_kitty_id,
    {
        self.next_kitty_id
    }

    /// The asset record stored under `kitty_id`, if any.
    pub fn kitties(&self, kitty_id: KittyId) -> (r: Option<Kitty>)
        ensures
            r == if self@.kitties.contains_key(kitty_id) {
                Some(self@.kitties[kitty_id])
            } else {
                None::<Kitty>
            },
    {
        match self.kitties.get(&kitty_id) {
            Some(k) => Some(*k),
            None => None,
        }
    }

    /// The owner recorded for `kitty_id`, if any.
    pub fn kitty_owner(&self, kitty_id: KittyId) -> (r: Option<AccountId>)
        ensures
            r == if self@.owners.contains_key(kitty_id) {
                Some(self@.owners[kitty_id])
            } else {
                None::<AccountId>
            },
    {
        match self.owners.get(&kitty_id) {
            Some(o) => Some(*o),
            None => None,
        }
    }

    /// The parent pair recorded for `kitty_id`; absent for minted assets.
    pub fn kitty_parents(&self, kitty_id: KittyId) -> (r: Option<(KittyId, KittyId)>)
        ensures
            r == if self@.parents.contains_key(kitty_id) {
                Some(self@.parents[kitty_id])
            } else {
                None::<(KittyId, KittyId)>
            },
    {
        match self.parents.get(&kitty_id) {
            Some(p) => Some(*p),
            None => None,
        }
    }

    /// Whether `kitty_id` is currently listed for sale.
    pub fn kitty_on_sale(&self, kitty_id: KittyId) -> (r: bool)
        ensures
            r == self@.on_sale.contains(kitty_id),
    {
        self.on_sale.contains_key(&kitty_id)
    }

    /// The protocol account that receives mint and breed payments, derived
    /// once from the configured module identifier.
    pub fn get_account_id(config: &Config) -> (r: AccountId)
        ensures
            r == protocol_account(*config),
    {
        let p = &config.pallet_id;
        (0x6du64) | ((0x6fu64) << 8) | ((0x64u64) << 16) | ((0x6cu64) << 24) | ((p[0] as u64)
            << 32) | ((p[1] as u64) << 40) | ((p[2] as u64) << 48) | ((p[3] as u64) << 56)
    }

    /// The identifier allocator: hand out the current counter value and
    /// advance the counter by one, as one atomic read-modify-write; once the
    /// counter is at the maximum, fail and leave it unchanged.
    fn get_next_id(&mut self) -> (r: Result<KittyId, Error>)
        ensures
            r == alloc_next(old(self)@.next_kitty_id).1,
            final(self)@ == (State {
                next_kitty_id: alloc_next(old(self)@.next_kitty_id).0,
                ..old(self)@
            }),
    {
        if self.next_kitty_id == u32::MAX {
            proof {
                assert(self@ =~= (State { next_kitty_id: old(self)@.next_kitty_id, ..old(self)@ }));
            }
            return Err(Error::IdSpaceExhausted);
        }
        let current_id = self.next_kitty_id;
        self.next_kitty_id = current_id + 1;
        proof {
            assert(self@ =~= (State { next_kitty_id: alloc_next(old(self)@.next_kitty_id).0, ..old(
                self,
            )@ }));
        }
        Ok(current_id)
    }

    /// Mint a fresh asset for `who`: allocate the next id, synthesize the
    /// dna, move the fixed price from `who` to the protocol account, and
    /// record the asset and its owner — or fail with the documented error
    /// and change nothing.
    pub fn create_kitty(
        &mut self,
        config: &Config,
        currency: &mut Balances,
        rng: &mut Synthesizer,
        who: AccountId,
        name: [u8; 8],
    ) -> (r: Result<Event, Error>)
        requires
            old(self)@.wf(),
            balance_in(old(currency)@, protocol_account(*config)) + config.kitty_price
                <= Balance::MAX,
        ensures
            final(self)@.wf(),
            ({
                let rejection = mint_rejection(old(self)@, old(currency)@, config.kitty_price, who);
                match rejection {
                    Some(e) => {
                        &&& r == Err::<Event, Error>(e)
                        &&& final(self)@ == old(self)@
                        &&& final(currency)@ == old(currency)@
                    },
                    None => {
                        &&& r matches Ok(ev)
                        &&& ev matches Event::KittyCreated { who: w, kitty_id, kitty }
                        &&& w == who
                        &&& kitty_id == old(self)@.next_kitty_id
                        &&& kitty.name == name
                        &&& kitty.dna@ == blake2_128_of(
                            synth_payload(old(rng).seed@, who, old(rng).counter),
                        )
                        &&& final(self)@ == old(self)@.with_minted(kitty_id, kitty, who)
                        &&& final(currency)@ == transferred(
                            old(currency)@,
                            who,
                            protocol_account(*config),
                            config.kitty_price,
                        )
                    },
                }
            }),
            final(rng).seed == old(rng).seed,
            old(self)@.next_kitty_id == KittyId::MAX ==> *final(rng) == *old(rng),
            old(self)@.next_kitty_id != KittyId::MAX ==> final(rng).counter == counter_step(
                old(rng).counter,
            ),
    {
        if self.next_kitty_id == u32::MAX {
            return Err(Error::IdSpaceExhausted);
        }
        let dna = rng.synthesize(who);
        let kitty = Kitty { dna, name };
        let protocol = Pallet::get_account_id(config);
        match currency.transfer(who, protocol, config.kitty_price) {
            Err(_) => {
                return Err(Error::InsufficientFunds);
            },
            Ok(()) => {},
        }
        let kitty_id = match self.get_next_id() {
            Ok(id) => id,
            Err(e) => {
                return Err(e);
            },
        };
        self.kitties.insert(kitty_id, kitty);
        self.owners.insert(kitty_id, who);
        proof {
            assert(self@ =~= old(self)@.with_minted(kitty_id, kitty, who));
            assert(self@.kitties.dom() =~= old(self)@.kitties.dom().insert(kitty_id));
            assert(self@.owners.dom() =~= old(self)@.owners.dom().insert(kitty_id));
        }
        Ok(Event::KittyCreated { who, kitty_id, kitty })
    }

    /// Breed a child of two existing, distinct parents for `who`: allocate
    /// the next id, synthesize the selector, combine the parents' dna under
    /// it, move the fixed price from `who` to the protocol account, and
    /// record the asset, its owner, and its parent pair — or fail with the
    /// documented error and change nothing. The caller need not own either
    /// parent.
    pub fn breed(
        &mut self,
        config: &Config,
        currency: &mut Balances,
        rng: &mut Synthesizer,
        who: AccountId,
        kitty_id_1: KittyId,
        kitty_id_2: KittyId,
        name: [u8; 8],
    ) -> (r: Result<Event, Error>)
        requires
            old(self)@.wf(),
            balance_in(old(currency)@, protocol_account(*config)) + config.kitty_price
                <= Balance::MAX,
        ensures
            final(self)@.wf(),
            ({
                let rejection = breed_rejection(
                    old(self)@,
                    old(currency)@,
                    config.kitty_price,
                    who,
                    kitty_id_1,
                    kitty_id_2,
                );
                match rejection {
                    Some(e) => {
                        &&& r == Err::<Event, Error>(e)
                        &&& final(self)@ == old(self)@
                        &&& final(currency)@ == old(currency)@
                    },
                    None => {
                        &&& r matches Ok(ev)
                        &&& ev matches Event::KittyBred { who: w, kitty_id, kitty }
                        &&& w == who
                        &&& kitty_id == old(self)@.next_kitty_id
                        &&& kitty.name == name
                        &&& kitty.dna@ == child_dna(
                            old(self)@.kitties[kitty_id_1].dna@,
                            old(self)@.kitties[kitty_id_2].dna@,
                            blake2_128_of(synth_payload(old(rng).seed@, who, old(rng).counter)),
                        )
                        &&& final(self)@ == old(self)@.with_bred(
                            kitty_id,
                            kitty,
                            who,
                            kitty_id_1,
                            kitty_id_2,
                        )
                        &&& final(currency)@ == transferred(
                            old(currency)@,
                            who,
                            protocol_account(*config),
                            config.kitty_price,
                        )
                    },
                }
            }),
            final(rng).seed == old(rng).seed,
            ({
                let rejection = breed_rejection(
                    old(self)@,
                    old(currency)@,
                    config.kitty_price,
                    who,
                    kitty_id_1,
                    kitty_id_2,
                );
                &&& (rejection is None || rejection == Some(Error::InsufficientFunds))
                    ==> final(rng).counter == counter_step(old(rng).counter)
                &&& !(rejection is None || rejection == Some(Error::InsufficientFunds))
                    ==> *final(rng) == *old(rng)
            }),
    {
        if kitty_id_1 == kitty_id_2 {
            return Err(Error::SameParent);
        }
        if !self.kitties.contains_key(&kitty_id_1) {
            return Err(Error::UnknownAsset);
        }
        if !self.kitties.contains_key(&kitty_id_2) {
            return Err(Error::UnknownAsset);
        }
        if self.next_kitty_id == u32::MAX {
            return Err(Error::IdSpaceExhausted);
        }
        let kitty_1 = match self.kitties.get(&kitty_id_1) {
            Some(k) => *k,
            None => {
                return Err(Error::UnknownAsset);
            },
        };
        let kitty_2 = match self.kitties.get(&kitty_id_2) {
            Some(k) => *k,
            None => {
                return Err(Error::UnknownAsset);
            },
        };
        let selector = rng.synthesize(who);
        let dna = combine_dna(&kitty_1.dna, &kitty_2.dna, &selector);
        let kitty = Kitty { dna, name };
        let protocol = Pallet::get_account_id(config);
        match currency.transfer(who, protocol, config.kitty_price) {
            Err(_) => {
                return Err(Error::InsufficientFunds);
            },
            Ok(()) => {},
        }
        let kitty_id = match self.get_next_id() {
            Ok(id) => id,
            Err(e) => {
                return Err(e);
            },
        };
        self.kitties.insert(kitty_id, kitty);
        self.owners.insert(kitty_id, who);
        self.parents.insert(kitty_id, (kitty_id_1, kitty_id_2));
        proof {
            assert(self@ =~= old(self)@.with_bred(kitty_id, kitty, who, kitty_id_1, kitty_id_2));
            assert(self@.kitties.dom() =~= old(self)@.kitties.dom().insert(kitty_id));
            assert(self@.owners.dom() =~= old(self)@.owners.dom().insert(kitty_id));
            assert(self@.parents.dom().subset_of(self@.kitties.dom()));
        }
        Ok(Event::KittyBred { who, kitty_id, kitty })
    }

    /// Reassign ownership of an existing asset from its current owner `who`
    /// to a different account `recipient`. No currency moves.
    pub fn transfer(&mut self, who: AccountId, recipient: AccountId, kitty_id: KittyId) -> (r:
        Result<Event, Error>)
        requires
            old(self)@.wf(),
        ensures
            final(self)@.wf(),
            final(self)@ == transfer_outcome(old(self)@, who, recipient, kitty_id).0,
            result_code(r) == transfer_outcome(old(self)@, who, recipient, kitty_id).1,
            r matches Ok(ev) ==> ev == (Event::KittyTransferred { who, recipient, kitty_id }),
    {
        if !self.kitties.contains_key(&kitty_id) {
            return Err(Error::UnknownAsset);
        }
        let owner_matches = match self.kitty_owner(kitty_id) {
            Some(owner) => owner == who,
            None => false,
        };
        if !owner_matches {
            return Err(Error::NotOwner);
        }
        if recipient == who {
            return Err(Error::SelfTransfer);
        }
        self.owners.insert(kitty_id, recipient);
        proof {
            assert(self@ =~= transfer_outcome(old(self)@, who, recipient, kitty_id).0);
            assert(self@.owners.dom() =~= old(self)@.owners.dom());
        }
        Ok(Event::KittyTransferred { who, recipient, kitty_id })
    }

    /// List an existing, not-yet-listed asset of `who` for sale at the fixed
    /// protocol price.
    pub fn sale(&mut self, who: AccountId, kitty_id: KittyId) -> (r: Result<Event, Error>)
        requires
            old(self)@.wf(),
        ensures
            final(self)@.wf(),
            final(self)@ == sale_outcome(old(self)@, who, kitty_id).0,
            result_code(r) == sale_outcome(old(self)@, who, kitty_id).1,
            r matches Ok(ev) ==> ev == (Event::KittyOnSale { who, kitty_id }),
    {
        if !self.kitties.contains_key(&kitty_id) {
            return Err(Error::UnknownAsset);
        }
        let owner_matches = match self.kitty_owner(kitty_id) {
            Some(owner) => owner == who,
            None => false,
        };
        if !owner_matches {
            return Err(Error::NotOwner);
        }
        if self.on_sale.contains_key(&kitty_id) {
            return Err(Error::AlreadyListed);
        }
        self.on_sale.insert(kitty_id, ());
        proof {
            assert(self@ =~= sale_outcome(old(self)@, who, kitty_id).0);
            assert(self@.on_sale =~= old(self)@.on_sale.insert(kitty_id));
        }
        Ok(Event::KittyOnSale { who, kitty_id })
    }

    /// Buy a listed asset from its current owner at the fixed protocol
    /// price: the payment to the owner and the ownership and listing changes
    /// apply as one atomic unit, or nothing changes at all.
    pub fn buy(
        &mut self,
        config: &Config,
        currency: &mut Balances,
        who: AccountId,
        kitty_id: KittyId,
    ) -> (r: Result<Event, Error>)
        requires
            old(self)@.wf(),
            old(self)@.owners.contains_key(kitty_id) ==> balance_in(
                old(currency)@,
                old(self)@.owners[kitty_id],
            ) + config.kitty_price <= Balance::MAX,
        ensures
            final(self)@.wf(),
            final(self)@ == buy_outcome(
                old(self)@,
                old(currency)@,
                config.kitty_price,
                who,
                kitty_id,
            ).0,
            final(currency)@ == buy_outcome(
                old(self)@,
                old(currency)@,
                config.kitty_price,
                who,
                kitty_id,
            ).1,
            result_code(r) == buy_outcome(
                old(self)@,
                old(currency)@,
                config.kitty_price,
                who,
                kitty_id,
            ).2,
            r matches Ok(ev) ==> ev == (Event::KittyBought { who, kitty_id }),
    {
        if !self.kitties.contains_key(&kitty_id) {
            return Err(Error::UnknownAsset);
        }
        let owner = match self.kitty_owner(kitty_id) {
            Some(owner) => owner,
            None => {
                return Err(Error::NoOwner);
            },
        };
        if owner == who {
            return Err(Error::AlreadyOwned);
        }
        if !self.on_sale.contains_key(&kitty_id) {
            return Err(Error::NotListed);
        }
        match currency.transfer(who, owner, config.kitty_price) {
            Err(_) => {
                return Err(Error::InsufficientFunds);
            },
            Ok(()) => {},
        }
        self.owners.insert(kitty_id, who);
        self.on_sale.remove(&kitty_id);
        proof {
            assert(self@ =~= buy_outcome(
                old(self)@,
                old(currency)@,
                config.kitty_price,
                who,
                kitty_id,
            ).0);
            assert(self@.owners.dom() =~= old(self)@.owners.dom());
            assert(self@.on_sale =~= old(self)@.on_sale.remove(kitty_id));
        }
        Ok(Event::KittyBought { who, kitty_id })
    }
}

/// Combine two parents' dna under `selector`, bit for bit.
fn combine_dna(dna_a: &[u8; 16], dna_b: &[u8; 16], selector: &[u8; 16]) -> (r: [u8; 16])
    ensures
        r@ == child_dna(dna_a@, dna_b@, selector@),
{
    let mut data = [0u8; 16];
    let mut i: usize = 0;
    while i < 16
        invariant
            i <= 16,
            forall|j: int| 0 <= j < i ==> data@[j] == child_dna(dna_a@, dna_b@, selector@)[j],
        decreases 16 - i,
    {
        data[i] = (dna_a[i] & selector[i]) | (dna_b[i] & !selector[i]);
        i = i + 1;
    }
    proof {
        assert(data@ =~= child_dna(dna_a@, dna_b@, selector@));
    }
    data
}

/// Law: consecutive mints receive exactly the ids `start, start + 1, ...` —
/// dense, strictly increasing, no gap and no repeat — for as long as the id
/// space lasts; at the top of the range `alloc_next` rejects the call and
/// leaves the counter unchanged.
pub proof fn lemma_alloc_ids_dense(start: KittyId, n: nat)
    requires
        start + n <= KittyId::MAX,
    ensures
        alloc_ids(start, n).len() == n,
        forall|i: int| 0 <= i < n ==> alloc_ids(start, n)[i] == start + i,
    decreases n,
{
    if n > 0 {
        lemma_alloc_ids_dense((start + 1) as KittyId, (n - 1) as nat);
    }
}

/// Law: breeding is rejected with `SameParent` whenever the two parents are
/// the same id, whatever the rest of the state holds — existence is not even
/// consulted.
pub proof fn lemma_breed_same_parent_rejected(
    s: State,
    balances: Map<AccountId, Balance>,
    price: Balance,
    who: AccountId,
    parent: KittyId,
)
    ensures
        breed_rejection(s, balances, price, who, parent, parent) == Some(Error::SameParent),
{
}

/// Law: transferring an asset to its current owner is rejected with
/// `SelfTransfer` and moves no ownership. Stated for an asset that exists
/// and is owned by the caller; on other inputs the existence and ownership
/// checks reject first, and those rejections leave the state unchanged too.
pub proof fn lemma_transfer_to_self_rejected(s: State, who: AccountId, kitty_id: KittyId)
    requires
        s.kitties.contains_key(kitty_id),
        s.owners.contains_key(kitty_id),
        s.owners[kitty_id] == who,
    ensures
        transfer_outcome(s, who, who, kitty_id) == (s, Err::<(), Error>(Error::SelfTransfer)),
{
}

/// Law: a second listing of an asset just listed is rejected: whenever
/// `sale` succeeds, an immediate repeat by the same caller fails with
/// `AlreadyListed` and changes nothing.
pub proof fn lemma_sale_relist_rejected(s: State, who: AccountId, kitty_id: KittyId)
    requires
        sale_outcome(s, who, kitty_id).1 is Ok,
    ensures
        sale_outcome(sale_outcome(s, who, kitty_id).0, who, kitty_id) == (
            sale_outcome(s, who, kitty_id).0,
            Err::<(), Error>(Error::AlreadyListed),
        ),
{
}

/// Law: buying an asset that is not listed is rejected with `NotListed`,
/// with state and balances untouched. Stated for an existing asset whose
/// owner is someone else; on other inputs the existence and self-purchase
/// checks reject first.
pub proof fn lemma_buy_unlisted_rejected(
    s: State,
    balances: Map<AccountId, Balance>,
    price: Balance,
    who: AccountId,
    kitty_id: KittyId,
)
    requires
        s.kitties.contains_key(kitty_id),
        s.owners.contains_key(kitty_id),
        s.owners[kitty_id] != who,
        !s.on_sale.contains(kitty_id),
    ensures
        buy_outcome(s, balances, price, who, kitty_id) == (
            s,
            balances,
            Err::<(), Error>(Error::NotListed),
        ),
{
}

/// Law: a buyer who already owns the asset is rejected with `AlreadyOwned`
/// before any balance or listing is touched.
pub proof fn lemma_buy_by_owner_rejected(
    s: State,
    balances: Map<AccountId, Balance>,
    price: Balance,
    who: AccountId,
    kitty_id: KittyId,
)
    requires
        s.kitties.contains_key(kitty_id),
        s.owners.contains_key(kitty_id),
        s.owners[kitty_id] == who,
    ensures
        buy_outcome(s, balances, price, who, kitty_id) == (
            s,
            balances,
            Err::<(), Error>(Error::AlreadyOwned),
        ),
{
}

} // verus!
