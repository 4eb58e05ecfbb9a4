//! The kitty registry: records keyed by their derived identifier.
//!
//! The single mutating operation, `create_kitty`, derives a record's
//! attribute and identifier, enforces that the caller mints only for itself,
//! rejects identifier collisions, and otherwise inserts exactly one record
//! and queues one creation event. Every failure leaves the registry
//! unchanged.

use vstd::prelude::*;
use crate::identity::{gen_dna, gen_gender, dna_of, gender_of, Gender};

verus! {

/// An opaque principal reference: the owner and caller concept, compared
/// only by equality.
#[derive(Clone, Copy, Debug)]
pub struct AccountId {
    pub bytes: [u8; 32],
}

impl View for AccountId {
    type V = Seq<u8>;

    open spec fn view(&self) -> Seq<u8> {
        self.bytes@
    }
}

impl PartialEq for AccountId {
    fn eq(&self, other: &AccountId) -> (r: bool) {
        let mut i: usize = 0;
        while i < 32
            invariant
                i <= 32,
                forall|j: int| 0 <= j < i ==> self.bytes@[j] == other.bytes@[j],
            decreases 32 - i,
        {
            if self.bytes[i] != other.bytes[i] {
                return false;
            }
            i = i + 1;
        }
        assert(self.bytes@ =~= other.bytes@);
        true
    }
}

impl Eq for AccountId {

}

impl vstd::std_specs::cmp::PartialEqSpecImpl for AccountId {
    open spec fn obeys_eq_spec() -> bool {
        true
    }

    open spec fn eq_spec(&self, other: &AccountId) -> bool {
        self@ == other@
    }
}

/// The error taxonomy of the registry. Only `DuplicateKitty` and `NotOwner`
/// can come out of the one implemented operation; the remaining variants are
/// reserved for operations (transfer, lookup, per-owner limits) that this
/// core does not provide.
#[derive(Clone, Copy, PartialEq, Eq, Structural, Debug)]
pub enum Error {
    DuplicateKitty,
    TooManyOwned,
    NoKitty,
    NotOwner,
    TransferToSelf,
    CannotConvert,
    ExceedKittyNumber,
}

/// A stored record: its identifier, its owner, and its derived attribute.
#[derive(Clone, Copy, Debug)]
pub struct Kitty {
    pub dna: crate::identity::Hash,
    pub owner: AccountId,
    pub gender: Gender,
}

/// Event queued when a kitty creation occurs.
#[derive(Clone, Copy, Debug)]
pub struct Created {
    pub kitty: crate::identity::Hash,
    pub owner: AccountId,
}

/// Event describing a kitty transfer approval. Declared for external
/// subscribers; no operation of this core produces it.
#[derive(Clone, Copy, Debug)]
pub struct Approval {
    pub from: AccountId,
    pub to: AccountId,
    pub kitty: crate::identity::Hash,
}

/// The registry: records keyed by their own identifier, plus the queue of
/// creation events not yet handed to the host's event sink.
pub struct NftKitties {
    kitties: Vec<Kitty>,
    events: Vec<Created>,
}

impl NftKitties {
    /// The stored records, in order of creation.
    pub closed spec fn kitties_seq(self) -> Seq<Kitty> {
        self.kitties@
    }

    /// The creation events queued for the host's sink, oldest first.
    pub closed spec fn events_seq(self) -> Seq<Created> {
        self.events@
    }

    /// Whether some stored record has the identifier `d`.
    pub open spec fn contains_dna(self, d: Seq<u8>) -> bool {
        exists|i: int| 0 <= i < self.kitties_seq().len() && self.kitties_seq()[i].dna@ == d
    }

    /// Well-formedness: identifiers are unique, so the records form a map
    /// keyed by identifier.
    pub open spec fn wf(self) -> bool {
        forall|i: int, j: int|
            0 <= i < j < self.kitties_seq().len() ==> self.kitties_seq()[i].dna@
                != self.kitties_seq()[j].dna@
    }

    /// Creates an empty registry.
    pub fn new() -> (r: NftKitties)
        ensures
            r.kitties_seq().len() == 0,
            r.events_seq().len() == 0,
            r.wf(),
    {
        NftKitties { kitties: Vec::new(), events: Vec::new() }
    }

    /// The number of stored records.
    pub fn len(&self) -> (r: usize)
        ensures
            r == self.kitties_seq().len(),
    {
        self.kitties.len()
    }

    /// Whether the registry already holds a record under `dna`.
    pub fn contains(&self, dna: &crate::identity::Hash) -> (r: bool)
        ensures
            r == self.contains_dna(dna@),
    {
        let n = self.kitties.len();
        let mut i: usize = 0;
        while i < n
            invariant
                i <= n,
                n == self.kitties_seq().len(),
                forall|j: int| 0 <= j < i ==> self.kitties_seq()[j].dna@ != dna@,
            decreases n - i,
        {
            if self.kitties[i].dna == *dna {
                return true;
            }
            i = i + 1;
        }
        false
    }

    /// Looks up the record stored under `dna`, if any. With a well-formed
    /// registry the returned record is the only one under that identifier.
    pub fn get(&self, dna: &crate::identity::Hash) -> (r: Option<Kitty>)
        ensures
            match r {
                Some(k) => self.kitties_seq().contains(k) && k.dna@ == dna@,
                None => !self.contains_dna(dna@),
            },
    {
        let n = self.kitties.len();
        let mut i: usize = 0;
        while i < n
            invariant
                i <= n,
                n == self.kitties_seq().len(),
                forall|j: int| 0 <= j < i ==> self.kitties_seq()[j].dna@ != dna@,
            decreases n - i,
        {
            if self.kitties[i].dna == *dna {
                return Some(self.kitties[i]);
            }
            i = i + 1;
        }
        None
    }

    /// The creation events queued for the host's sink, oldest first.
    pub fn events(&self) -> (r: &Vec<Created>)
        ensures
            r@ == self.events_seq(),
    {
        &self.events
    }

    /// Hands the queued creation events out for delivery and empties the
    /// queue; the stored records are untouched.
    pub fn take_events(&mut self) -> (r: Vec<Created>)
        ensures
            r@ == old(self).events_seq(),
            final(self).events_seq().len() == 0,
            final(self).kitties_seq() == old(self).kitties_seq(),
    {
        let mut out: Vec<Created> = Vec::new();
        core::mem::swap(&mut out, &mut self.events);
        out
    }

    /// Mints one record. The caller must be the stated owner (`NotOwner`
    /// otherwise), and the derived identifier must be fresh
    /// (`DuplicateKitty` otherwise). On success exactly one record is
    /// appended, keyed by its own identifier, with the attribute derived
    /// from `dna`, and one creation event is queued; existing records and
    /// events are never modified. On failure the registry is unchanged.
    pub fn create_kitty(
        &mut self,
        owner: AccountId,
        dna: Vec<u8>,
        caller: AccountId,
        block_number: u32,
    ) -> (r: Result<(), Error>)
        requires
            dna@.len() <= u32::MAX,
        ensures
            ({
                let id = dna_of(dna@, block_number);
                &&& (caller@ != owner@ ==> r == Err::<(), Error>(Error::NotOwner) && *final(self)
                    == *old(self))
                &&& (caller@ == owner@ && old(self).contains_dna(id) ==> r == Err::<(), Error>(
                    Error::DuplicateKitty,
                ) && *final(self) == *old(self))
                &&& (caller@ == owner@ && !old(self).contains_dna(id) ==> {
                    &&& r == Ok::<(), Error>(())
                    &&& final(self).kitties_seq().len() == old(self).kitties_seq().len() + 1
                    &&& final(self).kitties_seq().subrange(
                        0,
                        old(self).kitties_seq().len() as int,
                    ) == old(self).kitties_seq()
                    &&& final(self).kitties_seq().last().dna@ == id
                    &&& final(self).kitties_seq().last().owner@ == owner@
                    &&& final(self).kitties_seq().last().gender == gender_of(dna@)
                    &&& final(self).events_seq().len() == old(self).events_seq().len() + 1
                    &&& final(self).events_seq().subrange(
                        0,
                        old(self).events_seq().len() as int,
                    ) == old(self).events_seq()
                    &&& final(self).events_seq().last().kitty@ == id
                    &&& final(self).events_seq().last().owner@ == owner@
                })
                &&& (old(self).wf() ==> final(self).wf())
            }),
    {
        if !(owner == caller) {
            return Err(Error::NotOwner);
        }
        let gender = gen_gender(&dna)?;
        let dna_hash = gen_dna(dna, block_number);
        let kitty = Kitty { dna: dna_hash, owner, gender };
        if self.contains(&kitty.dna) {
            return Err(Error::DuplicateKitty);
        }
        self.kitties.push(kitty);
        self.events.push(Created { kitty: dna_hash, owner });
        proof {
            assert(self.kitties_seq().subrange(0, old(self).kitties_seq().len() as int)
                =~= old(self).kitties_seq());
            assert(self.events_seq().subrange(0, old(self).events_seq().len() as int)
                =~= old(self).events_seq());
        }
        Ok(())
    }
}

/// After a successful creation the registry contains the new record's
/// identifier; by `create_kitty`'s contract a second creation from the same
/// raw bytes and counter therefore finds the duplicate and is rejected with
/// the registry unchanged.
pub proof fn lemma_insert_then_contains(pre: NftKitties, post: NftKitties, id: Seq<u8>)
    requires
        post.kitties_seq().len() == pre.kitties_seq().len() + 1,
        post.kitties_seq().last().dna@ == id,
    ensures
        post.contains_dna(id),
{
    let n = post.kitties_seq().len() - 1;
    assert(0 <= n < post.kitties_seq().len() && post.kitties_seq()[n].dna@ == id);
}

} // verus!
