use vstd::prelude::*;
use crate::identity::{null_identity, Identity};

verus! {

/// The program's singleton configuration.
#[derive(Debug, Clone, Copy)]
pub struct Config {
    /// Manages the registries and may hand its role over.
    pub authority: Identity,
    /// May pause and unpause, and add or remove roles in an emergency.
    pub emergency_admin: Identity,
    /// Owner of the token accounts that receive fees.
    pub fee_recipient: Identity,
    /// While set, no payment is settled.
    pub paused: bool,
    pub bump: u8,
}

impl Config {
    /// None of the configured identities is the null identity.
    pub open spec fn wf(&self) -> bool {
        &&& self.authority@ != null_identity()
        &&& self.emergency_admin@ != null_identity()
        &&& self.fee_recipient@ != null_identity()
    }
}

/// The standing authority that moves tokens that users delegated to it.
#[derive(Debug, Clone, Copy)]
pub struct Delegate {
    pub bump: u8,
}

/// A record of a role registry, keyed by the identity that holds the role.
pub trait RoleRecord: Sized + Copy {
    spec fn spec_identity(&self) -> Seq<u8>;

    spec fn spec_active(&self) -> bool;

    /// The identity that holds the role.
    fn identity(&self) -> (r: Identity)
        ensures
            r@ == self.spec_identity(),
    ;

    /// Whether the role is currently honoured.
    fn active(&self) -> (r: bool)
        ensures
            r == self.spec_active(),
    ;

    /// A fresh, active record for `identity`.
    fn activated(identity: Identity, bump: u8) -> (r: Self)
        ensures
            r.spec_identity() == identity@,
            r.spec_active(),
    ;
}

/// An authorised relayer: may submit settlement transactions.
#[derive(Debug, Clone, Copy)]
pub struct Relayer {
    pub relayer: Identity,
    pub is_active: bool,
    pub bump: u8,
}

/// An authorised server signer: its signatures approve payments.
#[derive(Debug, Clone, Copy)]
pub struct ServerSigner {
    pub signer: Identity,
    pub is_active: bool,
    pub bump: u8,
}

impl RoleRecord for Relayer {
    open spec fn spec_identity(&self) -> Seq<u8> {
        self.relayer@
    }

    open spec fn spec_active(&self) -> bool {
        self.is_active
    }

    fn identity(&self) -> (r: Identity) {
        self.relayer
    }

    fn active(&self) -> (r: bool) {
        self.is_active
    }

    fn activated(identity: Identity, bump: u8) -> (r: Relayer) {
        Relayer { relayer: identity, is_active: true, bump }
    }
}

impl RoleRecord for ServerSigner {
    open spec fn spec_identity(&self) -> Seq<u8> {
        self.signer@
    }

    open spec fn spec_active(&self) -> bool {
        self.is_active
    }

    fn identity(&self) -> (r: Identity) {
        self.signer
    }

    fn active(&self) -> (r: bool) {
        self.is_active
    }

    fn activated(identity: Identity, bump: u8) -> (r: ServerSigner) {
        ServerSigner { signer: identity, is_active: true, bump }
    }
}

/// Why a registry refused a change.
#[derive(Debug, Clone, Copy, PartialEq, Eq, Structural)]
pub enum RegistryError {
    /// The identity already has a record.
    AlreadyRegistered,
    /// The identity has no record.
    NotRegistered,
}

/// A role registry: at most one record per identity. Removing a record
/// deletes it; adding the identity again creates a fresh record.
#[derive(Debug)]
pub struct Registry<R: RoleRecord> {
    records: Vec<R>,
}

/// The records of `recs` have pairwise distinct identities.
pub open spec fn identities_distinct<R: RoleRecord>(recs: Seq<R>) -> bool {
    forall|i: int, j: int|
        0 <= i < recs.len() && 0 <= j < recs.len() && i != j ==> #[trigger] recs[i].spec_identity()
            != #[trigger] recs[j].spec_identity()
}

/// The registry that the records `recs` form: each identity with a record,
/// mapped to whether its record is active.
pub open spec fn registry_of<R: RoleRecord>(recs: Seq<R>) -> Map<Seq<u8>, bool> {
    Map::new(
        |k: Seq<u8>| exists|i: int| 0 <= i < recs.len() && #[trigger] recs[i].spec_identity() == k,
        |k: Seq<u8>|
            recs[choose|i: int| 0 <= i < recs.len() && #[trigger] recs[i].spec_identity() == k].spec_active(),
    )
}

/// With distinct identities, the entry of the record at `i` is its own flag.
proof fn lemma_registry_entry<R: RoleRecord>(recs: Seq<R>, i: int)
    requires
        identities_distinct(recs),
        0 <= i < recs.len(),
    ensures
        registry_of(recs).contains_key(recs[i].spec_identity()),
        registry_of(recs)[recs[i].spec_identity()] == recs[i].spec_active(),
{
    let k = recs[i].spec_identity();
    assert(registry_of(recs).contains_key(k));
    let j = choose|j: int| 0 <= j < recs.len() && #[trigger] recs[j].spec_identity() == k;
    assert(recs[j].spec_identity() == k);
}

/// The registry of distinct records, one of which is at `i`, loses exactly
/// that identity when the record is taken out.
proof fn lemma_registry_remove<R: RoleRecord>(recs: Seq<R>, i: int)
    requires
        identities_distinct(recs),
        0 <= i < recs.len(),
    ensures
        identities_distinct(recs.remove(i)),
        registry_of(recs.remove(i)) == registry_of(recs).remove(recs[i].spec_identity()),
{
    let rest = recs.remove(i);
    let k = recs[i].spec_identity();
    assert forall|a: int, b: int|
        0 <= a < rest.len() && 0 <= b < rest.len() && a != b implies #[trigger] rest[a].spec_identity()
        != #[trigger] rest[b].spec_identity() by {
        let a0 = if a < i { a } else { a + 1 };
        let b0 = if b < i { b } else { b + 1 };
        assert(rest[a] == recs[a0]);
        assert(rest[b] == recs[b0]);
    }
    let lhs = registry_of(rest);
    let rhs = registry_of(recs).remove(k);
    assert forall|x: Seq<u8>| lhs.contains_key(x) <==> rhs.contains_key(x) by {
        if lhs.contains_key(x) {
            let a = choose|a: int| 0 <= a < rest.len() && #[trigger] rest[a].spec_identity() == x;
            let a0 = if a < i { a } else { a + 1 };
            assert(rest[a] == recs[a0]);
            assert(recs[a0].spec_identity() == x);
        }
        if rhs.contains_key(x) {
            let a0 = choose|a: int| 0 <= a < recs.len() && #[trigger] recs[a].spec_identity() == x;
            assert(a0 != i);
            let a = if a0 < i { a0 } else { a0 - 1 };
            assert(rest[a] == recs[a0]);
        }
    }
    assert forall|x: Seq<u8>| lhs.contains_key(x) implies lhs[x] == rhs[x] by {
        let a = choose|a: int| 0 <= a < rest.len() && #[trigger] rest[a].spec_identity() == x;
        let a0 = if a < i { a } else { a + 1 };
        assert(rest[a] == recs[a0]);
        lemma_registry_entry(rest, a);
        lemma_registry_entry(recs, a0);
    }
    assert(lhs =~= rhs);
}

/// Appending a record for a new identity adds exactly that entry.
proof fn lemma_registry_push<R: RoleRecord>(recs: Seq<R>, r: R)
    requires
        identities_distinct(recs),
        !registry_of(recs).contains_key(r.spec_identity()),
    ensures
        identities_distinct(recs.push(r)),
        registry_of(recs.push(r)) == registry_of(recs).insert(r.spec_identity(), r.spec_active()),
{
    let next = recs.push(r);
    let n = recs.len() as int;
    assert forall|a: int, b: int|
        0 <= a < next.len() && 0 <= b < next.len() && a != b implies #[trigger] next[a].spec_identity()
        != #[trigger] next[b].spec_identity() by {
        if a < n && b < n {
            assert(next[a] == recs[a] && next[b] == recs[b]);
        } else if a < n {
            assert(next[a] == recs[a]);
            assert(registry_of(recs).contains_key(recs[a].spec_identity()));
        } else {
            assert(next[b] == recs[b]);
            assert(registry_of(recs).contains_key(recs[b].spec_identity()));
        }
    }
    let lhs = registry_of(next);
    let rhs = registry_of(recs).insert(r.spec_identity(), r.spec_active());
    assert forall|x: Seq<u8>| lhs.contains_key(x) <==> rhs.contains_key(x) by {
        if lhs.contains_key(x) {
            let a = choose|a: int| 0 <= a < next.len() && #[trigger] next[a].spec_identity() == x;
            if a < n {
                assert(next[a] == recs[a]);
                assert(recs[a].spec_identity() == x);
            }
        }
        if rhs.contains_key(x) && x != r.spec_identity() {
            let a = choose|a: int| 0 <= a < recs.len() && #[trigger] recs[a].spec_identity() == x;
            assert(next[a] == recs[a]);
        }
        if x == r.spec_identity() {
            assert(next[n] == r);
        }
    }
    assert forall|x: Seq<u8>| lhs.contains_key(x) implies lhs[x] == rhs[x] by {
        let a = choose|a: int| 0 <= a < next.len() && #[trigger] next[a].spec_identity() == x;
        lemma_registry_entry(next, a);
        if a < n {
            assert(next[a] == recs[a]);
            lemma_registry_entry(recs, a);
        }
    }
    assert(lhs =~= rhs);
}

impl<R: RoleRecord> Registry<R> {
    /// No identity has two records.
    #[verifier::type_invariant]
    spec fn distinct(&self) -> bool {
        identities_distinct(self.records@)
    }

    /// The records with `rec` appended.
    fn records_with(&self, rec: R) -> (v: Vec<R>)
        ensures
            v@ == self.records@.push(rec),
    {
        let mut v: Vec<R> = Vec::new();
        let mut i: usize = 0;
        while i < self.records.len()
            invariant
                i <= self.records@.len(),
                v@ == self.records@.subrange(0, i as int),
            decreases self.records@.len() - i,
        {
            v.push(self.records[i]);
            i += 1;
            assert(v@ =~= self.records@.subrange(0, i as int));
        }
        v.push(rec);
        assert(v@ =~= self.records@.push(rec));
        v
    }

    /// The records without the one at `skip`.
    fn records_without(&self, skip: usize) -> (v: Vec<R>)
        requires
            skip < self.records@.len(),
        ensures
            v@ == self.records@.remove(skip as int),
    {
        let mut v: Vec<R> = Vec::new();
        let mut i: usize = 0;
        while i < self.records.len()
            invariant
                skip < self.records@.len(),
                i <= self.records@.len(),
                i <= skip ==> v@ == self.records@.subrange(0, i as int),
                i > skip ==> v@ == self.records@.subrange(0, skip as int) + self.records@.subrange(
                    skip + 1,
                    i as int,
                ),
            decreases self.records@.len() - i,
        {
            if i != skip {
                v.push(self.records[i]);
            }
            i += 1;
            if i <= skip {
                assert(v@ =~= self.records@.subrange(0, i as int));
            } else {
                assert(v@ =~= self.records@.subrange(0, skip as int) + self.records@.subrange(
                    skip + 1,
                    i as int,
                ));
            }
        }
        assert(v@ =~= self.records@.remove(skip as int));
        v
    }

    /// Each identity with a record, mapped to whether that record is active.
    pub closed spec fn view(&self) -> Map<Seq<u8>, bool> {
        registry_of(self.records@)
    }

    /// Whether `k` holds an active record.
    pub open spec fn spec_is_active(&self, k: Seq<u8>) -> bool {
        self@.contains_key(k) && self@[k]
    }

    /// An empty registry.
    pub fn new() -> (r: Self)
        ensures
            r@ == Map::<Seq<u8>, bool>::empty(),
    {
        let r = Registry { records: Vec::new() };
        assert(r@ =~= Map::<Seq<u8>, bool>::empty());
        r
    }

    /// The position of the record of `k`, if it has one.
    fn position(&self, k: &Identity) -> (r: Option<usize>)
        ensures
            r is None ==> !self@.contains_key(k@),
            r matches Some(i) ==> i < self.records@.len() && self.records@[i as int].spec_identity()
                == k@,
    {
        let mut i: usize = 0;
        while i < self.records.len()
            invariant
                i <= self.records@.len(),
                forall|j: int| 0 <= j < i ==> #[trigger] self.records@[j].spec_identity() != k@,
            decreases self.records@.len() - i,
        {
            let id = self.records[i].identity();
            if id.same_as(k) {
                return Some(i);
            }
            i += 1;
        }
        None
    }

    /// The record of `k`, if it has one.
    pub fn get(&self, k: &Identity) -> (r: Option<&R>)
        ensures
            r is Some <==> self@.contains_key(k@),
            r matches Some(rec) ==> rec.spec_identity() == k@ && rec.spec_active() == self@[k@],
    {
        proof {
            use_type_invariant(self);
        }
        match self.position(k) {
            Some(i) => {
                proof {
                    lemma_registry_entry(self.records@, i as int);
                }
                Some(&self.records[i])
            },
            None => None,
        }
    }

    /// Whether `k` holds an active record.
    pub fn is_active(&self, k: &Identity) -> (r: bool)
        ensures
            r == self.spec_is_active(k@),
    {
        match self.get(k) {
            Some(rec) => rec.active(),
            None => false,
        }
    }

    /// Stores `rec` as the record of its identity; refused if that identity
    /// already has one.
    pub fn insert(&mut self, rec: R) -> (r: Result<(), RegistryError>)
        ensures
            r is Err <==> old(self)@.contains_key(rec.spec_identity()),
            r is Err ==> r == Err::<(), RegistryError>(RegistryError::AlreadyRegistered)
                && final(self)@ == old(self)@,
            r is Ok ==> final(self)@ == old(self)@.insert(rec.spec_identity(), rec.spec_active()),
    {
        proof {
            use_type_invariant(&*self);
        }
        let k = rec.identity();
        match self.position(&k) {
            Some(i) => {
                proof {
                    lemma_registry_entry(self.records@, i as int);
                }
                Err(RegistryError::AlreadyRegistered)
            },
            None => {
                proof {
                    lemma_registry_push(self.records@, rec);
                }
                self.records = self.records_with(rec);
                Ok(())
            },
        }
    }

    /// Creates a fresh active record for `k`; refused if `k` already has one.
    pub fn add(&mut self, k: Identity, bump: u8) -> (r: Result<(), RegistryError>)
        ensures
            r is Err <==> old(self)@.contains_key(k@),
            r is Err ==> r == Err::<(), RegistryError>(RegistryError::AlreadyRegistered)
                && final(self)@ == old(self)@,
            r is Ok ==> final(self)@ == old(self)@.insert(k@, true),
    {
        self.insert(R::activated(k, bump))
    }

    /// Deletes the record of `k` and hands it back; refused if there is none.
    pub fn remove(&mut self, k: &Identity) -> (r: Result<R, RegistryError>)
        ensures
            r is Err <==> !old(self)@.contains_key(k@),
            r is Err ==> final(self)@ == old(self)@ && r matches Err(
                RegistryError::NotRegistered,
            ),
            r matches Ok(rec) ==> rec.spec_identity() == k@ && rec.spec_active() == old(self)@[k@]
                && final(self)@ == old(self)@.remove(k@),
    {
        proof {
            use_type_invariant(&*self);
        }
        match self.position(k) {
            Some(i) => {
                proof {
                    lemma_registry_entry(self.records@, i as int);
                    lemma_registry_remove(self.records@, i as int);
                }
                let rec = self.records[i];
                self.records = self.records_without(i);
                Ok(rec)
            },
            None => Err(RegistryError::NotRegistered),
        }
    }
}

} // verus!
