use crate::key::{derive_key, derived_key, PublicKey, COUNTER_SEED};
use crate::record::{Counter, CounterError};
use vstd::prelude::*;

verus! {

/// The accounts of an initialize: the caller, who becomes the owner, and
/// the time of creation in seconds since the epoch.
pub struct Initialize {
    pub user: PublicKey,
    pub unix_timestamp: i64,
}

/// The counter records of one program, each at the address derived from
/// the counter namespace tag and its owner.
pub struct CounterStore {
    program_id: PublicKey,
    entries: Vec<(PublicKey, Counter)>,
    records: Ghost<Map<PublicKey, Counter>>,
}

/// The address of `owner`'s record under the program `program_id`, if one
/// can be derived.
pub open spec fn record_address(owner: PublicKey, program_id: PublicKey) -> Option<PublicKey> {
    match derived_key(COUNTER_SEED@, owner, program_id) {
        Some((address, _)) => Some(address),
        None => None,
    }
}

/// What an initialize by `ctx.user` does to a store holding `records`: the
/// address and the fresh record to put there, or why it is refused.
pub open spec fn initialize_outcome(
    records: Map<PublicKey, Counter>,
    program_id: PublicKey,
    ctx: Initialize,
) -> Result<(PublicKey, Counter), CounterError> {
    match record_address(ctx.user, program_id) {
        None => Err(CounterError::AddressUnavailable),
        Some(address) => if records.contains_key(address) {
            Err(CounterError::AlreadyExists)
        } else {
            Ok(
                (
                    address,
                    Counter {
                        owner: ctx.user,
                        count: 0,
                        total_increments: 0,
                        created_at: ctx.unix_timestamp,
                    },
                ),
            )
        },
    }
}

/// The records after an initialize with this outcome: a refused one leaves
/// them as they were.
pub open spec fn records_after(
    records: Map<PublicKey, Counter>,
    outcome: Result<(PublicKey, Counter), CounterError>,
) -> Map<PublicKey, Counter> {
    match outcome {
        Ok((address, c)) => records.insert(address, c),
        Err(_) => records,
    }
}

impl View for CounterStore {
    type V = Map<PublicKey, Counter>;

    closed spec fn view(&self) -> Map<PublicKey, Counter> {
        self.records@
    }
}

impl CounterStore {
    pub closed spec fn spec_program_id(&self) -> PublicKey {
        self.program_id
    }

    /// Each stored record lies at its owner's address, addresses are
    /// unique, and the entries hold exactly the records of the view.
    pub closed spec fn wf(&self) -> bool {
        &&& forall|i: int|
            0 <= i < self.entries@.len() ==> {
                &&& self.records@.contains_key(#[trigger] self.entries@[i].0)
                &&& self.records@[self.entries@[i].0] == self.entries@[i].1
            }
        &&& forall|i: int, j: int|
            0 <= i < j < self.entries@.len() ==> self.entries@[i].0 != self.entries@[j].0
        &&& forall|k: PublicKey|
            #[trigger] self.records@.contains_key(k) ==> exists|i: int|
                0 <= i < self.entries@.len() && #[trigger] self.entries@[i].0 == k
        &&& forall|k: PublicKey|
            #[trigger] self.records@.contains_key(k) ==> record_address(self.records@[k].owner, self.program_id)
                == Some(k)
    }

    /// An empty store of the program `program_id`.
    pub fn new(program_id: PublicKey) -> (r: CounterStore)
        ensures
            r.wf(),
            r@ == Map::<PublicKey, Counter>::empty(),
            r.spec_program_id() == program_id,
    {
        CounterStore { program_id, entries: Vec::new(), records: Ghost(Map::empty()) }
    }

    pub fn program_id(&self) -> (r: PublicKey)
        ensures
            r == self.spec_program_id(),
    {
        self.program_id
    }

    /// The record at `address`, if there is one.
    pub fn get(&self, address: &PublicKey) -> (r: Option<Counter>)
        requires
            self.wf(),
        ensures
            r == (if self@.contains_key(*address) {
                Some(self@[*address])
            } else {
                None::<Counter>
            }),
    {
        let mut i: usize = 0;
        while i < self.entries.len()
            invariant
                self.wf(),
                i <= self.entries@.len(),
                forall|j: int| 0 <= j < i ==> self.entries@[j].0 != *address,
            decreases self.entries@.len() - i,
        {
            if self.entries[i].0 == *address {
                return Some(self.entries[i].1);
            }
            i = i + 1;
        }
        None
    }
}

/// Creates `ctx.user`'s record at the address derived from the counter
/// namespace tag and the user, and returns that address. Refused, with the
/// store unchanged, when a record is already there or no address can be
/// derived.
pub fn initialize(store: &mut CounterStore, ctx: &Initialize) -> (r: Result<PublicKey, CounterError>)
    requires
        old(store).wf(),
    ensures
        final(store).wf(),
        final(store).spec_program_id() == old(store).spec_program_id(),
        final(store)@ == records_after(old(store)@, initialize_outcome(old(store)@, old(store).spec_program_id(), *ctx)),
        match initialize_outcome(old(store)@, old(store).spec_program_id(), *ctx) {
            Ok((address, _)) => r == Ok::<PublicKey, CounterError>(address),
            Err(e) => r == Err::<PublicKey, CounterError>(e),
        },
{
    let address = match derive_key(&COUNTER_SEED, &ctx.user, &store.program_id) {
        Some((address, _)) => address,
        None => return Err(CounterError::AddressUnavailable),
    };
    if store.get(&address).is_some() {
        return Err(CounterError::AlreadyExists);
    }
    let c = Counter::new(ctx.user, ctx.unix_timestamp);
    let ghost before = store.entries@;
    store.entries.push((address, c));
    proof {
        store.records@ = store.records@.insert(address, c);
        assert(store.entries@[before.len() as int].0 == address);
        assert forall|k: PublicKey| #[trigger] store.records@.contains_key(k) implies exists|i: int|
            0 <= i < store.entries@.len() && #[trigger] store.entries@[i].0 == k by {
            if k != address {
                let i = choose|i: int| 0 <= i < before.len() && #[trigger] before[i].0 == k;
                assert(store.entries@[i].0 == k);
            }
        }
    }
    Ok(address)
}

/// Initializing the same owner twice: the second call is refused and leaves
/// the records as the first left them; once the first has succeeded, the
/// second is refused because the record already exists.
pub proof fn initialize_twice_is_refused(
    records: Map<PublicKey, Counter>,
    program_id: PublicKey,
    first: Initialize,
    second: Initialize,
)
    requires
        first.user == second.user,
    ensures
        initialize_outcome(records_after(records, initialize_outcome(records, program_id, first)), program_id, second) is Err,
        records_after(
            records_after(records, initialize_outcome(records, program_id, first)),
            initialize_outcome(records_after(records, initialize_outcome(records, program_id, first)), program_id, second),
        ) == records_after(records, initialize_outcome(records, program_id, first)),
        initialize_outcome(records, program_id, first) is Ok ==> initialize_outcome(
            records_after(records, initialize_outcome(records, program_id, first)),
            program_id,
            second,
        ) == Err::<(PublicKey, Counter), CounterError>(CounterError::AlreadyExists),
{
}

} // verus!
