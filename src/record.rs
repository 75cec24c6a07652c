use crate::key::PublicKey;
use vstd::prelude::*;

verus! {

/// Why an operation on a counter was refused. Every error is detected
/// before anything is changed.
#[derive(Clone, Copy, Debug, PartialEq, Eq, Structural)]
pub enum CounterError {
    /// The caller is not the record's owner.
    Unauthorized,
    /// An increment would carry `count` or `total_increments` past `u64::MAX`.
    Overflow,
    /// A record already exists at the owner's address.
    AlreadyExists,
    /// No address can be derived for the owner.
    AddressUnavailable,
}

/// The persisted counter state of one owner.
#[derive(Clone, Copy, Debug, PartialEq, Eq)]
pub struct Counter {
    pub owner: PublicKey,
    pub count: u64,
    pub total_increments: u64,
    pub created_at: i64,
}

/// The accounts of an increment or a reset: the caller and the record it
/// addresses.
pub struct Update {
    pub counter: Counter,
    pub user: PublicKey,
}

/// The record a successful operation leaves, or `Err` with the reason it is
/// refused.
pub open spec fn increment_outcome(c: Counter, user: PublicKey) -> Result<Counter, CounterError> {
    if c.owner != user {
        Err(CounterError::Unauthorized)
    } else if c.count == u64::MAX || c.total_increments == u64::MAX {
        Err(CounterError::Overflow)
    } else {
        Ok(Counter { count: (c.count + 1) as u64, total_increments: (c.total_increments + 1) as u64, ..c })
    }
}

pub open spec fn reset_outcome(c: Counter, user: PublicKey) -> Result<Counter, CounterError> {
    if c.owner != user {
        Err(CounterError::Unauthorized)
    } else {
        Ok(Counter { count: 0, ..c })
    }
}

/// The record after an operation with this outcome: a refused operation
/// leaves it as it was.
pub open spec fn record_after(c: Counter, outcome: Result<Counter, CounterError>) -> Counter {
    match outcome {
        Ok(next) => next,
        Err(_) => c,
    }
}

/// `after` is `before` with `outcome` applied to its record, and `r` reports it.
pub open spec fn applied(
    before: Update,
    after: Update,
    outcome: Result<Counter, CounterError>,
    r: Result<(), CounterError>,
) -> bool {
    &&& after.user == before.user
    &&& after.counter == record_after(before.counter, outcome)
    &&& match outcome {
        Ok(_) => r == Ok::<(), CounterError>(()),
        Err(e) => r == Err::<(), CounterError>(e),
    }
}

impl Counter {
    /// A fresh record of `owner`, created at `created_at`.
    pub fn new(owner: PublicKey, created_at: i64) -> (r: Counter)
        ensures
            r == (Counter { owner, count: 0, total_increments: 0, created_at }),
    {
        Counter { owner, count: 0, total_increments: 0, created_at }
    }
}

/// Adds one to the counter and to its lifetime total, when the caller owns
/// it and neither would overflow; otherwise changes nothing.
pub fn increment(ctx: &mut Update) -> (r: Result<(), CounterError>)
    ensures
        applied(*old(ctx), *final(ctx), increment_outcome(old(ctx).counter, old(ctx).user), r),
{
    if !(ctx.counter.owner == ctx.user) {
        return Err(CounterError::Unauthorized);
    }
    let count = ctx.counter.count.checked_add(1);
    let total = ctx.counter.total_increments.checked_add(1);
    match (count, total) {
        (Some(count), Some(total)) => {
            ctx.counter.count = count;
            ctx.counter.total_increments = total;
            Ok(())
        },
        _ => Err(CounterError::Overflow),
    }
}

/// Sets the counter back to zero when the caller owns it; otherwise changes
/// nothing.
pub fn reset(ctx: &mut Update) -> (r: Result<(), CounterError>)
    ensures
        applied(*old(ctx), *final(ctx), reset_outcome(old(ctx).counter, old(ctx).user), r),
{
    if !(ctx.counter.owner == ctx.user) {
        return Err(CounterError::Unauthorized);
    }
    ctx.counter.count = 0;
    Ok(())
}

/// A caller other than the owner can neither increment nor reset a record:
/// both are refused as unauthorized, and the record is left as it was.
pub proof fn non_owner_is_refused(c: Counter, user: PublicKey)
    requires
        user != c.owner,
    ensures
        increment_outcome(c, user) == Err::<Counter, CounterError>(CounterError::Unauthorized),
        reset_outcome(c, user) == Err::<Counter, CounterError>(CounterError::Unauthorized),
        record_after(c, increment_outcome(c, user)) == c,
        record_after(c, reset_outcome(c, user)) == c,
{
}

/// The owner's increment, where neither field is at its maximum, adds
/// exactly one to `count` and to `total_increments` and keeps the owner and
/// the creation time.
pub proof fn owner_increment_adds_one(c: Counter)
    requires
        c.count < u64::MAX,
        c.total_increments < u64::MAX,
    ensures
        increment_outcome(c, c.owner) is Ok,
        record_after(c, increment_outcome(c, c.owner)).count == c.count + 1,
        record_after(c, increment_outcome(c, c.owner)).total_increments == c.total_increments + 1,
        record_after(c, increment_outcome(c, c.owner)).owner == c.owner,
        record_after(c, increment_outcome(c, c.owner)).created_at == c.created_at,
{
}

/// Resetting a counter that is already zero leaves the record unchanged,
/// whoever calls.
pub proof fn reset_of_zero_is_unchanged(c: Counter, user: PublicKey)
    requires
        c.count == 0,
    ensures
        record_after(c, reset_outcome(c, user)) == c,
{
}

/// The owner's increment of a counter at `u64::MAX` is refused as an
/// overflow and leaves every field as it was, `total_increments` included.
pub proof fn increment_at_max_overflows(c: Counter)
    requires
        c.count == u64::MAX,
    ensures
        increment_outcome(c, c.owner) == Err::<Counter, CounterError>(CounterError::Overflow),
        record_after(c, increment_outcome(c, c.owner)) == c,
{
}

/// Whatever the caller and outcome, an increment or a reset keeps the
/// owner and the creation time, never lowers `total_increments`, and a
/// reset never changes it.
pub proof fn owner_and_total_are_kept(c: Counter, user: PublicKey)
    ensures
        record_after(c, increment_outcome(c, user)).owner == c.owner,
        record_after(c, increment_outcome(c, user)).created_at == c.created_at,
        record_after(c, increment_outcome(c, user)).total_increments >= c.total_increments,
        record_after(c, reset_outcome(c, user)).owner == c.owner,
        record_after(c, reset_outcome(c, user)).created_at == c.created_at,
        record_after(c, reset_outcome(c, user)).total_increments == c.total_increments,
{
}

} // verus!
