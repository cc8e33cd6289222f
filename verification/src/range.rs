//! Sharding ranges and shard identifiers.

use vstd::prelude::*;
use vstd::string::StringExecFns;

verus! {

/// Identifier of a shard: its 0-indexed number and the 1-indexed total
/// number of shards of the bot.
#[derive(Clone, Copy, Debug, PartialEq, Eq, Structural)]
pub struct ShardId {
    /// Number of the shard, 0-indexed.
    pub number: u32,
    /// Total number of shards.
    pub total: u32,
}

impl ShardId {
    /// Whether the identifier is one that the gateway accepts: the number
    /// is below the total (so the total is at least one).
    pub open spec fn valid(self) -> bool {
        self.number < self.total
    }

    /// Creates a shard identifier from its number and the total number of
    /// shards.
    pub fn new(number: u32, total: u32) -> (id: ShardId)
        requires
            number < total,
        ensures
            id.number == number,
            id.total == total,
            id.valid(),
    {
        ShardId { number, total }
    }

    /// Identifying number of the shard, 0-indexed.
    pub fn number(&self) -> (n: u32)
        ensures
            n == self.number,
    {
        self.number
    }

    /// Total number of shards, 1-indexed.
    pub fn total(&self) -> (t: u32)
        ensures
            t == self.total,
    {
        self.total
    }
}

/// An inclusive range `from..=to` of shard numbers out of `total` shards.
#[derive(Debug, Clone, Copy, PartialEq, Eq, Structural)]
pub struct ShardingRange {
    /// The starting shard index (inclusive).
    from: u32,
    /// The ending shard index (inclusive).
    to: u32,
    /// The total number of shards.
    total: u32,
}

/// Errors that can occur when building a [`ShardingRange`].
#[derive(Debug, Clone, Copy, PartialEq, Eq, Structural)]
pub enum ShardingRangeError {
    /// The total number of shards must be greater than zero.
    TotalIsZero,
    /// The `from` index must be less than or equal to the `to` index.
    FromTooLarge,
    /// The `to` index must be less than the total number of shards.
    ToTooLarge,
}

impl ShardingRangeError {
    /// The text of the error: the requirement that failed.
    pub fn describe(&self) -> (text: String)
        ensures
            text@ == match self {
                ShardingRangeError::TotalIsZero => "shard total must be greater than zero"@,
                ShardingRangeError::FromTooLarge => "`from` must be less than or equal to `to`"@,
                ShardingRangeError::ToTooLarge => "`to` must be less than `total`"@,
            },
    {
        match self {
            ShardingRangeError::TotalIsZero => String::from_str("shard total must be greater than zero"),
            ShardingRangeError::FromTooLarge => String::from_str("`from` must be less than or equal to `to`"),
            ShardingRangeError::ToTooLarge => String::from_str("`to` must be less than `total`"),
        }
    }
}

/// Whether `from..=to` out of `total` shards is a range that a manager can run.
pub open spec fn valid_range(from: int, to: int, total: int) -> bool {
    0 < total && from <= to && to < total
}

/// What building a range from `from`, `to` and `total` gives: the first
/// requirement that fails, checked in the order total, from, to, or the
/// range itself.
pub open spec fn checked_range(from: u32, to: u32, total: u32) -> Result<(u32, u32, u32), ShardingRangeError> {
    if total == 0 {
        Err(ShardingRangeError::TotalIsZero)
    } else if from > to {
        Err(ShardingRangeError::FromTooLarge)
    } else if to >= total {
        Err(ShardingRangeError::ToTooLarge)
    } else {
        Ok((from, to, total))
    }
}

/// The identifiers of the shards of the range `from..=to` out of `total`,
/// in order.
pub open spec fn range_ids(from: u32, to: u32, total: u32) -> Seq<ShardId> {
    Seq::new((to - from + 1) as nat, |i: int| ShardId { number: (from + i) as u32, total })
}

/// The identifiers of a valid range are valid shard identifiers of its
/// total, one per shard of the range, in order and with no number twice.
pub proof fn law_range_ids_are_distinct_and_valid(from: u32, to: u32, total: u32)
    requires
        valid_range(from as int, to as int, total as int),
    ensures
        range_ids(from, to, total).len() == to - from + 1,
        forall|i: int| 0 <= i < range_ids(from, to, total).len()
            ==> (#[trigger] range_ids(from, to, total)[i]).valid()
                && range_ids(from, to, total)[i].total == total
                && from <= range_ids(from, to, total)[i].number <= to
                && range_ids(from, to, total)[i].number == from + i,
        forall|i: int, j: int| 0 <= i < j < range_ids(from, to, total).len()
            ==> (#[trigger] range_ids(from, to, total)[i]).number < (#[trigger] range_ids(from, to, total)[j]).number,
{
}

/// Building a range succeeds exactly on valid arguments, and then holds
/// them; otherwise it names the first requirement that fails: a zero total,
/// else `from` after `to`, else `to` at or past the total. A caller of
/// `ShardingRange::new` must therefore pass exactly the arguments on which
/// `new_checked` succeeds, and gets the same range.
pub proof fn law_new_agrees_with_new_checked(from: u32, to: u32, total: u32)
    ensures
        valid_range(from as int, to as int, total as int) <==> checked_range(from, to, total) is Ok,
        valid_range(from as int, to as int, total as int) ==> checked_range(from, to, total) == Ok::<(u32, u32, u32), ShardingRangeError>((from, to, total)),
        checked_range(from, to, total) == Err::<(u32, u32, u32), ShardingRangeError>(ShardingRangeError::TotalIsZero) <==> total == 0,
        checked_range(from, to, total) == Err::<(u32, u32, u32), ShardingRangeError>(ShardingRangeError::FromTooLarge) <==> total != 0 && from > to,
        checked_range(from, to, total) == Err::<(u32, u32, u32), ShardingRangeError>(ShardingRangeError::ToTooLarge) <==> total != 0 && from <= to && to >= total,
{
}

impl View for ShardingRange {
    type V = (u32, u32, u32);

    closed spec fn view(&self) -> (u32, u32, u32) {
        (self.from, self.to, self.total)
    }
}

impl ShardingRange {
    #[verifier::type_invariant]
    spec fn inv(self) -> bool {
        valid_range(self.from as int, self.to as int, self.total as int)
    }

    /// Whether a manager running this range must restart its shards to run
    /// `new`: only when `new` is another range (other bounds or another
    /// total); setting the range it already runs changes nothing.
    pub fn is_replaced_by(&self, new: &ShardingRange) -> (r: bool)
        ensures
            r <==> self@ != new@,
    {
        !(self.from == new.from && self.to == new.to && self.total == new.total)
    }

    /// A range of a single shard: shard 0 out of 1.
    pub fn one() -> (r: ShardingRange)
        ensures
            r@ == (0u32, 0u32, 1u32),
    {
        ShardingRange { from: 0, to: 0, total: 1 }
    }

    /// Returns the starting shard index (inclusive).
    pub fn from(&self) -> (r: u32)
        ensures
            r == self@.0,
            valid_range(self@.0 as int, self@.1 as int, self@.2 as int),
    {
        proof { use_type_invariant(self); }
        self.from
    }

    /// Returns the ending shard index (inclusive).
    pub fn to(&self) -> (r: u32)
        ensures
            r == self@.1,
            valid_range(self@.0 as int, self@.1 as int, self@.2 as int),
    {
        proof { use_type_invariant(self); }
        self.to
    }

    /// Returns the total number of shards.
    pub fn total(&self) -> (r: u32)
        ensures
            r == self@.2,
            valid_range(self@.0 as int, self@.1 as int, self@.2 as int),
    {
        proof { use_type_invariant(self); }
        self.total
    }

    /// Builds a range from its bounds and total. The arguments must form a
    /// valid range: `total` is not zero, `from <= to` and `to < total`
    /// (a caller must rule out the other arguments).
    pub fn new(from: u32, to: u32, total: u32) -> (r: ShardingRange)
        requires
            valid_range(from as int, to as int, total as int),
        ensures
            r@ == (from, to, total),
            checked_range(from, to, total) == Ok::<(u32, u32, u32), ShardingRangeError>(r@),
    {
        ShardingRange { from, to, total }
    }

    /// Builds a range from its bounds and total, or returns the first
    /// requirement that fails: `TotalIsZero` if `total` is zero, else
    /// `FromTooLarge` if `from > to`, else `ToTooLarge` if `to >= total`.
    pub fn new_checked(from: u32, to: u32, total: u32) -> (r: Result<ShardingRange, ShardingRangeError>)
        ensures
            match r {
                Ok(range) => checked_range(from, to, total) == Ok::<(u32, u32, u32), ShardingRangeError>(range@),
                Err(e) => checked_range(from, to, total) == Err::<(u32, u32, u32), ShardingRangeError>(e),
            },
            r is Ok <==> valid_range(from as int, to as int, total as int),
    {
        if total == 0 {
            return Err(ShardingRangeError::TotalIsZero);
        }
        if from > to {
            return Err(ShardingRangeError::FromTooLarge);
        }
        if to >= total {
            return Err(ShardingRangeError::ToTooLarge);
        }
        Ok(ShardingRange { from, to, total })
    }

    /// Number of shards that a manager running this range boots:
    /// `to - from + 1`.
    pub fn count(&self) -> (n: u32)
        ensures
            n == self@.1 - self@.0 + 1,
            1 <= n <= self@.2,
    {
        proof { use_type_invariant(self); }
        (self.to - self.from) + 1
    }

    /// The identifiers of the shards of the range, in order: shard
    /// `from + i` out of `total` at position `i`.
    pub fn shard_ids(&self) -> (ids: Vec<ShardId>)
        ensures
            ids@ == range_ids(self@.0, self@.1, self@.2),
    {
        proof { use_type_invariant(self); }
        let mut ids: Vec<ShardId> = Vec::new();
        let mut n: u32 = self.from;
        while n <= self.to
            invariant
                self.from <= n <= self.to + 1,
                self.to < self.total,
                ids.len() == n - self.from,
                forall|i: int| 0 <= i < ids.len() ==> (#[trigger] ids@[i]).number == self.from + i
                    && ids@[i].total == self.total && ids@[i].valid(),
            decreases self.to + 1 - n,
        {
            ids.push(ShardId::new(n, self.total));
            n = n + 1;
        }
        assert(ids@ =~= range_ids(self.from, self.to, self.total));
        ids
    }
}

} // verus!
