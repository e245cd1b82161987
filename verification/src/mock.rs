//! The test runtime of the kitties module: its parameters, the balances it starts with,
//! and the schedule of hooks that advances it from one block to a later one.

use vstd::prelude::*;
use crate::origin::{AccountId, BlockNumber};

verus! {

/// The test runtime.
#[derive(Clone, Copy, PartialEq, Eq, Debug)]
pub struct Test;

impl Test {
    /// How many recent block hashes the runtime keeps.
    pub fn block_hash_count() -> (r: u64)
        ensures
            r == 250,
    {
        250
    }

    /// The greatest weight of a block.
    pub fn maximum_block_weight() -> (r: u64)
        ensures
            r == 1024,
    {
        1024
    }

    /// The greatest length of a block, in bytes.
    pub fn maximum_block_length() -> (r: u32)
        ensures
            r == 2 * 1024,
    {
        2 * 1024
    }

    /// The share of a block available to normal transactions, in percent.
    pub fn available_block_ratio_percent() -> (r: u32)
        ensures
            r == 75,
    {
        75
    }

    /// The least balance an account must hold to exist.
    pub fn existential_deposit() -> (r: u64)
        ensures
            r == 1,
    {
        1
    }

    /// The deposit reserved for each kitty.
    pub fn staking_money() -> (r: u64)
        ensures
            r == crate::kitties::STAKING_MONEY,
    {
        crate::kitties::STAKING_MONEY
    }

    /// The free balance of each account at genesis.
    pub fn genesis_balances() -> (r: Vec<(AccountId, u64)>)
        ensures
            r@ == seq![(1u64, 10000000000u64), (2u64, 110000000u64), (3u64, 1200000000u64),
                (4u64, 1300000000u64), (5u64, 1400000000u64)],
    {
        let r = vec![(1, 10000000000), (2, 110000000), (3, 1200000000), (4, 1300000000), (5, 1400000000)];
        assert(r@ =~= seq![(1u64, 10000000000u64), (2u64, 110000000u64), (3u64, 1200000000u64),
            (4u64, 1300000000u64), (5u64, 1400000000u64)]);
        r
    }
}

/// A hook of the runtime called while it moves from one block to the next.
#[derive(Clone, Copy, PartialEq, Eq, Debug)]
pub enum BlockHook {
    /// The kitties module finalizes the block.
    KittiesFinalize(BlockNumber),
    /// The system finalizes the block.
    SystemFinalize(BlockNumber),
    /// The system's block number is set.
    SetBlockNumber(BlockNumber),
    /// The system initializes the block.
    SystemInitialize(BlockNumber),
    /// The kitties module initializes the block.
    KittiesInitialize(BlockNumber),
}

/// The hooks that move the runtime from block `b` to block `b + 1`, in order.
pub open spec fn block_transition(b: BlockNumber) -> Seq<BlockHook> {
    seq![
        BlockHook::KittiesFinalize(b),
        BlockHook::SystemFinalize(b),
        BlockHook::SetBlockNumber((b + 1) as u64),
        BlockHook::SystemInitialize((b + 1) as u64),
        BlockHook::KittiesInitialize((b + 1) as u64),
    ]
}

/// The hooks that move the runtime from block `now` to block `n`: one transition for each
/// block from `now` up to `n - 1`, and none where `n <= now`.
pub open spec fn spec_run_to_block(now: BlockNumber, n: int) -> Seq<BlockHook>
    decreases n - now,
{
    if n <= now {
        Seq::empty()
    } else {
        spec_run_to_block(now, n - 1) + block_transition((n - 1) as u64)
    }
}

/// The block the runtime stands at after moving from `now` towards `n`.
pub open spec fn block_reached(now: BlockNumber, n: BlockNumber) -> BlockNumber {
    if now < n { n } else { now }
}

proof fn lemma_run_to_block_len(now: BlockNumber, n: int)
    ensures
        spec_run_to_block(now, n).len() == if n <= now { 0 } else { 5 * (n - now) },
    decreases n - now,
{
    if n > now {
        lemma_run_to_block_len(now, n - 1);
    }
}

/// Moving from `now` to `m` and then on to `n` (with `m <= n`) makes the same hook calls,
/// in the same order, as moving from `now` to `n` at once.
pub proof fn lemma_run_to_block_split(now: BlockNumber, m: BlockNumber, n: BlockNumber)
    requires
        m <= n,
    ensures
        spec_run_to_block(now, m as int) + spec_run_to_block(block_reached(now, m), n as int)
            == spec_run_to_block(now, n as int),
{
    lemma_split_from(now, m, n as int);
}

proof fn lemma_split_from(now: BlockNumber, m: BlockNumber, n: int)
    requires
        m <= n,
    ensures
        spec_run_to_block(now, m as int) + spec_run_to_block(block_reached(now, m), n)
            == spec_run_to_block(now, n),
    decreases n - m,
{
    let b = block_reached(now, m);
    if n <= now {
        assert(spec_run_to_block(now, m as int) =~= Seq::empty());
        assert(spec_run_to_block(b, n) =~= Seq::empty());
        assert(spec_run_to_block(now, n) =~= Seq::empty());
    } else if m <= now {
        assert(spec_run_to_block(now, m as int) =~= Seq::empty());
        assert(Seq::<BlockHook>::empty() + spec_run_to_block(now, n) =~= spec_run_to_block(now, n));
    } else if n == m {
        assert(spec_run_to_block(m, n) =~= Seq::empty());
        assert(spec_run_to_block(now, m as int) + Seq::<BlockHook>::empty() =~= spec_run_to_block(now, n));
    } else {
        lemma_split_from(now, m, n - 1);
        let left = spec_run_to_block(now, m as int);
        let mid = spec_run_to_block(m, n - 1);
        let last = block_transition((n - 1) as u64);
        assert(spec_run_to_block(m, n) == mid + last);
        assert(left + (mid + last) =~= (left + mid) + last);
    }
}

/// Moving to a block the runtime already stands at makes no hook calls: a second run to
/// the same block does nothing.
pub proof fn lemma_run_to_block_twice(now: BlockNumber, n: BlockNumber)
    ensures
        spec_run_to_block(block_reached(now, n), n as int) == Seq::<BlockHook>::empty(),
        block_reached(block_reached(now, n), n) == block_reached(now, n),
{
}

/// Taking one step with `next_block_hooks` and then running on to `n` makes the same hook
/// calls as running to `n` at once.
pub proof fn lemma_run_to_block_step(now: BlockNumber, n: BlockNumber)
    requires
        now < n,
    ensures
        spec_run_to_block(now, n as int) == block_transition(now) + spec_run_to_block((now + 1) as u64, n as int),
{
    lemma_split_from(now, (now + 1) as u64, n as int);
    assert(spec_run_to_block(now, now as int) == Seq::<BlockHook>::empty());
    assert(spec_run_to_block(now, now + 1) == spec_run_to_block(now, now as int) + block_transition(now));
    assert(spec_run_to_block(now, now + 1) =~= block_transition(now));
    assert(block_reached(now, (now + 1) as u64) == now + 1);
}

/// The hooks of one step of `run_to_block`, taken while the runtime stands at block
/// `current`: the transition to block `current + 1` where `current` is below `n`, and
/// `None` (the run is over) otherwise.
pub fn next_block_hooks(current: BlockNumber, n: BlockNumber) -> (r: Option<Vec<BlockHook>>)
    ensures
        current < n ==> (r matches Some(v) && v@ == block_transition(current)),
        current >= n ==> r is None,
{
    if current < n {
        let v = vec![
            BlockHook::KittiesFinalize(current),
            BlockHook::SystemFinalize(current),
            BlockHook::SetBlockNumber(current + 1),
            BlockHook::SystemInitialize(current + 1),
            BlockHook::KittiesInitialize(current + 1),
        ];
        assert(v@ =~= block_transition(current));
        Some(v)
    } else {
        None
    }
}

/// The schedule of hooks that runs the runtime from block `now` to block `n`: while the
/// block number is below `n`, the kitties module and then the system finalize the block,
/// the block number is raised by one, and the system and then the kitties module
/// initialize the new block.
pub fn run_to_block(now: BlockNumber, n: BlockNumber) -> (hooks: Vec<BlockHook>)
    requires
        now < n ==> 5 * (n - now) <= usize::MAX,
    ensures
        hooks@ == spec_run_to_block(now, n as int),
        hooks@.len() == if now < n { 5 * (n - now) } else { 0 },
        hooks@.len() > 0 ==> hooks@.last() == BlockHook::KittiesInitialize(block_reached(now, n)),
{
    let mut hooks: Vec<BlockHook> = Vec::new();
    let mut block = now;
    while block < n
        invariant
            now <= block,
            now < n ==> block <= n,
            now >= n ==> block == now,
            now < n ==> 5 * (n - now) <= usize::MAX,
            hooks@ == spec_run_to_block(now, block as int),
        decreases n - block,
    {
        proof {
            lemma_run_to_block_len(now, block as int);
        }
        hooks.push(BlockHook::KittiesFinalize(block));
        hooks.push(BlockHook::SystemFinalize(block));
        hooks.push(BlockHook::SetBlockNumber(block + 1));
        hooks.push(BlockHook::SystemInitialize(block + 1));
        hooks.push(BlockHook::KittiesInitialize(block + 1));
        assert(hooks@ =~= spec_run_to_block(now, block as int) + block_transition(block));
        block = block + 1;
    }
    proof {
        lemma_run_to_block_len(now, n as int);
    }
    hooks
}

} // verus!
