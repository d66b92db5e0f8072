//! Benchmarked weights of the DEX module's extrinsics.
//!
//! Every weight is a constant computation time plus the cost of the
//! database reads and writes the extrinsic performs; the swaps add a
//! further cost per hop of the trading path. All arithmetic saturates.

use vstd::prelude::*;
use crate::weight::{mul_saturating, saturate, RuntimeDbWeight, Weight};

verus! {

/// Time charged for `reads` database reads and `writes` database writes.
pub open spec fn db_time(db: RuntimeDbWeight, reads: int, writes: int) -> int {
    db.read * reads + db.write * writes
}

/// Computation time of an extrinsic with fixed cost `base` that reads
/// `reads` and writes `writes` storage items.
pub open spec fn fixed_ref_time(db: RuntimeDbWeight, base: int, reads: int, writes: int) -> int {
    saturate(base + db_time(db, reads, writes))
}

/// Computation time of a swap along a path of `u` tokens: a fixed cost
/// `base`, `per_hop` for each token, one read plus two per token, and two
/// writes plus one per token.
pub open spec fn swap_ref_time(db: RuntimeDbWeight, base: int, per_hop: int, u: int) -> int {
    saturate(base + per_hop * u + db_time(db, 1 + 2 * u, 2 + u))
}

/// Adding two saturated non-negative amounts and saturating again is the
/// same as saturating the plain sum.
proof fn lemma_saturate_sum(x: int, y: int)
    requires
        x >= 0,
        y >= 0,
    ensures
        saturate(saturate(x) + saturate(y)) == saturate(x + y),
{
}

/// A swap along a longer path never weighs less than one along a shorter path.
pub proof fn swap_weight_grows_with_path(
    db: RuntimeDbWeight,
    base: u64,
    per_hop: u64,
    u1: u32,
    u2: u32,
)
    requires
        u1 <= u2,
    ensures
        swap_ref_time(db, base as int, per_hop as int, u1 as int) <= swap_ref_time(
            db,
            base as int,
            per_hop as int,
            u2 as int,
        ),
{
    let a = per_hop * u1;
    let b = per_hop * u2;
    let r1 = db.read * (1 + 2 * u1);
    let r2 = db.read * (1 + 2 * u2);
    let w1 = db.write * (2 + u1);
    let w2 = db.write * (2 + u2);
    assert(a <= b && r1 <= r2 && w1 <= w2) by (nonlinear_arith)
        requires
            u1 <= u2,
            0 <= u1,
            a == per_hop * u1,
            b == per_hop * u2,
            r1 == db.read * (1 + 2 * u1),
            r2 == db.read * (1 + 2 * u2),
            w1 == db.write * (2 + u1),
            w2 == db.write * (2 + u2),
            0 <= per_hop,
            0 <= db.read,
            0 <= db.write,
    ;
}

/// Dearer database access never makes an extrinsic weigh less.
pub proof fn weight_grows_with_db_cost(
    cheap: RuntimeDbWeight,
    dear: RuntimeDbWeight,
    base: u64,
    reads: u64,
    writes: u64,
    per_hop: u64,
    u: u32,
)
    requires
        cheap.read <= dear.read,
        cheap.write <= dear.write,
    ensures
        fixed_ref_time(cheap, base as int, reads as int, writes as int) <= fixed_ref_time(
            dear,
            base as int,
            reads as int,
            writes as int,
        ),
        swap_ref_time(cheap, base as int, per_hop as int, u as int) <= swap_ref_time(
            dear,
            base as int,
            per_hop as int,
            u as int,
        ),
{
    let r1 = cheap.read * reads;
    let r2 = dear.read * reads;
    let w1 = cheap.write * writes;
    let w2 = dear.write * writes;
    let sr1 = cheap.read * (1 + 2 * u);
    let sr2 = dear.read * (1 + 2 * u);
    let sw1 = cheap.write * (2 + u);
    let sw2 = dear.write * (2 + u);
    assert(r1 <= r2 && w1 <= w2 && sr1 <= sr2 && sw1 <= sw2) by (nonlinear_arith)
        requires
            cheap.read <= dear.read,
            cheap.write <= dear.write,
            0 <= reads,
            0 <= writes,
            0 <= u,
            r1 == cheap.read * reads,
            r2 == dear.read * reads,
            w1 == cheap.write * writes,
            w2 == dear.write * writes,
            sr1 == cheap.read * (1 + 2 * u),
            sr2 == dear.read * (1 + 2 * u),
            sw1 == cheap.write * (2 + u),
            sw2 == dear.write * (2 + u),
    ;
}

/// Weights of the DEX module, for a given cost of database access.
#[derive(Clone, Copy, Debug)]
pub struct WeightInfo {
    pub db_weight: RuntimeDbWeight,
}

impl WeightInfo {
    /// The weights for database access costing `db_weight`.
    pub fn new(db_weight: RuntimeDbWeight) -> (s: WeightInfo)
        ensures
            s.db_weight == db_weight,
    {
        WeightInfo { db_weight }
    }

    fn fixed(&self, base: u64, reads: u64, writes: u64) -> (w: Weight)
        ensures
            w.ref_time == fixed_ref_time(self.db_weight, base as int, reads as int, writes as int),
            w.proof_size == 0,
    {
        let db = self.db_weight;
        let w = Weight::from_ref_time(base).saturating_add(db.reads(reads)).saturating_add(
            db.writes(writes),
        );
        proof {
            let r = db.read * reads;
            let wr = db.write * writes;
            assert(r >= 0 && wr >= 0) by (nonlinear_arith)
                requires
                    r == db.read * reads,
                    wr == db.write * writes,
            ;
            lemma_saturate_sum(base as int, r);
            lemma_saturate_sum(base + r, wr);
        }
        w
    }

    fn swap(&self, base: u64, per_hop: u64, u: u32) -> (w: Weight)
        ensures
            w.ref_time == swap_ref_time(self.db_weight, base as int, per_hop as int, u as int),
            w.proof_size == 0,
    {
        let db = self.db_weight;
        let hops: u64 = u as u64;
        let w = Weight::from_ref_time(base).saturating_add(
            Weight::from_ref_time(per_hop).saturating_mul(hops),
        ).saturating_add(db.reads(1)).saturating_add(db.reads(mul_saturating(2, hops))).saturating_add(
            db.writes(2),
        ).saturating_add(db.writes(mul_saturating(1, hops)));
        proof {
            let p = per_hop * u;
            let r1 = db.read * 1;
            let r2 = db.read * (2 * u);
            let w1 = db.write * 2;
            let w2 = db.write * u;
            assert(p >= 0 && r1 == db.read && r2 >= 0 && w1 >= 0 && w2 >= 0 && r1 + r2 == db.read * (1
                + 2 * u) && w1 + w2 == db.write * (2 + u)) by (nonlinear_arith)
                requires
                    p == per_hop * u,
                    r1 == db.read * 1,
                    r2 == db.read * (2 * u),
                    w1 == db.write * 2,
                    w2 == db.write * u,
                    u >= 0,
            ;
            assert(saturate(2 * u) == 2 * u);
            assert(saturate(1 * u) == u);
            lemma_saturate_sum(base as int, p);
            lemma_saturate_sum(base + p, r1);
            lemma_saturate_sum(base + p + r1, r2);
            lemma_saturate_sum(base + p + r1 + r2, w1);
            lemma_saturate_sum(base + p + r1 + r2 + w1, w2);
        }
        w
    }

    /// Enabling a trading pair: reads and writes its status.
    pub fn enable_trading_pair(&self) -> (w: Weight)
        ensures
            w.ref_time == fixed_ref_time(self.db_weight, 17_331_000, 1, 1),
            w.proof_size == 0,
    {
        self.fixed(17_331_000, 1, 1)
    }

    /// Disabling a trading pair: reads and writes its status.
    pub fn disable_trading_pair(&self) -> (w: Weight)
        ensures
            w.ref_time == fixed_ref_time(self.db_weight, 18_452_000, 1, 1),
            w.proof_size == 0,
    {
        self.fixed(18_452_000, 1, 1)
    }

    /// Listing a pair for provisioning.
    pub fn list_provisioning(&self) -> (w: Weight)
        ensures
            w.ref_time == fixed_ref_time(self.db_weight, 23_858_000, 3, 1),
            w.proof_size == 0,
    {
        self.fixed(23_858_000, 3, 1)
    }

    /// Updating the provisioning parameters of a pair.
    pub fn update_provisioning_parameters(&self) -> (w: Weight)
        ensures
            w.ref_time == fixed_ref_time(self.db_weight, 10_948_000, 1, 1),
            w.proof_size == 0,
    {
        self.fixed(10_948_000, 1, 1)
    }

    /// Ending the provisioning of a pair.
    pub fn end_provisioning(&self) -> (w: Weight)
        ensures
            w.ref_time == fixed_ref_time(self.db_weight, 48_094_000, 5, 6),
            w.proof_size == 0,
    {
        self.fixed(48_094_000, 5, 6)
    }

    /// Adding a provision.
    pub fn add_provision(&self) -> (w: Weight)
        ensures
            w.ref_time == fixed_ref_time(self.db_weight, 76_656_000, 5, 5),
            w.proof_size == 0,
    {
        self.fixed(76_656_000, 5, 5)
    }

    /// Claiming the DEX share of a provision.
    pub fn claim_dex_share(&self) -> (w: Weight)
        ensures
            w.ref_time == fixed_ref_time(self.db_weight, 69_164_000, 7, 5),
            w.proof_size == 0,
    {
        self.fixed(69_164_000, 7, 5)
    }

    /// Adding liquidity.
    pub fn add_liquidity(&self) -> (w: Weight)
        ensures
            w.ref_time == fixed_ref_time(self.db_weight, 94_294_000, 8, 6),
            w.proof_size == 0,
    {
        self.fixed(94_294_000, 8, 6)
    }

    /// Adding liquidity and staking the shares.
    pub fn add_liquidity_and_stake(&self) -> (w: Weight)
        ensures
            w.ref_time == fixed_ref_time(self.db_weight, 131_607_000, 11, 9),
            w.proof_size == 0,
    {
        self.fixed(131_607_000, 11, 9)
    }

    /// Removing liquidity.
    pub fn remove_liquidity(&self) -> (w: Weight)
        ensures
            w.ref_time == fixed_ref_time(self.db_weight, 88_510_000, 6, 6),
            w.proof_size == 0,
    {
        self.fixed(88_510_000, 6, 6)
    }

    /// Removing liquidity by unstaking the shares.
    pub fn remove_liquidity_by_unstake(&self) -> (w: Weight)
        ensures
            w.ref_time == fixed_ref_time(self.db_weight, 141_724_000, 11, 9),
            w.proof_size == 0,
    {
        self.fixed(141_724_000, 11, 9)
    }

    /// Swapping an exact supply along a path of `u` tokens.
    pub fn swap_with_exact_supply(&self, u: u32) -> (w: Weight)
        ensures
            w.ref_time == swap_ref_time(self.db_weight, 52_471_993, 10_676_220, u as int),
            w.proof_size == 0,
    {
        self.swap(52_471_993, 10_676_220, u)
    }

    /// Swapping for an exact target along a path of `u` tokens.
    pub fn swap_with_exact_target(&self, u: u32) -> (w: Weight)
        ensures
            w.ref_time == swap_ref_time(self.db_weight, 52_512_131, 10_710_101, u as int),
            w.proof_size == 0,
    {
        self.swap(52_512_131, 10_710_101, u)
    }

    /// Refunding a provision.
    pub fn refund_provision(&self) -> (w: Weight)
        ensures
            w.ref_time == fixed_ref_time(self.db_weight, 78_334_000, 7, 4),
            w.proof_size == 0,
    {
        self.fixed(78_334_000, 7, 4)
    }

    /// Aborting the provisioning of a pair.
    pub fn abort_provisioning(&self) -> (w: Weight)
        ensures
            w.ref_time == fixed_ref_time(self.db_weight, 22_759_000, 1, 1),
            w.proof_size == 0,
    {
        self.fixed(22_759_000, 1, 1)
    }
}

} // verus!
