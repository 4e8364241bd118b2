//! Benchmarked weights of the EMA-oracle pallet on Basilisk.

use vstd::prelude::*;

verus! {

/// Saturating sum of two `u64`.
pub open spec fn sat_add(x: u64, y: u64) -> u64 {
    if x + y > u64::MAX {
        u64::MAX
    } else {
        (x + y) as u64
    }
}

/// Saturating product of two `u64`.
pub open spec fn sat_mul(x: u64, y: u64) -> u64 {
    if x * y > u64::MAX {
        u64::MAX
    } else {
        (x * y) as u64
    }
}

/// The cost of an operation: reference time and proof size.
#[derive(Clone, Copy, Debug, PartialEq, Eq, Structural)]
pub struct Weight {
    pub ref_time: u64,
    pub proof_size: u64,
}

/// Component-wise saturating sum of two weights.
pub open spec fn weight_add(a: Weight, b: Weight) -> Weight {
    Weight { ref_time: sat_add(a.ref_time, b.ref_time), proof_size: sat_add(a.proof_size, b.proof_size) }
}

/// Component-wise saturating product of a weight and a scalar.
pub open spec fn weight_mul(a: Weight, s: u64) -> Weight {
    Weight { ref_time: sat_mul(a.ref_time, s), proof_size: sat_mul(a.proof_size, s) }
}

/// The weight of `r` reads (`reads`) or writes (`writes`) at cost `unit`
/// each: reference time only.
pub open spec fn db_weight(unit: u64, r: u64) -> Weight {
    Weight { ref_time: sat_mul(unit, r), proof_size: 0 }
}

impl Weight {
    /// The weight with the given parts.
    pub fn from_parts(ref_time: u64, proof_size: u64) -> (r: Weight)
        ensures
            r == (Weight { ref_time, proof_size }),
    {
        Weight { ref_time, proof_size }
    }

    /// Component-wise saturating sum.
    pub fn saturating_add(self, rhs: Weight) -> (r: Weight)
        ensures
            r == weight_add(self, rhs),
    {
        let (ref_time, proof_size) = weights_saturating_add(
            self.ref_time,
            self.proof_size,
            rhs.ref_time,
            rhs.proof_size,
        );
        Weight { ref_time, proof_size }
    }

    /// Component-wise saturating product with a scalar.
    pub fn saturating_mul(self, scalar: u64) -> (r: Weight)
        ensures
            r == weight_mul(self, scalar),
    {
        let (ref_time, proof_size) = weights_saturating_mul(self.ref_time, self.proof_size, scalar);
        Weight { ref_time, proof_size }
    }
}

/// Cost of one database read and of one database write.
#[derive(Clone, Copy, Debug, PartialEq, Eq, Structural)]
pub struct RuntimeDbWeight {
    pub read: u64,
    pub write: u64,
}

impl RuntimeDbWeight {
    /// The weight of `r` reads.
    pub fn reads(self, r: u64) -> (w: Weight)
        ensures
            w == db_weight(self.read, r),
    {
        let (ref_time, proof_size) = db_reads(self.read, self.write, r);
        Weight { ref_time, proof_size }
    }

    /// The weight of `w` writes.
    pub fn writes(self, w: u64) -> (r: Weight)
        ensures
            r == db_weight(self.write, w),
    {
        let (ref_time, proof_size) = db_writes(self.read, self.write, w);
        Weight { ref_time, proof_size }
    }
}

/// Calls `sp_weights::Weight::saturating_add` on the weights with the given
/// parts: each part is added, saturating.
#[verifier::external_body]
fn weights_saturating_add(a_ref: u64, a_proof: u64, b_ref: u64, b_proof: u64) -> (r: (u64, u64))
    ensures
        r == (sat_add(a_ref, b_ref), sat_add(a_proof, b_proof)),
{
    let w = sp_weights::Weight::from_parts(a_ref, a_proof).saturating_add(
        sp_weights::Weight::from_parts(b_ref, b_proof),
    );
    (w.ref_time(), w.proof_size())
}

/// Calls `sp_weights::Weight::saturating_mul`: each part is multiplied by the
/// scalar, saturating.
#[verifier::external_body]
fn weights_saturating_mul(a_ref: u64, a_proof: u64, scalar: u64) -> (r: (u64, u64))
    ensures
        r == (sat_mul(a_ref, scalar), sat_mul(a_proof, scalar)),
{
    let w = sp_weights::Weight::from_parts(a_ref, a_proof).saturating_mul(scalar);
    (w.ref_time(), w.proof_size())
}

/// Calls `sp_weights::RuntimeDbWeight::reads`: reference time
/// `read * r` (saturating), proof size 0.
#[verifier::external_body]
fn db_reads(read: u64, write: u64, r: u64) -> (w: (u64, u64))
    ensures
        w == (sat_mul(read, r), 0u64),
{
    let w = sp_weights::RuntimeDbWeight { read, write }.reads(r);
    (w.ref_time(), w.proof_size())
}

/// Calls `sp_weights::RuntimeDbWeight::writes`: reference time
/// `write * w` (saturating), proof size 0.
#[verifier::external_body]
fn db_writes(read: u64, write: u64, w: u64) -> (r: (u64, u64))
    ensures
        r == (sat_mul(write, w), 0u64),
{
    let r = sp_weights::RuntimeDbWeight { read, write }.writes(w);
    (r.ref_time(), r.proof_size())
}

/// `x * y`, saturating at `u64::MAX`.
fn saturating_mul_u64(x: u64, y: u64) -> (r: u64)
    ensures
        r == sat_mul(x, y),
{
    match x.checked_mul(y) {
        Some(v) => v,
        None => u64::MAX,
    }
}

/// Weight of `on_finalize` with no accumulated entry.
pub open spec fn on_finalize_no_entry_weight(db: RuntimeDbWeight) -> Weight {
    weight_add(Weight { ref_time: 3_986_000, proof_size: 5926 }, db_weight(db.read, 1))
}

/// Weight of `on_finalize` with `b` tokens.
pub open spec fn on_finalize_multiple_tokens_weight(b: u32, db: RuntimeDbWeight) -> Weight {
    weight_add(
        weight_add(
            weight_add(
                weight_add(
                    weight_add(
                        weight_add(
                            Weight { ref_time: 12_421_249, proof_size: 5926 },
                            weight_mul(Weight { ref_time: 60_856_147, proof_size: 0 }, b as u64),
                        ),
                        db_weight(db.read, 1),
                    ),
                    db_weight(db.read, sat_mul(5, b as u64)),
                ),
                db_weight(db.write, 1),
            ),
            db_weight(db.write, sat_mul(5, b as u64)),
        ),
        weight_mul(Weight { ref_time: 0, proof_size: 13260 }, b as u64),
    )
}

/// Weight of `on_trade` with `b` tokens.
pub open spec fn on_trade_multiple_tokens_weight(b: u32, db: RuntimeDbWeight) -> Weight {
    weight_add(
        weight_add(
            weight_add(
                Weight { ref_time: 9_455_551, proof_size: 5926 },
                weight_mul(Weight { ref_time: 384_006, proof_size: 0 }, b as u64),
            ),
            db_weight(db.read, 1),
        ),
        db_weight(db.write, 1),
    )
}

/// Weight of `on_liquidity_changed` with `b` tokens.
pub open spec fn on_liquidity_changed_multiple_tokens_weight(b: u32, db: RuntimeDbWeight) -> Weight {
    weight_add(
        weight_add(
            weight_add(
                Weight { ref_time: 9_473_229, proof_size: 5926 },
                weight_mul(Weight { ref_time: 390_209, proof_size: 0 }, b as u64),
            ),
            db_weight(db.read, 1),
        ),
        db_weight(db.write, 1),
    )
}

/// Weight of `get_entry`.
pub open spec fn get_entry_weight(db: RuntimeDbWeight) -> Weight {
    weight_add(Weight { ref_time: 20_202_000, proof_size: 6294 }, db_weight(db.read, 2))
}

/// Weights of the EMA-oracle pallet measured on Basilisk reference
/// hardware; `db` is the runtime's cost of database reads and writes.
pub struct BasiliskWeight;

impl BasiliskWeight {
    /// Storage: `EmaOracle::Accumulator` (r:1 w:0)
    pub fn on_finalize_no_entry(db: RuntimeDbWeight) -> (r: Weight)
        ensures
            r == on_finalize_no_entry_weight(db),
    {
        Weight::from_parts(3_986_000, 5926).saturating_add(db.reads(1))
    }

    /// Storage: `EmaOracle::Accumulator` (r:1 w:1), `EmaOracle::Oracles`
    /// (r:145 w:145). The range of component `b` is `[1, 29]`.
    pub fn on_finalize_multiple_tokens(b: u32, db: RuntimeDbWeight) -> (r: Weight)
        ensures
            r == on_finalize_multiple_tokens_weight(b, db),
    {
        let n = b as u64;
        Weight::from_parts(12_421_249, 5926).saturating_add(
            Weight::from_parts(60_856_147, 0).saturating_mul(n),
        ).saturating_add(db.reads(1)).saturating_add(db.reads(saturating_mul_u64(5, n))).saturating_add(
            db.writes(1),
        ).saturating_add(db.writes(saturating_mul_u64(5, n))).saturating_add(
            Weight::from_parts(0, 13260).saturating_mul(n),
        )
    }

    /// Storage: `EmaOracle::Accumulator` (r:1 w:1). The range of component
    /// `b` is `[1, 29]`.
    pub fn on_trade_multiple_tokens(b: u32, db: RuntimeDbWeight) -> (r: Weight)
        ensures
            r == on_trade_multiple_tokens_weight(b, db),
    {
        Weight::from_parts(9_455_551, 5926).saturating_add(
            Weight::from_parts(384_006, 0).saturating_mul(b as u64),
        ).saturating_add(db.reads(1)).saturating_add(db.writes(1))
    }

    /// Storage: `EmaOracle::Accumulator` (r:1 w:1). The range of component
    /// `b` is `[1, 29]`.
    pub fn on_liquidity_changed_multiple_tokens(b: u32, db: RuntimeDbWeight) -> (r: Weight)
        ensures
            r == on_liquidity_changed_multiple_tokens_weight(b, db),
    {
        Weight::from_parts(9_473_229, 5926).saturating_add(
            Weight::from_parts(390_209, 0).saturating_mul(b as u64),
        ).saturating_add(db.reads(1)).saturating_add(db.writes(1))
    }

    /// Storage: `EmaOracle::Oracles` (r:2 w:0)
    pub fn get_entry(db: RuntimeDbWeight) -> (r: Weight)
        ensures
            r == get_entry_weight(db),
    {
        Weight::from_parts(20_202_000, 6294).saturating_add(db.reads(2))
    }
}

/// `a` is at most `b` in both parts.
pub open spec fn weight_le(a: Weight, b: Weight) -> bool {
    a.ref_time <= b.ref_time && a.proof_size <= b.proof_size
}

proof fn lemma_sat_mul_monotone(x: u64, s1: u64, s2: u64)
    requires
        s1 <= s2,
    ensures
        sat_mul(x, s1) <= sat_mul(x, s2),
{
    assert(x * s1 <= x * s2) by (nonlinear_arith)
        requires
            s1 <= s2,
    ;
}

proof fn lemma_weight_add_monotone(a1: Weight, a2: Weight, b1: Weight, b2: Weight)
    requires
        weight_le(a1, a2),
        weight_le(b1, b2),
    ensures
        weight_le(weight_add(a1, b1), weight_add(a2, b2)),
{
}

proof fn lemma_weight_mul_monotone(a: Weight, s1: u64, s2: u64)
    requires
        s1 <= s2,
    ensures
        weight_le(weight_mul(a, s1), weight_mul(a, s2)),
{
    lemma_sat_mul_monotone(a.ref_time, s1, s2);
    lemma_sat_mul_monotone(a.proof_size, s1, s2);
}

proof fn lemma_db_weight_monotone(unit: u64, r1: u64, r2: u64)
    requires
        r1 <= r2,
    ensures
        weight_le(db_weight(unit, r1), db_weight(unit, r2)),
{
    lemma_sat_mul_monotone(unit, r1, r2);
}

/// The weights that depend on the number of tokens `b` never fall as `b`
/// grows, in either part.
pub proof fn lemma_weights_grow_with_tokens(b1: u32, b2: u32, db: RuntimeDbWeight)
    requires
        b1 <= b2,
    ensures
        weight_le(
            on_finalize_multiple_tokens_weight(b1, db),
            on_finalize_multiple_tokens_weight(b2, db),
        ),
        weight_le(on_trade_multiple_tokens_weight(b1, db), on_trade_multiple_tokens_weight(b2, db)),
        weight_le(
            on_liquidity_changed_multiple_tokens_weight(b1, db),
            on_liquidity_changed_multiple_tokens_weight(b2, db),
        ),
{
    let n1 = b1 as u64;
    let n2 = b2 as u64;
    let base = Weight { ref_time: 12_421_249, proof_size: 5926 };
    let per_token = Weight { ref_time: 60_856_147, proof_size: 0 };
    let per_token_proof = Weight { ref_time: 0, proof_size: 13260 };
    lemma_weight_mul_monotone(per_token, n1, n2);
    lemma_weight_add_monotone(base, base, weight_mul(per_token, n1), weight_mul(per_token, n2));
    let w1 = weight_add(base, weight_mul(per_token, n1));
    let w2 = weight_add(base, weight_mul(per_token, n2));
    lemma_weight_add_monotone(w1, w2, db_weight(db.read, 1), db_weight(db.read, 1));
    let w1 = weight_add(w1, db_weight(db.read, 1));
    let w2 = weight_add(w2, db_weight(db.read, 1));
    lemma_sat_mul_monotone(5, n1, n2);
    lemma_db_weight_monotone(db.read, sat_mul(5, n1), sat_mul(5, n2));
    lemma_weight_add_monotone(
        w1,
        w2,
        db_weight(db.read, sat_mul(5, n1)),
        db_weight(db.read, sat_mul(5, n2)),
    );
    let w1 = weight_add(w1, db_weight(db.read, sat_mul(5, n1)));
    let w2 = weight_add(w2, db_weight(db.read, sat_mul(5, n2)));
    lemma_weight_add_monotone(w1, w2, db_weight(db.write, 1), db_weight(db.write, 1));
    let w1 = weight_add(w1, db_weight(db.write, 1));
    let w2 = weight_add(w2, db_weight(db.write, 1));
    lemma_db_weight_monotone(db.write, sat_mul(5, n1), sat_mul(5, n2));
    lemma_weight_add_monotone(
        w1,
        w2,
        db_weight(db.write, sat_mul(5, n1)),
        db_weight(db.write, sat_mul(5, n2)),
    );
    let w1 = weight_add(w1, db_weight(db.write, sat_mul(5, n1)));
    let w2 = weight_add(w2, db_weight(db.write, sat_mul(5, n2)));
    lemma_weight_mul_monotone(per_token_proof, n1, n2);
    lemma_weight_add_monotone(
        w1,
        w2,
        weight_mul(per_token_proof, n1),
        weight_mul(per_token_proof, n2),
    );

    let trade_base = Weight { ref_time: 9_455_551, proof_size: 5926 };
    let trade_token = Weight { ref_time: 384_006, proof_size: 0 };
    lemma_weight_mul_monotone(trade_token, n1, n2);
    lemma_weight_add_monotone(
        trade_base,
        trade_base,
        weight_mul(trade_token, n1),
        weight_mul(trade_token, n2),
    );

    let liq_base = Weight { ref_time: 9_473_229, proof_size: 5926 };
    let liq_token = Weight { ref_time: 390_209, proof_size: 0 };
    lemma_weight_mul_monotone(liq_token, n1, n2);
    lemma_weight_add_monotone(
        liq_base,
        liq_base,
        weight_mul(liq_token, n1),
        weight_mul(liq_token, n2),
    );
}

/// With realistic database costs (up to `10^9` per access) and up to a
/// million tokens nothing saturates, and each weight is its benchmarked
/// base, plus its cost per token times `b`, plus its reads and writes at the
/// runtime's database costs.
pub proof fn lemma_weight_formulas(b: u32, db: RuntimeDbWeight)
    requires
        b <= 1_000_000,
        db.read <= 1_000_000_000,
        db.write <= 1_000_000_000,
    ensures
        on_finalize_no_entry_weight(db).ref_time == 3_986_000 + db.read,
        on_finalize_no_entry_weight(db).proof_size == 5926,
        get_entry_weight(db).ref_time == 20_202_000 + 2 * db.read,
        get_entry_weight(db).proof_size == 6294,
        on_finalize_multiple_tokens_weight(b, db).ref_time == 12_421_249 + 60_856_147 * b + db.read
            * (1 + 5 * b) + db.write * (1 + 5 * b),
        on_finalize_multiple_tokens_weight(b, db).proof_size == 5926 + 13260 * b,
        on_trade_multiple_tokens_weight(b, db).ref_time == 9_455_551 + 384_006 * b + db.read
            + db.write,
        on_trade_multiple_tokens_weight(b, db).proof_size == 5926,
        on_liquidity_changed_multiple_tokens_weight(b, db).ref_time == 9_473_229 + 390_209 * b
            + db.read + db.write,
        on_liquidity_changed_multiple_tokens_weight(b, db).proof_size == 5926,
{
    let n = b as u64;
    assert(60_856_147 * n <= 60_856_147_000_000) by (nonlinear_arith)
        requires
            n <= 1_000_000,
    ;
    assert(13260 * n <= 13_260_000_000) by (nonlinear_arith)
        requires
            n <= 1_000_000,
    ;
    assert(384_006 * n <= 384_006_000_000 && 390_209 * n <= 390_209_000_000) by (nonlinear_arith)
        requires
            n <= 1_000_000,
    ;
    assert(0 * n == 0) by (nonlinear_arith);
    let five_n = sat_mul(5, n);
    assert(five_n == 5 * n);
    assert(db.read * five_n <= 5_000_000_000_000_000 && db.write * five_n
        <= 5_000_000_000_000_000) by (nonlinear_arith)
        requires
            five_n <= 5_000_000,
            db.read <= 1_000_000_000,
            db.write <= 1_000_000_000,
    ;
    assert(db.read * five_n + db.read == db.read * (1 + 5 * n) && db.write * five_n + db.write
        == db.write * (1 + 5 * n)) by (nonlinear_arith)
        requires
            five_n == 5 * n,
    ;
    assert(db.read * 1 == db.read && db.write * 1 == db.write && db.read * 2 == 2 * db.read)
        by (nonlinear_arith);
    assert(60_856_147 * n == 60_856_147 * b && 13260 * n == 13260 * b && 384_006 * n == 384_006
        * b && 390_209 * n == 390_209 * b);
}

} // verus!
