//! Snapshot records and the normalization of fetched transaction detail.
//!
//! A detail response arrives as plain optional values (`TxDetail`); the
//! functions here derive from it one `MempoolTransaction`: the divisor
//! for the fee rate (virtual size preferred over raw size), the byte
//! size, the input/output counts, and the age in whole minutes.  Where
//! the source reports nothing, a field falls back to zero.

use vstd::prelude::*;
use vstd::arithmetic::div_mod::{lemma_fundamental_div_mod, lemma_mod_multiples_vanish, lemma_small_mod};

verus! {

/// One observed pending transaction, normalized for the snapshot.
///
/// The fee rate is kept exact, as the pair of `fee` and `weight`
/// (`fee_rate_parts`); consumers that want a decimal divide the two.
#[derive(Debug, PartialEq)]
pub struct MempoolTransaction {
    /// Opaque identifier, as retrieved from the source.
    pub txid: String,
    /// Fee reported by the source, `0` when missing.
    pub fee: u64,
    /// Divisor for the fee rate: reported virtual size, else reported
    /// size, else `0`.
    pub weight: u64,
    /// Reported byte size, `0` when missing.
    pub size: u32,
    /// Number of reported inputs.
    pub inputs: u8,
    /// Number of reported outputs.
    pub outputs: u8,
    /// Whole minutes since the reported observation time.
    pub age: u32,
}

impl Clone for MempoolTransaction {
    fn clone(&self) -> (r: Self)
        ensures
            r == *self,
    {
        MempoolTransaction {
            txid: self.txid.clone(),
            fee: self.fee,
            weight: self.weight,
            size: self.size,
            inputs: self.inputs,
            outputs: self.outputs,
            age: self.age,
        }
    }
}

/// The fields of one detail response, each absent when the source
/// omitted it or reported it in an unusable shape.
#[derive(Clone, Copy, Debug, PartialEq, Eq)]
pub struct TxDetail {
    /// Reported fee.
    pub fee: Option<u64>,
    /// Reported virtual size.
    pub vsize: Option<u64>,
    /// Reported raw size.
    pub size: Option<u64>,
    /// Number of entries in the reported input array.
    pub inputs: Option<usize>,
    /// Number of entries in the reported output array.
    pub outputs: Option<usize>,
    /// Reported observation time, seconds since the epoch.
    pub time: Option<i64>,
}

/// Fee used for the rate: the reported fee, or `0`.
pub open spec fn spec_fee(d: TxDetail) -> u64 {
    match d.fee {
        Some(f) => f,
        None => 0,
    }
}

/// Divisor used for the rate: virtual size preferred, then size, then `0`.
pub open spec fn spec_weight(d: TxDetail) -> u64 {
    match d.vsize {
        Some(v) => v,
        None => match d.size {
            Some(s) => s,
            None => 0,
        },
    }
}

/// Reported size narrowed to 32 bits, keeping the low bits as the
/// source code path of the relay always did.
pub open spec fn spec_size(d: TxDetail) -> u32 {
    (match d.size {
        Some(s) => (s as int) % 0x1_0000_0000,
        None => 0,
    }) as u32
}

/// An array-entry count narrowed to 8 bits, keeping the low bits.
pub open spec fn spec_count(c: Option<usize>) -> u8 {
    (match c {
        Some(n) => (n as int) % 256,
        None => 0,
    }) as u8
}

/// Truncating (round-toward-zero) division of a signed delta by 60.
pub open spec fn trunc_div_minutes(delta: int) -> int {
    if delta >= 0 {
        delta / 60
    } else {
        -((-delta) / 60)
    }
}

/// The low 32 bits of `v`, as two's-complement narrowing takes them.
pub open spec fn wrap_u32(v: int) -> int {
    v % 0x1_0000_0000
}

/// Age in whole minutes: the delta to the reported time, divided
/// toward zero by 60 and narrowed to 32 bits; `0` when the time is
/// missing.  A slightly future timestamp lands at `0`; a delta beyond
/// a minute into the future wraps, exactly as the narrowing does.
pub open spec fn spec_age(now: int, time: Option<i64>) -> int {
    match time {
        Some(t) => wrap_u32(trunc_div_minutes(now - t)),
        None => 0,
    }
}

/// Narrowing a negated non-negative value: `(-q)` keeps, modulo
/// `0x1_0000_0000`, the complement of what `q` keeps.
proof fn lemma_wrap_neg(q: int)
    requires
        q >= 0,
    ensures
        q % 0x1_0000_0000 == 0 ==> wrap_u32(-q) == 0,
        q % 0x1_0000_0000 != 0 ==> wrap_u32(-q) == 0x1_0000_0000 - (q % 0x1_0000_0000),
{
    let p: int = 0x1_0000_0000;
    lemma_fundamental_div_mod(q, p);
    if q % p == 0 {
        lemma_mod_multiples_vanish(-(q / p), 0, p);
    } else {
        assert(-q == p * (-(q / p) - 1) + (p - q % p));
        lemma_mod_multiples_vanish(-(q / p) - 1, p - q % p, p);
        lemma_small_mod((p - q % p) as nat, p as nat);
    }
}

/// Minutes elapsed between `time` and `now`, matching `spec_age`.
pub fn age_minutes(now: i64, time: Option<i64>) -> (r: u32)
    ensures
        r as int == spec_age(now as int, time),
{
    match time {
        None => 0,
        Some(t) => {
            let n: i128 = now as i128;
            let tt: i128 = t as i128;
            if n >= tt {
                let delta: u128 = (n - tt) as u128;
                let q: u128 = delta / 60;
                let low: u128 = q % 0x1_0000_0000;
                low as u32
            } else {
                let delta: u128 = (tt - n) as u128;
                let q: u128 = delta / 60;
                let low: u128 = q % 0x1_0000_0000;
                proof {
                    lemma_wrap_neg((q as int));
                }
                if low == 0 {
                    0
                } else {
                    (0x1_0000_0000u128 - low) as u32
                }
            }
        },
    }
}

/// Builds one snapshot record from an identifier and its detail
/// response, normalized as of `now`.
pub open spec fn spec_derive(txid: String, d: TxDetail, now: int) -> MempoolTransaction {
    MempoolTransaction {
        txid: txid,
        fee: spec_fee(d),
        weight: spec_weight(d),
        size: spec_size(d),
        inputs: spec_count(d.inputs),
        outputs: spec_count(d.outputs),
        age: spec_age(now, d.time) as u32,
    }
}

/// Normalizes one detail response into a snapshot record.
pub fn derive_record(txid: String, d: &TxDetail, now: i64) -> (r: MempoolTransaction)
    ensures
        r == spec_derive(txid, *d, now as int),
{
    let fee: u64 = match d.fee {
        Some(f) => f,
        None => 0,
    };
    let weight: u64 = match d.vsize {
        Some(v) => v,
        None => match d.size {
            Some(s) => s,
            None => 0,
        },
    };
    let size: u32 = match d.size {
        Some(s) => (s % 0x1_0000_0000) as u32,
        None => 0,
    };
    let inputs: u8 = match d.inputs {
        Some(n) => (n % 256) as u8,
        None => 0,
    };
    let outputs: u8 = match d.outputs {
        Some(n) => (n % 256) as u8,
        None => 0,
    };
    let age: u32 = age_minutes(now, d.time);
    MempoolTransaction { txid, fee, weight, size, inputs, outputs, age }
}

/// The exact fee rate: `fee` over `weight` when the divisor is
/// positive, and the zero ratio `0 / 1` otherwise.
pub open spec fn spec_fee_rate_parts(fee: u64, weight: u64) -> (u64, u64) {
    if weight > 0 {
        (fee, weight)
    } else {
        (0u64, 1u64)
    }
}

impl MempoolTransaction {
    /// Numerator and denominator of the fee rate; the denominator is
    /// always positive, so dividing never fails.
    pub fn fee_rate_parts(&self) -> (r: (u64, u64))
        ensures
            r == spec_fee_rate_parts(self.fee, self.weight),
            r.1 > 0,
    {
        if self.weight > 0 {
            (self.fee, self.weight)
        } else {
            (0, 1)
        }
    }
}

} // verus!
