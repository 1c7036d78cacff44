use vstd::prelude::*;

verus! {

/// Gas limit and gas price of a transaction.
#[derive(Clone, Copy, Debug, PartialEq, Eq, Structural)]
pub struct FeeParams {
    pub gas_limit: u64,
    pub gas_price: u128,
}

/// A transaction ready to be signed.
#[derive(Clone, Debug)]
pub struct UnsignedTransaction {
    /// The 20-byte address of the target contract.
    pub to: Vec<u8>,
    pub data: Vec<u8>,
    pub nonce: u64,
    pub chain_id: u64,
    pub fee: FeeParams,
}

/// A signed transaction: the raw bytes sent to the node and the transaction hash.
#[derive(Clone, Debug)]
pub struct SignedTransaction {
    pub raw: Vec<u8>,
    pub hash: Vec<u8>,
}

/// Why a transaction could not be assembled.
#[derive(Clone, Copy, Debug, PartialEq, Eq, Structural)]
pub enum BuildError {
    /// The target is not a 20-byte address.
    InvalidTarget,
    /// The fee had to be estimated and the node call failed.
    FeeEstimationFailed,
}

pub open spec fn build_spec(to: Seq<u8>, fee: Option<FeeParams>) -> Option<BuildError> {
    if to.len() != 20 {
        Some(BuildError::InvalidTarget)
    } else if fee is None {
        Some(BuildError::FeeEstimationFailed)
    } else {
        None
    }
}

/// Assembles a transaction. `fee` is `None` when the fee had to be estimated and the
/// estimate failed.
pub fn build_transaction(to: &Vec<u8>, data: &Vec<u8>, nonce: u64, chain_id: u64, fee: Option<FeeParams>) -> (r:
    Result<UnsignedTransaction, BuildError>)
    ensures
        match r {
            Ok(tx) => build_spec(to@, fee) is None && tx.to@ == to@ && tx.data@ == data@ && tx.nonce == nonce
                && tx.chain_id == chain_id && Some(tx.fee) == fee,
            Err(e) => build_spec(to@, fee) == Some(e),
        },
{
    if to.len() != 20 {
        return Err(BuildError::InvalidTarget);
    }
    match fee {
        None => Err(BuildError::FeeEstimationFailed),
        Some(f) => Ok(UnsignedTransaction { to: copy_bytes(to), data: copy_bytes(data), nonce, chain_id, fee: f }),
    }
}

/// A copy of a byte vector.
pub fn copy_bytes(b: &Vec<u8>) -> (r: Vec<u8>)
    ensures
        r@ == b@,
{
    let mut out: Vec<u8> = Vec::new();
    let mut i: usize = 0;
    while i < b.len()
        invariant
            i <= b@.len(),
            out@ == b@.take(i as int),
        decreases b@.len() - i,
    {
        out.push(b[i]);
        i = i + 1;
        assert(out@ =~= b@.take(i as int));
    }
    assert(b@.take(b@.len() as int) =~= b@);
    out
}

/// The gas price after a bump by `percent` percent, by at least one.
pub open spec fn bumped_price(price: nat, percent: nat) -> nat {
    let step = price * percent / 100;
    if step == 0 {
        price + 1
    } else {
        price + step
    }
}

/// Raises the gas price by `percent` percent (at least by one) and keeps the gas
/// limit; `None` where the new price does not fit in a `u128`.
pub fn bump_fee(fee: FeeParams, percent: u32) -> (r: Option<FeeParams>)
    ensures
        r is Some <==> bumped_price(fee.gas_price as nat, percent as nat) <= u128::MAX,
        r matches Some(f) ==> f.gas_limit == fee.gas_limit && f.gas_price as nat == bumped_price(
            fee.gas_price as nat,
            percent as nat,
        ),
        r matches Some(f) ==> f.gas_price > fee.gas_price,
{
    let price = fee.gas_price;
    let step: u128 = if percent == 0 {
        0
    } else {
        // price * percent / 100 == (price / 100) * percent + (price % 100) * percent / 100
        let whole = price / 100;
        let part = price % 100;
        let p = percent as u128;
        proof {
            assert(part * p < 100 * 0x1_0000_0000) by (nonlinear_arith)
                requires part < 100, p <= u32::MAX as u128;
            assert(price * p / 100 == whole * p + part * p / 100) by (nonlinear_arith)
                requires whole == price / 100, part == price % 100, price == 100 * whole + part, 0 <= part < 100;
        }
        let a = match whole.checked_mul(p) {
            Some(a) => a,
            None => {
                assert(part * p / 100 >= 0) by (nonlinear_arith)
                    requires part >= 0, p >= 0;
                return None;
            },
        };
        let b = part * p / 100;
        if a > u128::MAX - b {
            return None;
        }
        a + b
    };
    let step: u128 = if step == 0 { 1 } else { step };
    if price > u128::MAX - step {
        return None;
    }
    Some(FeeParams { gas_limit: fee.gas_limit, gas_price: price + step })
}

} // verus!
