//! The parts of a transaction that are plain numbers and paths.

use vstd::prelude::*;

verus! {

/// The price and the limit of the gas of a transaction.
#[derive(Clone, Copy, Debug, PartialEq, Eq, Structural)]
pub struct Gas {
    /// The price of one unit of gas.
    pub price: u64,
    /// The most gas that the transaction may use.
    pub limit: u64,
}

/// The block until which a transaction cannot be included.
#[derive(Clone, Copy, Debug, PartialEq, Eq, Structural)]
pub struct Maturity {
    pub field: u32,
}

/// The predicate of an input: where its code and its data are.
#[derive(Clone, Debug)]
pub struct Predicate {
    /// The path of the code of the predicate.
    pub bytecode: String,
    /// The path of the data of the predicate.
    pub data: String,
}

/// The place of a transaction in a block.
#[derive(Clone, Copy, Debug, PartialEq, Eq, Structural)]
pub struct TxPointer {
    /// The height of the block.
    pub block_height: u32,
    /// The position of the transaction in the block.
    pub tx_ix: u16,
}

} // verus!
