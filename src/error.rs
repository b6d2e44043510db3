//! The ways an operation can fail. A failed operation changes nothing.
use vstd::prelude::*;

verus! {

/// A failure of the arithmetic underneath an operation.
#[derive(Clone, Copy, Debug, PartialEq, Eq, Structural)]
pub enum StdError {
    /// A result did not fit in 128 bits, or a subtraction went below zero.
    Overflow,
    /// A division by a zero weight.
    DivideByZero,
    /// A record that the operation must read is missing.
    NotFound,
}

/// Why an operation failed.
#[derive(Clone, Copy, Debug, PartialEq, Eq, Structural)]
pub enum ContractError {
    /// The arithmetic or a required read failed.
    Std(StdError),
    /// The caller is not the admin.
    Unauthorized,
    /// The attached funds are not exactly one coin of the expected kind.
    InvalidFunds,
    /// A component with the same asset key is already registered.
    DuplicateComponent,
    /// The asset is not a registered component.
    UnknownAsset,
    /// The withdrawal tax is above 10000 basis points.
    InvalidWithdrawalFee,
    /// No taxes have accrued for the asset.
    NoTaxes,
}

/// The result of an operation.
pub type ContractResult<T> = Result<T, ContractError>;

} // verus!
