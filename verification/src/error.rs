use vstd::prelude::*;

verus! {

/// Why a strategy refuses a call.
#[derive(Clone, Copy, Debug, PartialEq, Eq, Structural)]
pub enum StrategyError {
    NotInitialized,
    NegativeNotAllowed,
    InvalidArgument,
    InsufficientBalance,
    UnderflowOverflow,
    ArithmeticError,
    DivisionByZero,
    InvalidSharesMinted,
    OnlyPositiveAmountAllowed,
    NotAuthorized,
    ProtocolAddressNotFound,
    DeadlineExpired,
    ExternalError,
    SoroswapPairError,
    AmountBelowMinDust,
    UnderlyingAmountBelowMin,
    BTokensAmountBelowMin,
    InternalSwapError,
    SupplyNotFound,
}

} // verus!
