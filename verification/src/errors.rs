use vstd::prelude::*;

verus! {

/// Every failure the router can report. All of them are precondition
/// violations detected before any state is mutated: a call that returns one
/// of these errors is a no-op on every record it touched.
#[derive(Clone, Copy, Debug, PartialEq, Eq, Structural)]
pub enum RouterError {
    /// `close_expired` was called before the session's TTL elapsed.
    SessionStillActive,
    /// The caller is not the session owner, or an `InvokeCall` targets a
    /// program outside a non-empty whitelist.
    UnauthorizedProgram,
    /// An `EmbeddedOpcode` message uses an opcode outside a non-empty
    /// whitelist.
    UnauthorizedOpcode,
    /// `open_session` was given more than the maximum number of whitelisted
    /// programs.
    TooManyAllowedPrograms,
    /// `open_session` was given more than the maximum number of whitelisted
    /// opcodes.
    TooManyAllowedOpcodes,
    /// The grid id of a send does not match the session's grid id.
    InvalidGridId,
    /// The session's TTL has elapsed.
    SessionExpired,
    /// The message nonce does not equal the session's current nonce.
    InvalidNonce,
    /// The fee budget of a send exceeds the session's fee cap.
    FeeCapExceeded,
    /// The fee vault's balance cannot cover the requested amount.
    InsufficientFees,
    /// A checked addition on a balance, nonce or entry count would overflow.
    ArithmeticOverflow,
}

} // verus!
