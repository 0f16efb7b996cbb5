use vstd::prelude::*;

use crate::errors::RouterError;
use crate::session::Session;
use crate::types::SonicMsgInner;

verus! {

/// Whether the session's whitelist policy admits the message payload.
/// `InvokeCall` is checked against the program whitelist, `EmbeddedOpcode`
/// against the opcode whitelist; `MirrorL1Accounts` is unconditionally
/// allowed, no whitelist applies to it.
pub open spec fn authorized_spec(session: Session, inner: SonicMsgInner) -> bool {
    match inner {
        SonicMsgInner::InvokeCall { target_program, .. } => session.program_allowed_spec(
            target_program,
        ),
        SonicMsgInner::EmbeddedOpcode { opcode, .. } => session.opcode_allowed_spec(opcode),
        SonicMsgInner::MirrorL1Accounts { .. } => true,
    }
}

/// The error an unauthorized payload is rejected with: the one naming the
/// whitelist that refused it.
pub open spec fn auth_error_spec(inner: SonicMsgInner) -> RouterError {
    match inner {
        SonicMsgInner::InvokeCall { .. } => RouterError::UnauthorizedProgram,
        SonicMsgInner::EmbeddedOpcode { .. } => RouterError::UnauthorizedOpcode,
        SonicMsgInner::MirrorL1Accounts { .. } => RouterError::UnauthorizedProgram,
    }
}

/// Validates a message payload against the session's whitelist policy.
/// Stateless: reads the session, mutates nothing.
pub fn authorize(session: &Session, inner: &SonicMsgInner) -> (r: Result<(), RouterError>)
    ensures
        r is Ok <==> authorized_spec(*session, *inner),
        r is Err ==> r == Err::<(), RouterError>(auth_error_spec(*inner)),
{
    match inner {
        SonicMsgInner::InvokeCall { target_program, .. } => {
            if session.is_program_allowed(target_program) {
                Ok(())
            } else {
                Err(RouterError::UnauthorizedProgram)
            }
        },
        SonicMsgInner::EmbeddedOpcode { opcode, .. } => {
            if session.is_opcode_allowed(*opcode) {
                Ok(())
            } else {
                Err(RouterError::UnauthorizedOpcode)
            }
        },
        SonicMsgInner::MirrorL1Accounts { .. } => Ok(()),
    }
}

} // verus!
