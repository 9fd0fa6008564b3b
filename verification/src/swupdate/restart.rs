//! Restarting the machine after a successful update.

use vstd::prelude::*;

use crate::fault::{ErrorKind, IoError};
use crate::swupdate::config::EffectiveUpdateType;

verus! {

/// Pause between a successful update and the restart, in seconds.
pub const REBOOT_DELAY_SECS: u64 = 2;

/// What a new update is told while a restart is due.
pub open spec fn restart_message() -> Seq<char> {
    "restart pending after successful SWUpdate; rejecting new update"@
}

/// Rejects a new update while a restart is due.
pub fn reject_if_restart_pending(restart_pending: bool) -> (result: Result<(), IoError>)
    ensures
        result is Ok <==> !restart_pending,
        result matches Err(e) ==> e.says(ErrorKind::Other, restart_message()),
{
    if restart_pending {
        Err(IoError::other("restart pending after successful SWUpdate; rejecting new update"))
    } else {
        Ok(())
    }
}

/// Whether a successful update of this kind is followed by a restart: one of
/// the whole device is not.
pub fn on_update_success(update_type: &EffectiveUpdateType) -> (restart: bool)
    ensures
        restart == (update_type@ is Slot),
{
    !update_type.is_complete()
}

/// A restart that is due keeps a new update out. It falls due after an update of a
/// slot, and not after one of the whole device.
pub proof fn law_restart(
    pending: bool,
    result: Result<(), IoError>,
    kind: EffectiveUpdateType,
    restart: bool,
)
    requires
        call_ensures(reject_if_restart_pending, (pending,), result),
        call_ensures(on_update_success, (&kind,), restart),
    ensures
        pending ==> (result matches Err(e) && e.kind == ErrorKind::Other && e.message@
            == "restart pending after successful SWUpdate; rejecting new update"@),
        !pending ==> result is Ok,
        kind is Slot ==> restart,
        kind is Complete ==> !restart,
        REBOOT_DELAY_SECS == 2,
{
}

} // verus!
