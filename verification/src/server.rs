//! What the server reports when asked to shut down.
use vstd::prelude::*;

verus! {

/// The notice printed once the wait for the interrupt signal ends: whether
/// the signal was received decides between the two.
pub fn shutdown_message(signal_received: bool) -> (res: String)
    ensures
        res@ == (if signal_received {
            "Trying to shutdown the server ..."@
        } else {
            "Unable to shutdown the server gracefully"@
        }),
{
    if signal_received {
        "Trying to shutdown the server ...".to_owned()
    } else {
        "Unable to shutdown the server gracefully".to_owned()
    }
}

} // verus!
