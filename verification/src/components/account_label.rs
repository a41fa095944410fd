//! The label that shows the connected account.

use vstd::prelude::*;
use vstd::string::StringExecFns;
use crate::hooks::use_ethereum::UseEthereumHandle;

verus! {

/// The text of the label for each state of the session.
pub open spec fn account_label_text(ethereum: Option<UseEthereumHandle>) -> Seq<char> {
    match ethereum {
        None => "No ethereum provider found"@,
        Some(handle) => if !handle@.connected {
            "Disconnected"@
        } else {
            match handle@.address() {
                Some(a) => a.full_text(),
                None => Seq::<char>::empty(),
            }
        },
    }
}

/// The text of the account label: a notice where there is no provider,
/// `Disconnected` where the session is not connected, and else the
/// session's address in full, which is empty where it has none.
#[allow(non_snake_case)]
pub fn AccountLabel(ethereum: &Option<UseEthereumHandle>) -> (r: String)
    ensures
        r@ == account_label_text(*ethereum),
{
    match ethereum {
        Some(handle) => {
            if handle.connected() {
                handle.display_address()
            } else {
                String::from_str("Disconnected")
            }
        },
        None => String::from_str("No ethereum provider found"),
    }
}

} // verus!
