//! The button that moves the wallet to another chain.

use vstd::prelude::*;
use vstd::string::StringExecFns;
use crate::hooks::use_ethereum::UseEthereumHandle;
use crate::types::Chain;

verus! {

/// What the button is made with.
#[derive(Clone, Debug, PartialEq, Eq)]
pub struct Props {
    /// The chain that a click asks the wallet to move to.
    pub chain: Chain,
    /// The style class of the button, if any.
    pub class: Option<String>,
}

/// The button as it is drawn.
#[derive(Clone, Debug, PartialEq, Eq)]
pub struct Button {
    /// The text on the button.
    pub label: String,
    /// The style class of the button, if any.
    pub class: Option<String>,
}

/// The class as text, for comparison.
pub open spec fn class_text(class: Option<String>) -> Option<Seq<char>> {
    match class {
        Some(c) => Some(c@),
        None => None,
    }
}

/// The button for a chain: nothing is drawn without a provider; with one,
/// the button reads `Switch to` and the chain's name, and has the class it
/// was given. Whether the session is connected does not matter.
#[allow(non_snake_case)]
pub fn SwitchNetworkButton(ethereum: &Option<UseEthereumHandle>, props: &Props) -> (r: Option<
    Button,
>)
    ensures
        r is Some <==> *ethereum is Some,
        r is Some ==> r->0.label@ == "Switch to "@ + props.chain.chain_name@,
        r is Some ==> class_text(r->0.class) == class_text(props.class),
{
    match ethereum {
        Some(_) => {
            let label = String::from_str("Switch to ").concat(props.chain.chain_name.as_str());
            let class = match &props.class {
                Some(c) => Some(String::from_str(c.as_str())),
                None => None,
            };
            Some(Button { label, class })
        },
        None => None,
    }
}

} // verus!
