//! What the two interface components show.

pub mod account_label;
pub mod switch_network_button;
