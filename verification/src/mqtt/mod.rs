//! MQTT side of the dashboard: which topics it subscribes to and what a
//! published message means for the live state.

pub mod parser;
pub mod subscriber;

use vstd::prelude::*;

verus! {

/// The wildcard subscription for every topic below `prefix`: `"{prefix}/#"`.
pub fn subscription_topic(prefix: &str) -> (r: String)
    ensures
        r@ == prefix@ + "/#"@,
{
    let mut r = String::from_str(prefix);
    r.append("/#");
    r
}

} // verus!
