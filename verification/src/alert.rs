//! Alert notifications: the title a notification carries.
use vstd::prelude::*;

verus! {

pub open spec fn alert_title_spec(indicator_name: Seq<char>, symbol: Seq<char>) -> Seq<char> {
    "Alert: "@ + indicator_name + " - "@ + symbol
}

/// Title of the notification for an alert of `indicator_name` on `symbol`.
pub fn alert_title(indicator_name: &str, symbol: &str) -> (r: String)
    ensures
        r@ == alert_title_spec(indicator_name@, symbol@),
{
    let mut t = String::from_str("Alert: ");
    t.append(indicator_name);
    t.append(" - ");
    t.append(symbol);
    t
}

} // verus!
