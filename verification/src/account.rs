use vstd::prelude::*;

use crate::numeral::render_cents;
use crate::numeral::signed_decimal;
use crate::numeral::spec_dollars;
use crate::numeral::spec_signed_decimal;

verus! {

/// The account figures the service reports: calls made this cycle, and the
/// balance in cents.
#[derive(Debug, Clone)]
pub struct UserBalances {
    pub calls: i64,
    pub balance: i64,
}

/// The usage report for an amount of calls.
pub open spec fn spec_usage_message(calls: int) -> Seq<char> {
    "You've made "@ + spec_signed_decimal(calls) + " RPC calls this month"@
}

/// The balance report for an amount of cents, as a dollar figure.
pub open spec fn spec_balance_message(cents: int) -> Seq<char> {
    "Your account has a balance of "@ + spec_dollars(cents)
}

/// Renders the usage report for this account.
pub fn usage_message(balances: &UserBalances) -> (r: String)
    ensures
        r@ == spec_usage_message(balances.calls as int),
{
    let mut s = "You've made ".to_owned();
    s.append(signed_decimal(balances.calls).as_str());
    s.append(" RPC calls this month");
    s
}

/// Renders the balance report for this account: the balance arrives in
/// cents and is shown as dollars with two decimal places.
pub fn balance_message(balances: &UserBalances) -> (r: String)
    ensures
        r@ == spec_balance_message(balances.balance as int),
{
    let mut s = "Your account has a balance of ".to_owned();
    s.append(render_cents(balances.balance).as_str());
    s
}

} // verus!
