use dd_cloud::account::UserBalances;
use dd_cloud::account::balance_message;
use dd_cloud::account::usage_message;
use dd_cloud::numeral::render_cents;
use dd_cloud::numeral::signed_decimal;
use dd_cloud::numeral::unsigned_decimal;

#[test]
fn one_hundred_fifty_cents_render_as_one_dollar_fifty() {
    assert_eq!(render_cents(150), "$1.50");
}

#[test]
fn balance_message_divides_cents_into_dollars() {
    let balances = UserBalances { calls: 0, balance: 150 };
    assert_eq!(balance_message(&balances), "Your account has a balance of $1.50");
}

#[test]
fn cent_rendering_edges() {
    assert_eq!(render_cents(0), "$0.00");
    assert_eq!(render_cents(5), "$0.05");
    assert_eq!(render_cents(99), "$0.99");
    assert_eq!(render_cents(100), "$1.00");
    assert_eq!(render_cents(-150), "$-1.50");
    assert_eq!(render_cents(123456), "$1234.56");
    assert_eq!(render_cents(i64::MAX), "$92233720368547758.07");
    assert_eq!(render_cents(i64::MIN), "$-92233720368547758.08");
}

#[test]
fn usage_message_reports_the_call_count() {
    let balances = UserBalances { calls: 42, balance: 0 };
    assert_eq!(usage_message(&balances), "You've made 42 RPC calls this month");
}

#[test]
fn decimal_rendering_edges() {
    assert_eq!(unsigned_decimal(0), "0");
    assert_eq!(unsigned_decimal(7), "7");
    assert_eq!(unsigned_decimal(10), "10");
    assert_eq!(unsigned_decimal(u64::MAX), "18446744073709551615");
    assert_eq!(signed_decimal(-1), "-1");
    assert_eq!(signed_decimal(i64::MIN), "-9223372036854775808");
    assert_eq!(signed_decimal(i64::MAX), "9223372036854775807");
}
