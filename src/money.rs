//! Display currencies and monetary amounts written in them.

use vstd::prelude::*;
use crate::decimal::Dec;

verus! {

/// Whether `rusty_money::iso::find` knows `code` as an ISO-4217 alphabetic code.
pub uninterp spec fn is_iso_code(code: Seq<char>) -> bool;

/// How `rusty_money` displays the amount `(-1)^negative * mantissa / 10^scale` in the
/// currency with ISO code `code`: symbol, digit grouping, rounding to the currency's
/// minor unit.
pub uninterp spec fn money_text(negative: bool, mantissa: u128, scale: u32, code: Seq<char>) -> Seq<
    char,
>;

/// Relies on `rusty_money::iso::find`, which matches `code` exactly against the
/// table of ISO-4217 alphabetic codes, `USD` among them.
#[verifier::external_body]
fn iso_code_known(code: &str) -> (r: bool)
    ensures
        r == is_iso_code(code@),
        code@ == "USD"@ ==> r,
{
    rusty_money::iso::find(code).is_some()
}

/// Relies on the `Display` of `rusty_money::Money` built by `Money::from_decimal` from
/// the amount and the currency that `iso::find` gives for `code`.
#[verifier::external_body]
fn money_string(amount: &Dec, code: &str) -> (r: String)
    requires
        amount.wf(),
        is_iso_code(code@),
    ensures
        r@ == money_text(amount.negative, amount.mantissa, amount.scale, code@),
{
    let currency = rusty_money::iso::find(code).unwrap();
    let mut value = rust_decimal::Decimal::from_i128_with_scale(amount.mantissa as i128, amount.scale);
    value.set_sign_negative(amount.negative);
    rusty_money::Money::from_decimal(value, currency).to_string()
}

/// A currency in which amounts are shown, by its ISO-4217 alphabetic code.
#[derive(Clone, Debug)]
pub struct DisplayCurrency {
    pub code: String,
}

impl DisplayCurrency {
    pub open spec fn wf(&self) -> bool {
        is_iso_code(self.code@)
    }

    /// The reference currency, the US dollar.
    pub fn usd() -> (r: DisplayCurrency)
        ensures
            r.wf(),
            r.code@ == "USD"@,
    {
        let code = String::from_str("USD");
        let known = iso_code_known(code.as_str());
        assert(known);
        DisplayCurrency { code }
    }

    /// The currency with ISO code `code`, if there is one.
    pub fn from_code(code: &str) -> (r: Option<DisplayCurrency>)
        ensures
            r is Some <==> is_iso_code(code@),
            r is Some ==> r->0.code@ == code@ && r->0.wf(),
    {
        if iso_code_known(code) {
            Some(DisplayCurrency { code: String::from_str(code) })
        } else {
            None
        }
    }

    /// `amount` written in this currency.
    pub fn format(&self, amount: &Dec) -> (r: String)
        requires
            self.wf(),
            amount.wf(),
        ensures
            r@ == money_text(amount.negative, amount.mantissa, amount.scale, self.code@),
    {
        money_string(amount, self.code.as_str())
    }
}

/// The currency that a request asks for: the one named by `arg` when it is a known
/// ISO code, the US dollar otherwise.
pub fn resolve_currency(arg: Option<&str>) -> (r: DisplayCurrency)
    ensures
        r.wf(),
        r.code@ == (match arg {
            Some(code) => if is_iso_code(code@) {
                code@
            } else {
                "USD"@
            },
            None => "USD"@,
        }),
{
    match arg {
        Some(code) => match DisplayCurrency::from_code(code) {
            Some(c) => c,
            None => DisplayCurrency::usd(),
        },
        None => DisplayCurrency::usd(),
    }
}

} // verus!
