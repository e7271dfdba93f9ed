//! Fiat conversion: how many euro a given amount of a coin is worth at the
//! latest price. Coin amounts are fixed-point integers counting
//! hundred-millionths (1e-8) of a coin.

use vstd::prelude::*;
use vstd::string::StringExecFns;
use crate::db::{DB, Price, price_for};
use crate::numfmt::{dec_digits, zero_pad, u64_string, u64_string_padded};
use crate::replies::{UNIT_SCALE, spec_format_currency, format_currency};
use crate::text::{title_of, upper_of, titlecase_str, uppercase_str};

verus! {

/// The fractional digits of `f` out of `w` decimal places, with trailing
/// zeros removed.
pub open spec fn spec_frac_digits(f: nat, w: nat) -> Seq<char>
    decreases w,
{
    if w == 0 {
        Seq::empty()
    } else if f % 10 == 0 {
        spec_frac_digits(f / 10, (w - 1) as nat)
    } else {
        zero_pad(dec_digits(f), w)
    }
}

fn frac_digits(f: u64, w: usize) -> (r: String)
    ensures
        r@ == spec_frac_digits(f as nat, w as nat),
    decreases w,
{
    if w == 0 {
        String::new()
    } else if f % 10 == 0 {
        frac_digits(f / 10, w - 1)
    } else {
        u64_string_padded(f, w)
    }
}

/// A coin amount rendered as a decimal: the whole coins, then any
/// fractional digits with trailing zeros removed.
pub open spec fn spec_amount(amount: nat) -> Seq<char> {
    if amount % 100_000_000 == 0 {
        dec_digits(amount / 100_000_000)
    } else {
        dec_digits(amount / 100_000_000) + "."@ + spec_frac_digits(amount % 100_000_000, 8)
    }
}

fn render_amount(amount: u64) -> (r: String)
    ensures
        r@ == spec_amount(amount as nat),
{
    let whole = u64_string(amount / UNIT_SCALE);
    let frac = amount % UNIT_SCALE;
    if frac == 0 {
        whole
    } else {
        let mut s = whole;
        s.append(".");
        let f = frac_digits(frac, 8);
        s.append(f.as_str());
        s
    }
}

/// The worth of `amount` coins at `euro` per coin, in fixed-point money
/// units.
pub open spec fn spec_worth(amount: nat, euro: nat) -> nat {
    amount * euro / 100_000_000
}

/// The conversion's result fits the fixed-point money range (a machine
/// limit, not a rule of the conversion).
pub open spec fn fiat_fits(db: DB, c: Seq<char>, amount: u64) -> bool {
    match price_for(db.prices@, c) {
        Option::Some(p) => spec_worth(amount as nat, p.euro as nat) <= u64::MAX,
        Option::None => true,
    }
}

/// The fiat-conversion reply line for one price record.
pub open spec fn spec_fiat_line(p: Price, amount: u64) -> Seq<char> {
    spec_amount(amount as nat) + " "@ + title_of(p.name@) + " ("@ + upper_of(p.ticker@)
        + ") is worth €"@ + spec_format_currency(spec_worth(amount as nat, p.euro as nat)) + " at €"@
        + spec_format_currency(p.euro as nat) + " per coin"@
}

/// How many euro `amount` coins of `coin` are worth at the latest price,
/// as a reply line; nothing when the data source has no price record.
pub fn get_fiat(db: &DB, coin: String, amount: u64) -> (r: Option<String>)
    requires
        fiat_fits(*db, coin@, amount),
    ensures
        r is Some <==> price_for(db.prices@, coin@) is Some,
        r matches Some(s) ==> (price_for(db.prices@, coin@) matches Option::Some(p) && s@
            == spec_fiat_line(p, amount)),
{
    match db.get_latest_price(coin.as_str()) {
        Option::Some(p) => {
            proof {
                assert((amount as u128) * (p.euro as u128) <= (u64::MAX as u128) * (
                u64::MAX as u128)) by (nonlinear_arith)
                    requires
                        amount <= u64::MAX,
                        p.euro <= u64::MAX,
                ;
            }
            let worth128: u128 = (amount as u128) * (p.euro as u128) / (UNIT_SCALE as u128);
            let worth: u64 = worth128 as u64;
            let mut s = render_amount(amount);
            s.append(" ");
            let name = titlecase_str(p.name.as_str());
            s.append(name.as_str());
            s.append(" (");
            let ticker = uppercase_str(p.ticker.as_str());
            s.append(ticker.as_str());
            s.append(") is worth €");
            let w = format_currency(worth);
            s.append(w.as_str());
            s.append(" at €");
            let e = format_currency(p.euro);
            s.append(e.as_str());
            s.append(" per coin");
            Option::Some(s)
        },
        Option::None => Option::None,
    }
}

} // verus!
