//! The command dispatcher and the reply formatters.
//!
//! `Replies::handle_message` inspects one chat line, matches it against the
//! known command patterns in priority order, and produces the reply string,
//! if any. The formatters render fixed-point money amounts (hundred-millionths
//! of a currency unit) and percent changes (hundredths of a percent) into the
//! fixed reply templates; the `\u{3}` sequences are the colour markers the
//! chat transport understands.

pub mod fiat;
pub mod remark;

use vstd::prelude::*;
use vstd::string::StringExecFns;
use crate::db::{DB, Price, ATS, Mover};
use crate::db::{coin_known, alias_of, price_for, ats_for};
use crate::numfmt::{dec_digits, zero_pad, grouped};
use crate::numfmt::{u64_string, u64_string_padded, separated_u64};
use crate::text::{tokens, lower_of, upper_of, title_of, starts_with_s, contains_s};
use crate::text::{str_chars, starts_with, contains_sub, chars_eq, second_token, lowercase_chars,
    uppercase_str, titlecase_str};

verus! {

/// Fixed-point scale: money amounts count hundred-millionths (1e-8) of a
/// currency unit.
pub const UNIT_SCALE: u64 = 100_000_000;

/// An amount rounded half-up to whole hundredths (cents) of a currency unit.
pub open spec fn spec_cents(units: nat) -> nat {
    units / 1_000_000 + if units % 1_000_000 >= 500_000 {
        1nat
    } else {
        0nat
    }
}

/// What `format_currency` renders: amounts below one currency unit with all
/// eight fractional digits, larger amounts rounded to two decimal places
/// with the whole part grouped by thousands separators.
pub open spec fn spec_format_currency(units: nat) -> Seq<char> {
    if units < 100_000_000 {
        "0."@ + zero_pad(dec_digits(units), 8)
    } else {
        grouped(dec_digits(spec_cents(units) / 100)) + "."@ + zero_pad(
            dec_digits(spec_cents(units) % 100),
            2,
        )
    }
}

/// A percent change's magnitude.
pub open spec fn spec_abs(d: int) -> nat {
    if d < 0 {
        (-d) as nat
    } else {
        d as nat
    }
}

/// What `format_change` renders: the magnitude with two decimal places,
/// prefixed by the down marker for negative changes and the up marker
/// otherwise.
pub open spec fn spec_format_change(d: int) -> Seq<char> {
    if d < 0 {
        "\u{3}05Down: "@ + dec_digits(spec_abs(d) / 100) + "."@ + zero_pad(
            dec_digits(spec_abs(d) % 100),
            2,
        ) + "%"@
    } else {
        "\u{3}03Up: "@ + dec_digits(spec_abs(d) / 100) + "."@ + zero_pad(
            dec_digits(spec_abs(d) % 100),
            2,
        ) + "%"@
    }
}

/// Renders a money amount; see `spec_format_currency`.
pub fn format_currency(units: u64) -> (r: String)
    ensures
        r@ == spec_format_currency(units as nat),
{
    if units < UNIT_SCALE {
        let mut s: String = "0.".to_owned();
        let frac = u64_string_padded(units, 8);
        s.append(frac.as_str());
        s
    } else {
        let q = units / 1_000_000;
        let rem = units % 1_000_000;
        let cents: u64 = if rem >= 500_000 {
            q + 1
        } else {
            q
        };
        let mut s = separated_u64(cents / 100);
        s.append(".");
        let frac = u64_string_padded(cents % 100, 2);
        s.append(frac.as_str());
        s
    }
}

/// Renders a percent change; see `spec_format_change`.
pub fn format_change(diff: i64) -> (r: String)
    ensures
        r@ == spec_format_change(diff as int),
{
    let mag: u64 = if diff < 0 {
        proof {
            assert(0 <= -(diff as i128) <= u64::MAX as i128);
        }
        (-(diff as i128)) as u64
    } else {
        diff as u64
    };
    let whole = u64_string(mag / 100);
    let frac = u64_string_padded(mag % 100, 2);
    let mut s: String = if diff < 0 {
        "\u{3}05Down: ".to_owned()
    } else {
        "\u{3}03Up: ".to_owned()
    };
    s.append(whole.as_str());
    s.append(".");
    s.append(frac.as_str());
    s.append("%");
    s
}

/// The price-summary reply for one price record.
pub open spec fn spec_price_line(p: Price) -> Seq<char> {
    "Current price for "@ + title_of(p.name@) + " ("@ + upper_of(p.ticker@) + "): €"@
        + spec_format_currency(p.euro as nat) + " $"@ + spec_format_currency(p.dollar as nat)
        + " 24h Low: €"@ + spec_format_currency(p.min as nat) + " Median: €"@
        + spec_format_currency(p.median as nat) + " 24h High: €"@ + spec_format_currency(
        p.max as nat,
    ) + " "@ + spec_format_change(p.change as int) + " Today"@
}

pub fn render_price(p: &Price) -> (r: String)
    ensures
        r@ == spec_price_line(*p),
{
    let mut s: String = "Current price for ".to_owned();
    let name = titlecase_str(p.name.as_str());
    s.append(name.as_str());
    s.append(" (");
    let ticker = uppercase_str(p.ticker.as_str());
    s.append(ticker.as_str());
    s.append("): €");
    let euro = format_currency(p.euro);
    s.append(euro.as_str());
    s.append(" $");
    let dollar = format_currency(p.dollar);
    s.append(dollar.as_str());
    s.append(" 24h Low: €");
    let min = format_currency(p.min);
    s.append(min.as_str());
    s.append(" Median: €");
    let median = format_currency(p.median);
    s.append(median.as_str());
    s.append(" 24h High: €");
    let max = format_currency(p.max);
    s.append(max.as_str());
    s.append(" ");
    let change = format_change(p.change);
    s.append(change.as_str());
    s.append(" Today");
    s
}

/// The all-time-stats reply for one record.
pub open spec fn spec_ats_line(a: ATS) -> Seq<char> {
    "All time \u{3}05Low\u{3}/\u{3}03High\u{3} Prices for "@ + title_of(a.name@) + ", Lowest: \u{3}05€"@
        + spec_format_currency(a.lowest as nat) + "\u{3} on "@ + a.lowest_date@
        + " Highest: \u{3}03€"@ + spec_format_currency(a.highest as nat) + "\u{3} on "@
        + a.highest_date@
}

pub fn render_ats(a: &ATS) -> (r: String)
    ensures
        r@ == spec_ats_line(*a),
{
    let mut s: String = "All time \u{3}05Low\u{3}/\u{3}03High\u{3} Prices for ".to_owned();
    let name = titlecase_str(a.name.as_str());
    s.append(name.as_str());
    s.append(", Lowest: \u{3}05€");
    let lowest = format_currency(a.lowest);
    s.append(lowest.as_str());
    s.append("\u{3} on ");
    s.append(a.lowest_date.as_str());
    s.append(" Highest: \u{3}03€");
    let highest = format_currency(a.highest);
    s.append(highest.as_str());
    s.append("\u{3} on ");
    s.append(a.highest_date.as_str());
    s
}

/// The one-mover summary used in bulls/bears replies.
pub open spec fn spec_mover_line(m: Mover) -> Seq<char> {
    title_of(m.name@) + " ("@ + upper_of(m.ticker@) + ") "@ + spec_format_change(m.diff as int)
        + " Today\u{3}"@
}

pub fn render_mover(m: &Mover) -> (r: String)
    ensures
        r@ == spec_mover_line(*m),
{
    let name = titlecase_str(m.name.as_str());
    let mut s = name;
    s.append(" (");
    let ticker = uppercase_str(m.ticker.as_str());
    s.append(ticker.as_str());
    s.append(") ");
    let change = format_change(m.diff);
    s.append(change.as_str());
    s.append(" Today\u{3}");
    s
}

/// The space-joined mover summaries, in leaderboard order.
pub open spec fn spec_movers_line(ms: Seq<Mover>) -> Seq<char>
    decreases ms.len(),
{
    if ms.len() == 0 {
        Seq::empty()
    } else if ms.len() == 1 {
        spec_mover_line(ms[0])
    } else {
        spec_movers_line(ms.drop_last()) + " "@ + spec_mover_line(ms.last())
    }
}

pub fn render_movers(ms: &Vec<Mover>) -> (r: String)
    ensures
        r@ == spec_movers_line(ms@),
{
    if ms.len() == 0 {
        return String::new();
    }
    let mut s = render_mover(&ms[0]);
    proof {
        assert(ms@.take(1) =~= seq![ms@[0]]);
    }
    let mut i: usize = 1;
    while i < ms.len()
        invariant
            1 <= i <= ms@.len(),
            s@ == spec_movers_line(ms@.take(i as int)),
        decreases ms@.len() - i,
    {
        s.append(" ");
        let line = render_mover(&ms[i]);
        s.append(line.as_str());
        proof {
            assert(ms@.take(i + 1 as int).drop_last() =~= ms@.take(i as int));
            assert(ms@.take(i + 1 as int).last() == ms@[i as int]);
        }
        i = i + 1;
    }
    proof {
        assert(ms@.take(ms@.len() as int) =~= ms@);
    }
    s
}

/// The raw coin argument of a message: the second whitespace-delimited
/// token, lowercased, or `bitcoin` when the message has no argument.
pub open spec fn spec_parse_coin_arg(msg: Seq<char>) -> Seq<char> {
    if tokens(msg).len() <= 1 {
        "bitcoin"@
    } else {
        lower_of(tokens(msg)[1])
    }
}

/// A token normalized to a canonical coin id: itself when already
/// canonical, else its alias-table mapping, else the default `bitcoin`.
pub open spec fn spec_resolve(db: DB, c: Seq<char>) -> Seq<char> {
    if coin_known(db.all_coins@, c) {
        c
    } else {
        match alias_of(db.nicks_coins@, c) {
            Option::Some(id) => id,
            Option::None => "bitcoin"@,
        }
    }
}

/// The message-handling core: resolves coin arguments against the given
/// data-source tables and renders replies.
pub struct Replies {
    pub db: DB,
}

impl Replies {
    /// Builds the dispatcher over the given data-source tables.
    pub fn new(db: DB) -> (r: Replies)
        ensures
            r.db == db,
    {
        Replies { db }
    }

    /// The price reply for the coin `c`, if the data source has a record.
    pub open spec fn spec_price_reply(&self, c: Seq<char>) -> Option<Seq<char>> {
        match price_for(self.db.prices@, c) {
            Option::Some(p) => Option::Some(spec_price_line(p)),
            Option::None => Option::None,
        }
    }

    /// The all-time-stats reply for the coin `c`, if the data source has a
    /// record.
    pub open spec fn spec_ats_reply(&self, c: Seq<char>) -> Option<Seq<char>> {
        match ats_for(self.db.all_time@, c) {
            Option::Some(a) => Option::Some(spec_ats_line(a)),
            Option::None => Option::None,
        }
    }

    pub open spec fn spec_bulls_reply(&self) -> Option<Seq<char>> {
        if self.db.bulls@.len() == 0 {
            Option::None
        } else {
            Option::Some(spec_movers_line(self.db.bulls@))
        }
    }

    pub open spec fn spec_bears_reply(&self) -> Option<Seq<char>> {
        if self.db.bears@.len() == 0 {
            Option::None
        } else {
            Option::Some(spec_movers_line(self.db.bears@))
        }
    }

    /// The reply, if any, for one raw chat line. The patterns are checked
    /// in priority order, first match wins.
    pub open spec fn spec_reply(&self, msg: Seq<char>) -> Option<Seq<char>> {
        if starts_with_s(msg, "!coin"@) || starts_with_s(msg, "!crack"@) {
            self.spec_price_reply(spec_resolve(self.db, spec_parse_coin_arg(msg)))
        } else if contains_s(msg, "github"@) {
            Option::Some("https://github.com/nemo-rb/rooney"@)
        } else if msg == "!advice"@ {
            Option::Some(self.db.advice@)
        } else if starts_with_s(msg, "!ats"@) {
            self.spec_ats_reply(spec_resolve(self.db, spec_parse_coin_arg(msg)))
        } else if msg == "!bulls"@ {
            self.spec_bulls_reply()
        } else if msg == "!bears"@ {
            self.spec_bears_reply()
        } else {
            Option::None
        }
    }

    /// Handles one chat line; see `spec_reply`.
    pub fn handle_message(&self, msg: &str) -> (r: Option<String>)
        ensures
            r is Some <==> self.spec_reply(msg@) is Some,
            r matches Some(s) ==> self.spec_reply(msg@) == Option::Some(s@),
    {
        let chars = str_chars(msg);
        let coin_p = str_chars("!coin");
        let crack_p = str_chars("!crack");
        if starts_with(&chars, &coin_p) || starts_with(&chars, &crack_p) {
            let arg = self.parse_coin_arg(msg);
            let coin = self.get_coin(arg);
            return self.get_latest_price(coin);
        }
        let github_p = str_chars("github");
        if contains_sub(&chars, &github_p) {
            return Option::Some("https://github.com/nemo-rb/rooney".to_owned());
        }
        let advice_p = str_chars("!advice");
        if chars_eq(&chars, &advice_p) {
            return Option::Some(self.db.get_advice());
        }
        let ats_p = str_chars("!ats");
        if starts_with(&chars, &ats_p) {
            let arg = self.parse_coin_arg(msg);
            let coin = self.get_coin(arg);
            return self.get_ats(coin);
        }
        let bulls_p = str_chars("!bulls");
        if chars_eq(&chars, &bulls_p) {
            return self.get_bulls();
        }
        let bears_p = str_chars("!bears");
        if chars_eq(&chars, &bears_p) {
            return self.get_bears();
        }
        Option::None
    }

    /// Extracts the raw coin argument; see `spec_parse_coin_arg`.
    pub fn parse_coin_arg(&self, msg: &str) -> (r: String)
        ensures
            r@ == spec_parse_coin_arg(msg@),
    {
        let chars = str_chars(msg);
        match second_token(&chars) {
            Option::Some(w) => lowercase_chars(&w),
            Option::None => "bitcoin".to_owned(),
        }
    }

    /// Normalizes a token to a canonical coin id; see `spec_resolve`.
    pub fn get_coin(&self, coin: String) -> (r: String)
        ensures
            r@ == spec_resolve(self.db, coin@),
    {
        if self.db.contains_coin(coin.as_str()) {
            return coin;
        }
        match self.db.lookup_nick(coin.as_str()) {
            Option::Some(id) => id.clone(),
            Option::None => "bitcoin".to_owned(),
        }
    }

    /// The rendered price reply for `coin`; see `spec_price_reply`.
    pub fn get_latest_price(&self, coin: String) -> (r: Option<String>)
        ensures
            r is Some <==> self.spec_price_reply(coin@) is Some,
            r matches Some(s) ==> self.spec_price_reply(coin@) == Option::Some(s@),
    {
        match self.db.get_latest_price(coin.as_str()) {
            Option::Some(p) => Option::Some(render_price(p)),
            Option::None => Option::None,
        }
    }

    /// The rendered all-time-stats reply for `coin`; see `spec_ats_reply`.
    pub fn get_ats(&self, coin: String) -> (r: Option<String>)
        ensures
            r is Some <==> self.spec_ats_reply(coin@) is Some,
            r matches Some(s) ==> self.spec_ats_reply(coin@) == Option::Some(s@),
    {
        match self.db.get_ats(coin.as_str()) {
            Option::Some(a) => Option::Some(render_ats(a)),
            Option::None => Option::None,
        }
    }

    /// The rendered top-gainers reply; see `spec_bulls_reply`.
    pub fn get_bulls(&self) -> (r: Option<String>)
        ensures
            r is Some <==> self.spec_bulls_reply() is Some,
            r matches Some(s) ==> self.spec_bulls_reply() == Option::Some(s@),
    {
        match self.db.get_bulls() {
            Option::Some(ms) => Option::Some(render_movers(ms)),
            Option::None => Option::None,
        }
    }

    /// The rendered top-losers reply; see `spec_bears_reply`.
    pub fn get_bears(&self) -> (r: Option<String>)
        ensures
            r is Some <==> self.spec_bears_reply() is Some,
            r matches Some(s) ==> self.spec_bears_reply() == Option::Some(s@),
    {
        match self.db.get_bears() {
            Option::Some(ms) => Option::Some(render_movers(ms)),
            Option::None => Option::None,
        }
    }
}

/// A token already in the canonical coin set resolves to itself.
pub proof fn lemma_resolve_known(db: DB, c: Seq<char>)
    requires
        coin_known(db.all_coins@, c),
    ensures
        spec_resolve(db, c) == c,
{
}

/// A token in the alias table, and not itself canonical, resolves to the
/// mapped canonical id.
pub proof fn lemma_resolve_alias(db: DB, c: Seq<char>, id: Seq<char>)
    requires
        !coin_known(db.all_coins@, c),
        alias_of(db.nicks_coins@, c) == Option::Some(id),
    ensures
        spec_resolve(db, c) == id,
{
}

/// A token neither canonical nor aliased resolves to the default coin.
pub proof fn lemma_resolve_unknown(db: DB, c: Seq<char>)
    requires
        !coin_known(db.all_coins@, c),
        alias_of(db.nicks_coins@, c) is None,
    ensures
        spec_resolve(db, c) == "bitcoin"@,
{
}

/// Negative and non-negative changes render with distinct markers: the
/// down marker opens every negative rendering, the up marker every other,
/// and no rendering of a negative change equals one of a non-negative
/// change. The magnitude shown is the absolute value.
pub proof fn lemma_change_markers(down: int, up: int)
    requires
        down < 0,
        up >= 0,
    ensures
        starts_with_s(spec_format_change(down), "\u{3}05Down: "@),
        starts_with_s(spec_format_change(up), "\u{3}03Up: "@),
        spec_format_change(down) != spec_format_change(up),
{
    reveal_strlit("\u{3}05Down: ");
    reveal_strlit("\u{3}03Up: ");
    assert(spec_format_change(down).take("\u{3}05Down: "@.len() as int) =~= "\u{3}05Down: "@);
    assert(spec_format_change(up).take("\u{3}03Up: "@.len() as int) =~= "\u{3}03Up: "@);
    assert(spec_format_change(down)[2] == '5');
    assert(spec_format_change(up)[2] == '3');
}

/// Rendering is a pure function of the record: any two renderings of the
/// same price record are identical.
pub proof fn lemma_render_price_deterministic(p: Price, r1: Seq<char>, r2: Seq<char>)
    requires
        r1 == spec_price_line(p),
        r2 == spec_price_line(p),
    ensures
        r1 == r2,
{
}

} // verus!
