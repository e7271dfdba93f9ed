//! The data-source tables the dispatcher consults, held as plain values:
//! the canonical coin set, the nickname table, and the latest price,
//! all-time-stats, movers, advice and remark records.
//!
//! The tables are read-only for this crate; whoever owns the real price
//! database fills them in. Money amounts are fixed-point integers counting
//! hundred-millionths (1e-8) of a currency unit; percent changes count
//! hundredths of a percent.

use vstd::prelude::*;
use crate::text::str_eq;

verus! {

/// A snapshot of a coin's latest prices.
pub struct Price {
    /// Canonical coin id, e.g. `bitcoin`.
    pub name: String,
    pub ticker: String,
    pub euro: u64,
    pub dollar: u64,
    /// Lowest price of the last 24 hours.
    pub min: u64,
    pub median: u64,
    /// Highest price of the last 24 hours.
    pub max: u64,
    /// 24-hour percent change, in hundredths of a percent.
    pub change: i64,
}

/// A coin's all-time lowest and highest prices with their dates.
pub struct ATS {
    pub name: String,
    pub lowest: u64,
    pub lowest_date: String,
    pub highest: u64,
    pub highest_date: String,
}

/// One entry of a bulls/bears leaderboard.
pub struct Mover {
    pub name: String,
    pub ticker: String,
    /// Percent change, in hundredths of a percent.
    pub diff: i64,
}

/// The read-only tables of the data source.
pub struct DB {
    /// The set of canonical coin ids.
    pub all_coins: Vec<String>,
    /// Nickname to canonical coin id.
    pub nicks_coins: Vec<(String, String)>,
    pub prices: Vec<Price>,
    pub all_time: Vec<ATS>,
    /// Top gainers, in leaderboard order.
    pub bulls: Vec<Mover>,
    /// Top losers, in leaderboard order.
    pub bears: Vec<Mover>,
    pub advice: String,
    /// Canned remarks, keyed by message.
    pub remarks: Vec<(String, String)>,
}

/// `c` is a member of the canonical coin set.
pub open spec fn coin_known(coins: Seq<String>, c: Seq<char>) -> bool {
    exists|i: int| 0 <= i < coins.len() && coins[i]@ == c
}

/// The canonical id mapped to nickname `c`, if any (first match).
pub open spec fn alias_of(nicks: Seq<(String, String)>, c: Seq<char>) -> Option<Seq<char>>
    decreases nicks.len(),
{
    if nicks.len() == 0 {
        Option::None
    } else if nicks[0].0@ == c {
        Option::Some(nicks[0].1@)
    } else {
        alias_of(nicks.drop_first(), c)
    }
}

/// The price record for coin `c`, if any (first match by name).
pub open spec fn price_for(prices: Seq<Price>, c: Seq<char>) -> Option<Price>
    decreases prices.len(),
{
    if prices.len() == 0 {
        Option::None
    } else if prices[0].name@ == c {
        Option::Some(prices[0])
    } else {
        price_for(prices.drop_first(), c)
    }
}

/// The all-time-stats record for coin `c`, if any (first match by name).
pub open spec fn ats_for(recs: Seq<ATS>, c: Seq<char>) -> Option<ATS>
    decreases recs.len(),
{
    if recs.len() == 0 {
        Option::None
    } else if recs[0].name@ == c {
        Option::Some(recs[0])
    } else {
        ats_for(recs.drop_first(), c)
    }
}

/// The remark stored under `key`, if any (first match).
pub open spec fn remark_for(remarks: Seq<(String, String)>, key: Seq<char>) -> Option<Seq<char>>
    decreases remarks.len(),
{
    if remarks.len() == 0 {
        Option::None
    } else if remarks[0].0@ == key {
        Option::Some(remarks[0].1@)
    } else {
        remark_for(remarks.drop_first(), key)
    }
}

impl DB {
    /// Whether `c` is a canonical coin id.
    pub fn contains_coin(&self, c: &str) -> (r: bool)
        ensures
            r == coin_known(self.all_coins@, c@),
    {
        let mut i: usize = 0;
        while i < self.all_coins.len()
            invariant
                i <= self.all_coins@.len(),
                forall|k: int| 0 <= k < i ==> self.all_coins@[k]@ != c@,
            decreases self.all_coins@.len() - i,
        {
            if str_eq(self.all_coins[i].as_str(), c) {
                return true;
            }
            i = i + 1;
        }
        false
    }

    /// The canonical id for nickname `c`, if the nickname table has it.
    pub fn lookup_nick(&self, c: &str) -> (r: Option<&String>)
        ensures
            match r {
                Option::Some(id) => alias_of(self.nicks_coins@, c@) == Option::Some(id@),
                Option::None => alias_of(self.nicks_coins@, c@) is None,
            },
    {
        let mut i: usize = 0;
        proof {
            assert(self.nicks_coins@.skip(0) =~= self.nicks_coins@);
        }
        while i < self.nicks_coins.len()
            invariant
                i <= self.nicks_coins@.len(),
                alias_of(self.nicks_coins@, c@) == alias_of(
                    self.nicks_coins@.skip(i as int),
                    c@,
                ),
            decreases self.nicks_coins@.len() - i,
        {
            proof {
                assert(self.nicks_coins@.skip(i as int).drop_first() =~= self.nicks_coins@.skip(
                    i + 1 as int,
                ));
            }
            if str_eq(self.nicks_coins[i].0.as_str(), c) {
                return Option::Some(&self.nicks_coins[i].1);
            }
            i = i + 1;
        }
        Option::None
    }

    /// The latest price record for `coin`, if the data source has one.
    pub fn get_latest_price(&self, coin: &str) -> (r: Option<&Price>)
        ensures
            match r {
                Option::Some(p) => price_for(self.prices@, coin@) == Option::Some(*p),
                Option::None => price_for(self.prices@, coin@) is None,
            },
    {
        let mut i: usize = 0;
        proof {
            assert(self.prices@.skip(0) =~= self.prices@);
        }
        while i < self.prices.len()
            invariant
                i <= self.prices@.len(),
                price_for(self.prices@, coin@) == price_for(self.prices@.skip(i as int), coin@),
            decreases self.prices@.len() - i,
        {
            proof {
                assert(self.prices@.skip(i as int).drop_first() =~= self.prices@.skip(
                    i + 1 as int,
                ));
            }
            if str_eq(self.prices[i].name.as_str(), coin) {
                return Option::Some(&self.prices[i]);
            }
            i = i + 1;
        }
        Option::None
    }

    /// The all-time-stats record for `coin`, if the data source has one.
    pub fn get_ats(&self, coin: &str) -> (r: Option<&ATS>)
        ensures
            match r {
                Option::Some(a) => ats_for(self.all_time@, coin@) == Option::Some(*a),
                Option::None => ats_for(self.all_time@, coin@) is None,
            },
    {
        let mut i: usize = 0;
        proof {
            assert(self.all_time@.skip(0) =~= self.all_time@);
        }
        while i < self.all_time.len()
            invariant
                i <= self.all_time@.len(),
                ats_for(self.all_time@, coin@) == ats_for(self.all_time@.skip(i as int), coin@),
            decreases self.all_time@.len() - i,
        {
            proof {
                assert(self.all_time@.skip(i as int).drop_first() =~= self.all_time@.skip(
                    i + 1 as int,
                ));
            }
            if str_eq(self.all_time[i].name.as_str(), coin) {
                return Option::Some(&self.all_time[i]);
            }
            i = i + 1;
        }
        Option::None
    }

    /// The top gainers, or nothing when no movers are available.
    pub fn get_bulls(&self) -> (r: Option<&Vec<Mover>>)
        ensures
            r is Some <==> self.bulls@.len() > 0,
            r matches Some(ms) ==> ms@ == self.bulls@,
    {
        if self.bulls.len() == 0 {
            Option::None
        } else {
            Option::Some(&self.bulls)
        }
    }

    /// The top losers, or nothing when no movers are available.
    pub fn get_bears(&self) -> (r: Option<&Vec<Mover>>)
        ensures
            r is Some <==> self.bears@.len() > 0,
            r matches Some(ms) ==> ms@ == self.bears@,
    {
        if self.bears.len() == 0 {
            Option::None
        } else {
            Option::Some(&self.bears)
        }
    }

    /// The stored advice string.
    pub fn get_advice(&self) -> (r: String)
        ensures
            r@ == self.advice@,
    {
        self.advice.clone()
    }

    /// The remark stored under `key`, if the data source has one.
    pub fn get_remark(&self, key: &str) -> (r: Option<String>)
        ensures
            match r {
                Option::Some(s) => remark_for(self.remarks@, key@) == Option::Some(s@),
                Option::None => remark_for(self.remarks@, key@) is None,
            },
    {
        let mut i: usize = 0;
        proof {
            assert(self.remarks@.skip(0) =~= self.remarks@);
        }
        while i < self.remarks.len()
            invariant
                i <= self.remarks@.len(),
                remark_for(self.remarks@, key@) == remark_for(
                    self.remarks@.skip(i as int),
                    key@,
                ),
            decreases self.remarks@.len() - i,
        {
            proof {
                assert(self.remarks@.skip(i as int).drop_first() =~= self.remarks@.skip(
                    i + 1 as int,
                ));
            }
            if str_eq(self.remarks[i].0.as_str(), key) {
                return Option::Some(self.remarks[i].1.clone());
            }
            i = i + 1;
        }
        Option::None
    }
}

} // verus!
