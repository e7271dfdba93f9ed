use rooney::db::{ATS, DB, Mover, Price};
use rooney::replies::fiat::get_fiat;
use rooney::replies::Replies;

fn price(name: &str, ticker: &str, euro: u64) -> Price {
    Price {
        name: name.to_string(),
        ticker: ticker.to_string(),
        euro,
        dollar: euro,
        min: 50_000_000,
        median: 100_000_000,
        max: 2_100_000_000_000,
        change: 123,
    }
}

fn sample_db() -> DB {
    DB {
        all_coins: vec![
            "bitcoin".to_string(),
            "litecoin".to_string(),
            "dogecoin".to_string(),
        ],
        nicks_coins: vec![
            ("btc".to_string(), "bitcoin".to_string()),
            ("ltc".to_string(), "litecoin".to_string()),
            ("doge".to_string(), "dogecoin".to_string()),
        ],
        prices: vec![
            price("bitcoin", "btc", 2_000_000_000_000),
            price("litecoin", "ltc", 10_000_000_000),
        ],
        all_time: vec![ATS {
            name: "bitcoin".to_string(),
            lowest: 6_000_000,
            lowest_date: "2010-07-18".to_string(),
            highest: 6_900_000_000_000,
            highest_date: "2021-11-10".to_string(),
        }],
        bulls: vec![],
        bears: vec![
            Mover { name: "dogecoin".to_string(), ticker: "doge".to_string(), diff: -520 },
            Mover { name: "monero".to_string(), ticker: "xmr".to_string(), diff: -230 },
        ],
        advice: "buy low, sell high".to_string(),
        remarks: vec![("!ping".to_string(), "pong".to_string())],
    }
}

fn bitcoin_price_line() -> String {
    "Current price for Bitcoin (BTC): €20,000.00 $20,000.00 24h Low: €0.50000000 \
     Median: €1.00 24h High: €21,000.00 \x0303Up: 1.23% Today"
        .to_string()
}

fn litecoin_price_line() -> String {
    "Current price for Litecoin (LTC): €100.00 $100.00 24h Low: €0.50000000 \
     Median: €1.00 24h High: €21,000.00 \x0303Up: 1.23% Today"
        .to_string()
}

#[test]
fn resolve_keeps_canonical_tokens() {
    let r = Replies::new(sample_db());
    assert_eq!(r.get_coin("litecoin".to_string()), "litecoin");
    assert_eq!(r.get_coin("bitcoin".to_string()), "bitcoin");
}

#[test]
fn resolve_maps_aliases() {
    let r = Replies::new(sample_db());
    assert_eq!(r.get_coin("ltc".to_string()), "litecoin");
    assert_eq!(r.get_coin("btc".to_string()), "bitcoin");
}

#[test]
fn resolve_defaults_unknown_tokens_to_bitcoin() {
    let r = Replies::new(sample_db());
    assert_eq!(r.get_coin("zzz".to_string()), "bitcoin");
    assert_eq!(r.get_coin("".to_string()), "bitcoin");
}

#[test]
fn parse_coin_arg_takes_second_token_lowercased() {
    let r = Replies::new(sample_db());
    assert_eq!(r.parse_coin_arg("!coin LTC"), "ltc");
    assert_eq!(r.parse_coin_arg("!coin   ltc   extra"), "ltc");
    assert_eq!(r.parse_coin_arg("!coin"), "bitcoin");
    assert_eq!(r.parse_coin_arg("   "), "bitcoin");
}

#[test]
fn bare_coin_command_answers_with_bitcoin() {
    let r = Replies::new(sample_db());
    assert_eq!(r.handle_message("!coin"), Some(bitcoin_price_line()));
    assert_eq!(r.handle_message("!crack"), Some(bitcoin_price_line()));
}

#[test]
fn coin_command_resolves_aliases() {
    let r = Replies::new(sample_db());
    assert_eq!(r.handle_message("!coin ltc"), Some(litecoin_price_line()));
    assert_eq!(r.handle_message("!coin LTC"), Some(litecoin_price_line()));
}

#[test]
fn coin_command_falls_back_to_bitcoin_on_unknown_tokens() {
    let r = Replies::new(sample_db());
    assert_eq!(r.handle_message("!coin zzz"), Some(bitcoin_price_line()));
}

#[test]
fn github_mention_returns_project_url() {
    let r = Replies::new(sample_db());
    assert_eq!(
        r.handle_message("check out my github"),
        Some("https://github.com/nemo-rb/rooney".to_string())
    );
}

#[test]
fn advice_command_returns_stored_advice() {
    let r = Replies::new(sample_db());
    assert_eq!(r.handle_message("!advice"), Some("buy low, sell high".to_string()));
    // exact match only
    assert_eq!(r.handle_message("!advice please"), None);
}

#[test]
fn ats_command_renders_all_time_stats() {
    let r = Replies::new(sample_db());
    assert_eq!(
        r.handle_message("!ats btc"),
        Some(
            "All time \x0305Low\x03/\x0303High\x03 Prices for Bitcoin, Lowest: \
             \x0305€0.06000000\x03 on 2010-07-18 Highest: \x0303€69,000.00\x03 on 2021-11-10"
                .to_string()
        )
    );
}

#[test]
fn ats_without_stats_returns_nothing() {
    let r = Replies::new(sample_db());
    // doge resolves to dogecoin, which has no all-time record
    assert_eq!(r.handle_message("!ats doge"), None);
    assert_eq!(r.handle_message("!ats ltc"), None);
}

#[test]
fn bulls_without_movers_returns_nothing() {
    let r = Replies::new(sample_db());
    assert_eq!(r.handle_message("!bulls"), None);
}

#[test]
fn bears_joins_mover_summaries_in_order() {
    let r = Replies::new(sample_db());
    assert_eq!(
        r.handle_message("!bears"),
        Some(
            "Dogecoin (DOGE) \x0305Down: 5.20% Today\x03 \
             Monero (XMR) \x0305Down: 2.30% Today\x03"
                .to_string()
        )
    );
}

#[test]
fn unmatched_messages_get_no_reply() {
    let r = Replies::new(sample_db());
    assert_eq!(r.handle_message("hello there"), None);
    assert_eq!(r.handle_message(""), None);
    assert_eq!(r.handle_message("!bullsandbears"), None);
}

#[test]
fn fiat_converts_amounts_at_latest_price() {
    let db = sample_db();
    assert_eq!(
        get_fiat(&db, "bitcoin".to_string(), 250_000_000),
        Some("2.5 Bitcoin (BTC) is worth €50,000.00 at €20,000.00 per coin".to_string())
    );
    assert_eq!(
        get_fiat(&db, "bitcoin".to_string(), 100_000_000),
        Some("1 Bitcoin (BTC) is worth €20,000.00 at €20,000.00 per coin".to_string())
    );
}

#[test]
fn fiat_without_price_record_returns_nothing() {
    let db = sample_db();
    assert_eq!(get_fiat(&db, "zzz".to_string(), 100_000_000), None);
}
