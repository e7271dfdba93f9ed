use rooney::replies::{format_change, format_currency, render_ats, render_mover, render_price};
use rooney::db::{ATS, Mover, Price};

fn sample_price() -> Price {
    Price {
        name: "bitcoin".to_string(),
        ticker: "btc".to_string(),
        euro: 2_050_000_000_000,
        dollar: 2_212_312_000_000,
        min: 50_000_000,
        median: 100_000_000,
        max: 2_100_000_000_000,
        change: 123,
    }
}

#[test]
fn currency_subunit_has_eight_decimals() {
    assert_eq!(format_currency(1), "0.00000001");
    assert_eq!(format_currency(50_000_000), "0.50000000");
    assert_eq!(format_currency(99_999_999), "0.99999999");
}

#[test]
fn currency_rounds_half_up_to_two_decimals_with_separators() {
    // 1234.565 rounds up to 1,234.57
    assert_eq!(format_currency(123_456_500_000), "1,234.57");
    // 1234.564 rounds down to 1,234.56
    assert_eq!(format_currency(123_456_400_000), "1,234.56");
    assert_eq!(format_currency(100_000_000), "1.00");
}

#[test]
fn currency_groups_thousands() {
    assert_eq!(format_currency(123_456_789_000_000_000), "1,234,567,890.00");
    assert_eq!(format_currency(2_000_000_000_000), "20,000.00");
}

#[test]
fn change_markers_distinguish_up_from_down() {
    let down = format_change(-520);
    let up = format_change(520);
    assert_eq!(down, "\x0305Down: 5.20%");
    assert_eq!(up, "\x0303Up: 5.20%");
    assert_ne!(down, up);
}

#[test]
fn change_shows_absolute_value() {
    assert_eq!(format_change(-5), "\x0305Down: 0.05%");
    assert_eq!(format_change(0), "\x0303Up: 0.00%");
    assert_eq!(format_change(10_000), "\x0303Up: 100.00%");
}

#[test]
fn price_line_renders_fixed_template() {
    let p = sample_price();
    assert_eq!(
        render_price(&p),
        "Current price for Bitcoin (BTC): €20,500.00 $22,123.12 24h Low: €0.50000000 \
         Median: €1.00 24h High: €21,000.00 \x0303Up: 1.23% Today"
    );
}

#[test]
fn rendering_twice_is_byte_identical() {
    let p = sample_price();
    let first = render_price(&p);
    let second = render_price(&p);
    assert_eq!(first, second);
    assert_eq!(first.as_bytes(), second.as_bytes());

    let a = ATS {
        name: "bitcoin".to_string(),
        lowest: 6_000_000,
        lowest_date: "2010-07-18".to_string(),
        highest: 6_900_000_000_000,
        highest_date: "2021-11-10".to_string(),
    };
    assert_eq!(render_ats(&a).as_bytes(), render_ats(&a).as_bytes());

    let m = Mover { name: "monero".to_string(), ticker: "xmr".to_string(), diff: -230 };
    assert_eq!(render_mover(&m).as_bytes(), render_mover(&m).as_bytes());
}

#[test]
fn mover_line_renders_fixed_template() {
    let m = Mover { name: "monero".to_string(), ticker: "xmr".to_string(), diff: 345 };
    assert_eq!(render_mover(&m), "Monero (XMR) \x0303Up: 3.45% Today\x03");
}
