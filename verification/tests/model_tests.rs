use algorithms::client::trades_request::TradeStateFilter;
use algorithms::model::candle::CandlestickGranularity;
use algorithms::model::date_time::DateTimeFormat;
use algorithms::model::order::OrderPositionFill;
use algorithms::model::trade::ClientExtensions;

#[test]
fn date_time_format_defaults_to_rfc3339() {
    assert_eq!(DateTimeFormat::default(), DateTimeFormat::Rfc3339);
}

#[test]
fn order_position_fill_defaults_to_default_variant() {
    assert_eq!(OrderPositionFill::default(), OrderPositionFill::Default);
}

#[test]
fn client_extensions_keeps_its_fields() {
    let ext = ClientExtensions::new(
        String::from("trader"),
        String::from("Joe"),
        String::from("open"),
    );
    assert_eq!(ext.id, "trader");
    assert_eq!(ext.tag, "Joe");
    assert_eq!(ext.comment, "open");
}

#[test]
fn vocabulary_values_compare() {
    assert_ne!(TradeStateFilter::Open, TradeStateFilter::All);
    assert_ne!(CandlestickGranularity::M15, CandlestickGranularity::S5);
}
