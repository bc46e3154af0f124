use sysfs_gpio::{
    dec_string, direction_str, edge_str, parse_direction, parse_edge, parse_value,
    parse_value_snapshot, trim_str, value_str, Direction, Edge, GpioError,
};

#[test]
fn direction_tokens_parse() {
    assert!(matches!(parse_direction("in"), Ok(Direction::In)));
    assert!(matches!(parse_direction("out\n"), Ok(Direction::Out)));
    assert!(matches!(parse_direction("  high "), Ok(Direction::High)));
    assert!(matches!(parse_direction("low\n"), Ok(Direction::Low)));
}

#[test]
fn direction_unrecognized_carries_text() {
    match parse_direction("floating\n") {
        Err(GpioError::Unexpected(t)) => assert_eq!(t, "floating"),
        other => panic!("expected unexpected-content error, got {:?}", other),
    }
}

#[test]
fn edge_tokens_parse() {
    assert!(matches!(parse_edge("none\n"), Ok(Edge::NoInterrupt)));
    assert!(matches!(parse_edge("rising"), Ok(Edge::RisingEdge)));
    assert!(matches!(parse_edge("falling\n"), Ok(Edge::FallingEdge)));
    assert!(matches!(parse_edge(" both\n"), Ok(Edge::BothEdges)));
    assert!(matches!(parse_edge("up"), Err(GpioError::Unexpected(_))));
}

#[test]
fn value_zero_and_one_parse() {
    assert!(matches!(parse_value("0\n"), Ok(0)));
    assert!(matches!(parse_value("1\n"), Ok(1)));
}

#[test]
fn value_other_contents_fail() {
    assert!(matches!(parse_value("2\n"), Err(GpioError::Unexpected(_))));
    assert!(matches!(parse_value(""), Err(GpioError::Unexpected(_))));
    assert!(matches!(parse_value("xyz"), Err(GpioError::Unexpected(_))));
    match parse_value("10") {
        Err(GpioError::Unexpected(t)) => assert_eq!(t, "10"),
        other => panic!("expected unexpected-content error, got {:?}", other),
    }
}

#[test]
fn snapshot_reads_leading_character() {
    assert!(matches!(parse_value_snapshot("0\n"), Ok(0)));
    assert!(matches!(parse_value_snapshot("1"), Ok(1)));
    assert!(matches!(parse_value_snapshot(""), Err(GpioError::Unexpected(_))));
    assert!(matches!(
        parse_value_snapshot("2\n"),
        Err(GpioError::Unexpected(_))
    ));
}

#[test]
fn written_tokens() {
    assert_eq!(direction_str(Direction::In), "in");
    assert_eq!(direction_str(Direction::Out), "out");
    assert_eq!(direction_str(Direction::High), "high");
    assert_eq!(direction_str(Direction::Low), "low");
    assert_eq!(edge_str(Edge::NoInterrupt), "none");
    assert_eq!(edge_str(Edge::RisingEdge), "rising");
    assert_eq!(edge_str(Edge::FallingEdge), "falling");
    assert_eq!(edge_str(Edge::BothEdges), "both");
}

#[test]
fn nonzero_values_write_as_one() {
    assert_eq!(value_str(0), "0");
    assert_eq!(value_str(1), "1");
    assert_eq!(value_str(42), "1");
    assert_eq!(value_str(255), "1");
}

#[test]
fn written_direction_reads_back_without_high_low() {
    // The kernel stores "in" when In is written and "out" when Out, High
    // or Low is: parsing what the attribute then holds never yields High
    // or Low.
    for stored in ["in", "out", "out", "out"] {
        match parse_direction(stored) {
            Ok(d) => assert!(matches!(d, Direction::In | Direction::Out)),
            Err(e) => panic!("stored token must parse, got {:?}", e),
        }
    }
}

#[test]
fn decimal_text() {
    assert_eq!(dec_string(0), "0");
    assert_eq!(dec_string(7), "7");
    assert_eq!(dec_string(10), "10");
    assert_eq!(dec_string(50), "50");
    assert_eq!(dec_string(12345), "12345");
    assert_eq!(dec_string(u64::MAX), "18446744073709551615");
}

#[test]
fn trimming() {
    assert_eq!(trim_str("  hi\n"), "hi");
    assert_eq!(trim_str("\r\n\t "), "");
    assert_eq!(trim_str(""), "");
    assert_eq!(trim_str("a b"), "a b");
    assert_eq!(trim_str("\nin"), "in");
}
