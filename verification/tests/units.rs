use revfeed::{parse_amount, format_amount, get_attr, plan_units, str_eq, Chunker, Record};

fn row(tag: &str) -> Record {
    let mut r = Record::new();
    r.pnr_no = tag.to_string();
    r
}

#[test]
fn amounts_parse_to_fixed_point() {
    assert_eq!(parse_amount("123.45"), 1234500);
    assert_eq!(parse_amount("90.00"), 900000);
    assert_eq!(parse_amount("0"), 0);
    assert_eq!(parse_amount("-7.5"), -75000);
    assert_eq!(parse_amount("+2"), 20000);
    assert_eq!(parse_amount("5."), 50000);
    assert_eq!(parse_amount(".5"), 5000);
    assert_eq!(parse_amount("1.23456"), 12345);
}

#[test]
fn malformed_amounts_parse_to_zero() {
    assert_eq!(parse_amount(""), 0);
    assert_eq!(parse_amount("n/a"), 0);
    assert_eq!(parse_amount("1.2.3"), 0);
    assert_eq!(parse_amount("."), 0);
    assert_eq!(parse_amount("-"), 0);
    assert_eq!(parse_amount("12a"), 0);
}

#[test]
fn amounts_format_like_plain_decimals() {
    assert_eq!(format_amount(1000000), "100");
    assert_eq!(format_amount(1234500), "123.45");
    assert_eq!(format_amount(-75000), "-7.5");
    assert_eq!(format_amount(0), "0");
    assert_eq!(format_amount(125000), "12.5");
    assert_eq!(format_amount(12345), "1.2345");
}

#[test]
fn text_helpers_compare_and_look_up() {
    assert!(str_eq("ACCOUNTED", "ACCOUNTED"));
    assert!(!str_eq("ACCOUNTED", "ALTERNATE"));
    assert!(!str_eq("AB", "ABC"));
    let attrs = vec![
        ("Amount".to_string(), "10.00".to_string()),
        ("Amount".to_string(), "20.00".to_string()),
    ];
    assert_eq!(get_attr(&attrs, "Amount"), "10.00");
    assert_eq!(get_attr(&attrs, "Missing"), "");
}

#[test]
fn chunker_hands_full_units_back() {
    let mut ch = Chunker::new(2);
    assert!(ch.push(row("a")).is_none());
    let unit = ch.push(row("b")).expect("second row fills the unit");
    assert_eq!(unit.len(), 2);
    assert_eq!(unit[0].pnr_no, "a");
    assert_eq!(unit[1].pnr_no, "b");
    assert!(ch.push(row("c")).is_none());
    let rest = ch.finish();
    assert_eq!(rest.len(), 1);
    assert_eq!(rest[0].pnr_no, "c");
}

#[test]
fn three_rows_with_bound_two_make_two_units() {
    let rows = vec![row("1"), row("2"), row("3")];
    let units = plan_units(&rows, 2);
    assert_eq!(units.len(), 2);
    assert_eq!(units[0].len(), 2);
    assert_eq!(units[1].len(), 1);
    assert_eq!(units[0][0].pnr_no, "1");
    assert_eq!(units[0][1].pnr_no, "2");
    assert_eq!(units[1][0].pnr_no, "3");
}

#[test]
fn exact_multiple_leaves_one_final_empty_unit() {
    let rows = vec![row("1"), row("2"), row("3")];
    let units = plan_units(&rows, 3);
    assert_eq!(units.len(), 2);
    assert_eq!(units[0].len(), 3);
    assert_eq!(units[1].len(), 0);
}

#[test]
fn no_rows_still_finalizes_one_empty_unit() {
    let units = plan_units(&Vec::new(), 5);
    assert_eq!(units.len(), 1);
    assert_eq!(units[0].len(), 0);
}
