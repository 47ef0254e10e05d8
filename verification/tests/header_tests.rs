use ecast::header::{
    derive_columns, get_datapacket, index_label, split_fields, trim_ends, GrpcastServe,
};

#[test]
fn header_mapping_from_full_header() {
    let serve = GrpcastServe::new(Some(Ok(String::from("time,temp,humidity"))));
    let cols = serve.get_column_names();
    assert_eq!(cols.len(), 3);
    assert_eq!(cols.get(&0), Some(&String::from("time")));
    assert_eq!(cols.get(&1), Some(&String::from("temp")));
    assert_eq!(cols.get(&2), Some(&String::from("humidity")));
}

#[test]
fn header_mapping_skips_empty_names() {
    let serve = GrpcastServe::new(Some(Ok(String::from("time,,humidity"))));
    let cols = serve.get_column_names();
    assert_eq!(cols.len(), 2);
    assert_eq!(cols.get(&0), Some(&String::from("time")));
    assert_eq!(cols.get(&1), None);
    assert_eq!(cols.get(&2), Some(&String::from("humidity")));
}

#[test]
fn header_names_are_trimmed() {
    let cols = derive_columns(" time ,\ttemp\t, humidity");
    assert_eq!(cols.len(), 3);
    assert_eq!(cols.get(&0), Some(&String::from("time")));
    assert_eq!(cols.get(&1), Some(&String::from("temp")));
    assert_eq!(cols.get(&2), Some(&String::from("humidity")));
}

#[test]
fn no_header_requested_means_no_columns() {
    let serve = GrpcastServe::new(None);
    assert_eq!(serve.get_column_names().len(), 0);
    assert!(serve.subscribe_csv_gate().is_ok());
}

#[test]
fn packet_uses_names_where_known_and_indices_elsewhere() {
    let cols = derive_columns("time,,humidity");
    let packet = get_datapacket(String::from("12,55,88"), &cols);
    assert_eq!(packet.data.len(), 3);
    assert_eq!(packet.data[0], (String::from("time"), String::from("12")));
    assert_eq!(packet.data[1], (String::from("1"), String::from("55")));
    assert_eq!(packet.data[2], (String::from("humidity"), String::from("88")));
}

#[test]
fn packet_with_no_columns_numbers_every_field() {
    let cols = derive_columns("");
    assert_eq!(cols.len(), 0);
    let packet = get_datapacket(String::from("a,b"), &cols);
    assert_eq!(packet.data.len(), 2);
    assert_eq!(packet.data[0], (String::from("0"), String::from("a")));
    assert_eq!(packet.data[1], (String::from("1"), String::from("b")));
}

#[test]
fn packet_keeps_raw_field_text() {
    let cols = derive_columns("time,temp");
    let packet = get_datapacket(String::from(" 1 ,,x,"), &cols);
    assert_eq!(packet.data.len(), 4);
    assert_eq!(packet.data[0], (String::from("time"), String::from(" 1 ")));
    assert_eq!(packet.data[1], (String::from("temp"), String::from("")));
    assert_eq!(packet.data[2], (String::from("2"), String::from("x")));
    assert_eq!(packet.data[3], (String::from("3"), String::from("")));
}

#[test]
fn captured_failure_surfaces_on_every_shaped_request() {
    let serve = GrpcastServe::new(Some(Err(String::from("source closed before a line arrived"))));
    assert_eq!(serve.get_column_names().len(), 0);
    let first = serve.subscribe_csv_gate();
    assert_eq!(first, Err(String::from("source closed before a line arrived")));
    let second = serve.subscribe_csv_gate();
    assert_eq!(second, Err(String::from("source closed before a line arrived")));
}

#[test]
fn split_fields_keeps_empty_pieces() {
    let fields = split_fields("a,,b,");
    assert_eq!(
        fields,
        vec![String::from("a"), String::from(""), String::from("b"), String::from("")]
    );
    let fields = split_fields("");
    assert_eq!(fields, vec![String::from("")]);
    let fields = split_fields("solo");
    assert_eq!(fields, vec![String::from("solo")]);
}

#[test]
fn trim_ends_strips_only_the_ends() {
    assert_eq!(trim_ends("  a b\t"), String::from("a b"));
    assert_eq!(trim_ends("\r\nx\n"), String::from("x"));
    assert_eq!(trim_ends("   "), String::from(""));
    assert_eq!(trim_ends("plain"), String::from("plain"));
}

#[test]
fn index_label_is_plain_decimal() {
    assert_eq!(index_label(0), String::from("0"));
    assert_eq!(index_label(7), String::from("7"));
    assert_eq!(index_label(10), String::from("10"));
    assert_eq!(index_label(1234), String::from("1234"));
}
