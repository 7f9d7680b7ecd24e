use roblox_api::json::{parse, Json, JsonMember};
use roblox_api::text::{decimal_string, parse_u64, push_decimal};
use roblox_api::wire::{
    bool_name, copy_bytes, limit_or, order_or_default, push_bool, push_decimal_list,
    push_json_numbers, push_json_strings, push_optional_number, push_prefixed, push_quoted,
    push_signed, push_wrapped,
};
use roblox_api::{AssetTypeId, Currency, DateTime, SortOrder, Ymd};

#[test]
fn decimal_writes_numbers_without_leading_zeros() {
    assert_eq!(decimal_string(0), "0");
    assert_eq!(decimal_string(7), "7");
    assert_eq!(decimal_string(10), "10");
    assert_eq!(decimal_string(1234567890), "1234567890");
    assert_eq!(decimal_string(u64::MAX), "18446744073709551615");
    let mut out = String::from("n=");
    push_decimal(&mut out, 405);
    assert_eq!(out, "n=405");
}

#[test]
fn signed_numbers_carry_their_sign() {
    let mut out = String::new();
    push_signed(&mut out, -44);
    out.push(' ');
    push_signed(&mut out, 0);
    out.push(' ');
    push_signed(&mut out, i32::MIN);
    out.push(' ');
    push_signed(&mut out, i32::MAX);
    assert_eq!(out, "-44 0 -2147483648 2147483647");
}

#[test]
fn lists_are_joined() {
    let mut out = String::from("[");
    push_decimal_list(&mut out, &[1, 2, 3], ", ");
    out.push(']');
    assert_eq!(out, "[1, 2, 3]");
    let mut out = String::new();
    push_decimal_list(&mut out, &[], ",");
    push_decimal_list(&mut out, &[9], ",");
    assert_eq!(out, "9");
    let mut out = String::new();
    push_json_numbers(&mut out, &[]);
    push_json_numbers(&mut out, &[0, 18446744073709551615]);
    assert_eq!(out, "[][0,18446744073709551615]");
    let mut out = String::new();
    push_json_strings(&mut out, &[]);
    push_json_strings(&mut out, &["a", "\"", "\u{1}"]);
    assert_eq!(out, r#"[]["a","\"","\u0001"]"#);
    let mut out = String::new();
    push_wrapped(&mut out, &["x", "y"], "<", ">");
    assert_eq!(out, r#"<"x">,<"y">"#);
}

#[test]
fn small_pieces_of_text() {
    let mut out = String::new();
    push_quoted(&mut out, "tab\there \\ \u{e9}");
    assert_eq!(out, "\"tab\\there \\\\ \u{e9}\"");
    let mut out = String::new();
    push_bool(&mut out, true);
    push_bool(&mut out, false);
    assert_eq!(out, "truefalse");
    assert_eq!(bool_name(true), "true");
    assert_eq!(bool_name(false), "false");
    let mut out = String::from("a");
    push_prefixed(&mut out, "&c=", None);
    push_prefixed(&mut out, "&c=", Some("x"));
    assert_eq!(out, "a&c=x");
    let mut out = String::new();
    push_optional_number(&mut out, None);
    push_optional_number(&mut out, Some(5));
    assert_eq!(out, "null5");
    assert_eq!(limit_or(None, 18), 18);
    assert_eq!(limit_or(Some(0), 18), 0);
    assert_eq!(order_or_default(None), SortOrder::Ascending);
    assert_eq!(order_or_default(Some(SortOrder::Descending)), SortOrder::Descending);
    assert_eq!(copy_bytes(&[1, 2, 3]), vec![1, 2, 3]);
    assert_eq!(SortOrder::Descending.name(), "Descending");
    assert_eq!(SortOrder::default().name(), "Ascending");
}

#[test]
fn asset_types_have_their_numbers() {
    assert_eq!(AssetTypeId::Image.id(), 1);
    assert_eq!(AssetTypeId::Hat.id(), 8);
    assert_eq!(AssetTypeId::DynamicHead.id(), 79);
    assert_eq!(AssetTypeId::from_repr(10), Some(AssetTypeId::Model));
    assert_eq!(AssetTypeId::from_repr(61), Some(AssetTypeId::EmoteAnimation));
    assert_eq!(AssetTypeId::from_repr(0), None);
    assert_eq!(AssetTypeId::from_repr(6), None);
    assert_eq!(AssetTypeId::from_repr(80), None);
    for n in 0..=255u8 {
        if let Some(t) = AssetTypeId::from_repr(n) {
            assert_eq!(t.id(), n);
        }
    }
    assert_eq!(AssetTypeId::YouTubeVideo.name(), "YouTubeVideo");
    assert_eq!(Currency::default(), Currency::Robux);
    assert_eq!(Currency::Tickets.id(), 2);
    assert_eq!(Currency::from_repr(1), Some(Currency::Robux));
    assert_eq!(Currency::from_repr(3), None);
    assert_eq!(Currency::Robux.name(), "Robux");
}

#[test]
fn a_date_is_written_as_midnight_and_read_back() {
    let date = DateTime::from_ymd(2000, 1, 2);
    assert_eq!(date.to_string(), "2000-01-02T00:00:00+00:00");
    assert_eq!(date.year(), 2000);
    assert_eq!(date.month(), 1);
    assert_eq!(date.day(), 2);
    assert_eq!(date.ymd(), Some(Ymd { year: 2000, month: 1, day: 2 }));
    assert_eq!(DateTime::try_from_ymd(2024, 2, 29), Some(DateTime::from_ymd(2024, 2, 29)));
}

#[test]
fn days_that_the_calendar_lacks_give_no_date() {
    assert_eq!(DateTime::try_from_ymd(2023, 2, 29), None);
    assert_eq!(DateTime::try_from_ymd(2023, 13, 1), None);
    assert_eq!(DateTime::try_from_ymd(2023, 0, 1), None);
    assert_eq!(DateTime::try_from_ymd(2023, 4, 31), None);
    assert_eq!(DateTime::try_from_ymd(2023, 4, 0), None);
    assert_eq!(DateTime::try_from_ymd(i32::MAX, 1, 1), None);
}

#[test]
fn a_date_from_the_server_is_read_in_its_own_zone() {
    let date = DateTime("2006-02-27T21:06:40.3Z".to_string());
    assert_eq!(date.ymd(), Some(Ymd { year: 2006, month: 2, day: 27 }));
    let date = DateTime("2020-12-31T23:30:00-05:00".to_string());
    assert_eq!(date.day(), 31);
    assert_eq!(date.month(), 12);
    assert_eq!(date.year(), 2020);
    assert_eq!(DateTime("2020-12-31".to_string()).ymd(), None);
    assert_eq!(DateTime(String::new()).ymd(), None);
}

#[test]
fn json_is_read_into_a_document() {
    let doc = parse(br#" {"b":[1,-2.5,"x",null,true],"a":{"k":"v"}} "#).unwrap();
    assert_eq!(
        doc,
        Json::Object(vec![
            JsonMember {
                name: "a".to_string(),
                value: Json::Object(vec![JsonMember {
                    name: "k".to_string(),
                    value: Json::Text("v".to_string()),
                }]),
            },
            JsonMember {
                name: "b".to_string(),
                value: Json::Array(vec![
                    Json::Number("1".to_string()),
                    Json::Number("-2.5".to_string()),
                    Json::Text("x".to_string()),
                    Json::Null,
                    Json::Bool(true),
                ]),
            },
        ])
    );
    assert_eq!(parse(b""), None);
    assert_eq!(parse(b"{"), None);
    assert_eq!(parse(b"{} {}"), None);
    assert_eq!(parse(&[0xff]), None);
    assert_eq!(parse(b"\"\\u00e9\""), Some(Json::Text("\u{e9}".to_string())));
}

#[test]
fn a_document_answers_by_key() {
    let doc = Json::Object(vec![
        JsonMember { name: "a".to_string(), value: Json::Text("first".to_string()) },
        JsonMember { name: "b".to_string(), value: Json::Bool(false) },
        JsonMember { name: "a".to_string(), value: Json::Text("second".to_string()) },
        JsonMember { name: "c".to_string(), value: Json::Array(vec![Json::Null]) },
    ]);
    assert_eq!(doc.member("a"), Some(&Json::Text("first".to_string())));
    assert_eq!(doc.member("d"), None);
    assert_eq!(doc.text_member("a"), Some("first"));
    assert_eq!(doc.text_member("b"), None);
    assert_eq!(doc.flag_member("b"), Some(false));
    assert_eq!(doc.flag_member("a"), None);
    assert_eq!(doc.member("c").and_then(|c| c.as_items()), Some(&vec![Json::Null]));
    assert_eq!(doc.as_items(), None);
    assert_eq!(doc.as_text(), None);
    assert_eq!(Json::Null.member("a"), None);
    assert_eq!(Json::Bool(true).as_flag(), Some(true));
    assert_eq!(Json::Text("t".to_string()).as_text(), Some("t"));
}

#[test]
fn numbers_are_read_as_the_standard_library_reads_them() {
    let texts = [
        "0",
        "7",
        "+7",
        "007",
        "18446744073709551615",
        "18446744073709551616",
        "99999999999999999999999",
        "",
        "+",
        "++1",
        "-1",
        "-0",
        " 1",
        "1 ",
        "1_000",
        "12a",
        "a12",
        "1.5",
        "\u{664}",
        "1\u{e9}",
        "+\u{e9}",
    ];
    for text in texts {
        assert_eq!(parse_u64(text), text.parse::<u64>().ok());
    }
    assert_eq!(parse_u64("+18446744073709551615"), Some(u64::MAX));
    assert_eq!(parse_u64("00000000000000000000000000000001"), Some(1));
}

#[test]
fn a_number_written_in_decimal_is_read_back() {
    for n in [0, 1, 9, 10, 11, 99, 100, 4711, u64::MAX - 1, u64::MAX] {
        assert_eq!(parse_u64(&decimal_string(n)), Some(n));
    }
}
