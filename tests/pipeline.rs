use channel_mirror::batch::{parse_batch, parse_document, RawDocument};
use channel_mirror::channels::{channel_list, is_channel};
use channel_mirror::date::{date_to_yt_date, epoch, yt_date_to_date, Date};
use channel_mirror::json::{get_field, JsonNumber, JsonValue};
use channel_mirror::record::{parse_video_info, vec_to_string, Field, ParseError};
use channel_mirror::watermark::{resolve_watermark, ChannelLatest};
use channel_mirror::writer::{chunk_ranges, CHUNK_SIZE};
use channel_mirror::ytdlp::YtDlp;

fn s(v: &str) -> JsonValue {
    JsonValue::Str(v.to_string())
}

fn num(i: i64) -> JsonValue {
    JsonValue::Number(JsonNumber { text: i.to_string(), int: Some(i) })
}

fn doc(members: Vec<(&str, JsonValue)>) -> JsonValue {
    JsonValue::Object(members.into_iter().map(|(k, v)| (k.to_string(), v)).collect())
}

fn required(id: &str, date: &str) -> Vec<(&'static str, JsonValue)> {
    vec![
        ("id", s(id)),
        ("webpage_url", s("https://example.com/watch?v=x")),
        ("channel", s("Example")),
        ("title", s("A title")),
        ("description", s("A description")),
        ("upload_date", s(date)),
    ]
}

fn raw(name: &str, body: Option<JsonValue>) -> RawDocument {
    RawDocument { file_name: name.to_string(), body }
}

fn ymd(year: i32, month: u32, day: u32) -> Date {
    Date { year, month, day }
}

#[test]
fn tag_list_flattens_with_single_spaces() {
    let tags = vec!["a".to_string(), "b".to_string(), "c".to_string()];
    assert_eq!(vec_to_string(&tags), "a b c");
    assert_eq!(vec_to_string(&vec![]), "");
    assert_eq!(vec_to_string(&vec!["only".to_string()]), "only");
}

#[test]
fn tag_list_flattens_during_parse() {
    let mut m = required("v1", "20220615");
    m.push(("tags", JsonValue::Array(vec![s("a"), s("b"), s("c")])));
    let v = parse_video_info(&doc(m)).unwrap();
    assert_eq!(v.tags.as_deref(), Some("a b c"));
}

#[test]
fn tag_list_with_a_non_string_is_absent() {
    let mut m = required("v1", "20220615");
    m.push(("tags", JsonValue::Array(vec![s("a"), num(3)])));
    let v = parse_video_info(&doc(m)).unwrap();
    assert_eq!(v.tags, None);
}

#[test]
fn invalid_calendar_date_is_a_parse_failure() {
    assert_eq!(yt_date_to_date("20230230"), None);
    let docs = vec![raw("bad.info.json", Some(doc(required("v1", "20230230"))))];
    let batch = parse_batch(&docs);
    assert_eq!(batch.valid.len(), 0);
    assert_eq!(batch.failures.len(), 1);
    assert_eq!(batch.failures[0].file_name, "bad.info.json");
    assert_eq!(batch.failures[0].error, ParseError::BadDate);
}

#[test]
fn compact_dates_parse() {
    assert_eq!(yt_date_to_date("20220615"), Some(ymd(2022, 6, 15)));
    assert_eq!(yt_date_to_date("20240229"), Some(ymd(2024, 2, 29)));
    assert_eq!(yt_date_to_date("20230229"), None);
    assert_eq!(yt_date_to_date("20231301"), None);
    assert_eq!(yt_date_to_date("2023-01-01"), None);
    assert_eq!(yt_date_to_date(""), None);
}

#[test]
fn compact_dates_format() {
    assert_eq!(date_to_yt_date(&epoch()), "19700101");
    assert_eq!(date_to_yt_date(&ymd(812, 3, 9)), "08120309");
}

#[test]
fn partial_failures_are_isolated() {
    let mut no_id = required("x", "20220101");
    no_id.remove(0);
    let docs = vec![
        raw("a.info.json", Some(doc(required("a", "20220101")))),
        raw("b.info.json", Some(doc(no_id))),
        raw("c.info.json", Some(doc(required("c", "20220102")))),
        raw("d.info.json", Some(doc(required("d", "2022010")))),
        raw("e.info.json", None),
        raw("f.info.json", Some(doc(required("f", "20220103")))),
    ];
    let batch = parse_batch(&docs);
    assert_eq!(batch.total, 6);
    let ids: Vec<&str> = batch.valid.iter().map(|v| v.id.as_str()).collect();
    assert_eq!(ids, vec!["a", "c", "f"]);
    let failed: Vec<(&str, ParseError)> =
        batch.failures.iter().map(|f| (f.file_name.as_str(), f.error)).collect();
    assert_eq!(
        failed,
        vec![
            ("b.info.json", ParseError::Missing(Field::Id)),
            ("d.info.json", ParseError::BadDate),
            ("e.info.json", ParseError::NotJson),
        ]
    );
}

#[test]
fn empty_batch_has_nothing() {
    let batch = parse_batch(&vec![]);
    assert_eq!(batch.total, 0);
    assert!(batch.valid.is_empty());
    assert!(batch.failures.is_empty());
}

#[test]
fn required_fields_are_checked_in_order() {
    assert_eq!(parse_video_info(&s("text")).unwrap_err(), ParseError::NotAnObject);
    let mut m = required("v", "20220101");
    m.retain(|(k, _)| *k != "title");
    assert_eq!(parse_video_info(&doc(m)).unwrap_err(), ParseError::Missing(Field::Title));
    let mut m = required("v", "20220101");
    m[5] = ("upload_date", num(20220101));
    assert_eq!(parse_video_info(&doc(m)).unwrap_err(), ParseError::Missing(Field::UploadDate));
    let mut m = required("v", "20220101");
    m[1] = ("webpage_url", JsonValue::Null);
    assert_eq!(parse_video_info(&doc(m)).unwrap_err(), ParseError::Missing(Field::WebpageUrl));
}

#[test]
fn record_copies_fields() {
    let mut m = required("v9", "20210101");
    m.push(("is_live", JsonValue::Bool(false)));
    m.push(("age_limit", num(18)));
    m.push(("view_count", num(12345)));
    m.push(("duration", num(61)));
    m.push(("fps", JsonValue::Number(JsonNumber { text: "29.97".to_string(), int: None })));
    m.push(("ext", s("webm")));
    let v = parse_document(&raw("v9.info.json", Some(doc(m)))).unwrap();
    assert_eq!(v.id, "v9");
    assert_eq!(v.webpage_url, "https://example.com/watch?v=x");
    assert_eq!(v.channel, "Example");
    assert_eq!(v.title, "A title");
    assert_eq!(v.description, "A description");
    assert_eq!(v.upload_date, ymd(2021, 1, 1));
    assert_eq!(v.is_live, Some(false));
    assert_eq!(v.age_limit, Some(18));
    assert_eq!(v.view_count, Some(12345));
    assert_eq!(v.duration, Some(61));
    assert_eq!(v.fps.as_deref(), Some("29.97"));
    assert_eq!(v.ext.as_deref(), Some("webm"));
    assert_eq!(v.thumbnail, None);
    assert_eq!(v.tags, None);
    assert_eq!(v.playlist_index, None);
}

#[test]
fn malformed_optional_fields_are_absent() {
    let mut m = required("v", "20220101");
    m.push(("is_live", s("yes")));
    m.push(("age_limit", num(40000)));
    m.push(("duration", JsonValue::Number(JsonNumber { text: "12.5".to_string(), int: None })));
    m.push(("thumbnail", num(1)));
    let v = parse_video_info(&doc(m)).unwrap();
    assert_eq!(v.is_live, None);
    assert_eq!(v.age_limit, None);
    assert_eq!(v.duration, None);
    assert_eq!(v.thumbnail, None);
}

#[test]
fn first_member_of_a_name_wins() {
    let fields = vec![("k".to_string(), num(1)), ("k".to_string(), num(2))];
    match get_field(&fields, "k") {
        Some(JsonValue::Number(n)) => assert_eq!(n.int, Some(1)),
        _ => panic!("member not found"),
    }
    assert!(get_field(&fields, "x").is_none());
}

#[test]
fn watermark_of_unknown_channel_is_epoch() {
    let rows = vec![ChannelLatest {
        channel_url: "https://example.com/other".to_string(),
        latest: Some(ymd(2020, 5, 5)),
    }];
    assert_eq!(resolve_watermark(&rows, "https://example.com/channel"), ymd(1970, 1, 1));
    assert_eq!(resolve_watermark(&vec![], "https://example.com/channel"), ymd(1970, 1, 1));
}

#[test]
fn watermark_is_latest_stored_date() {
    let rows = vec![
        ChannelLatest { channel_url: "https://example.com/a".to_string(), latest: Some(ymd(2021, 1, 1)) },
        ChannelLatest {
            channel_url: "https://example.com/channel".to_string(),
            latest: Some(ymd(2022, 6, 15)),
        },
    ];
    assert_eq!(resolve_watermark(&rows, "https://example.com/channel"), ymd(2022, 6, 15));
    assert!(ymd(2022, 6, 15).is_after(&ymd(2021, 1, 1)));
    assert!(!ymd(2021, 1, 1).is_after(&ymd(2022, 6, 15)));
    assert!(!ymd(2021, 1, 1).is_after(&ymd(2021, 1, 1)));
}

#[test]
fn chunks_of_2500_records() {
    assert_eq!(CHUNK_SIZE, 1000);
    let r = chunk_ranges(2500, CHUNK_SIZE);
    assert_eq!(r, vec![(0, 1000), (1000, 2000), (2000, 2500)]);
    let sizes: Vec<usize> = r.iter().map(|(a, b)| b - a).collect();
    assert_eq!(sizes, vec![1000, 1000, 500]);
    assert_eq!(sizes.iter().sum::<usize>(), 2500);
}

#[test]
fn chunk_edges() {
    assert_eq!(chunk_ranges(0, CHUNK_SIZE), vec![]);
    assert_eq!(chunk_ranges(1000, CHUNK_SIZE), vec![(0, 1000)]);
    assert_eq!(chunk_ranges(1001, CHUNK_SIZE), vec![(0, 1000), (1000, 1001)]);
    assert_eq!(chunk_ranges(3, 1), vec![(0, 1), (1, 2), (2, 3)]);
}

#[test]
fn comments_and_blank_lines_are_skipped() {
    let list = channel_list("# comment\n\nhttps://example.com/channel");
    assert_eq!(list, vec!["https://example.com/channel".to_string()]);
    let list = channel_list("  # indented comment\n   \r\nhttps://a.example\nhttps://b.example\n");
    assert_eq!(list, vec!["https://a.example".to_string(), "https://b.example".to_string()]);
    assert!(!is_channel("   "));
    assert!(is_channel(" x#"));
}

#[test]
fn fetcher_arguments() {
    let y = YtDlp::new("./data");
    let args = y.download_args("https://example.com/channel", &ymd(2022, 6, 15));
    assert_eq!(args.len(), 13);
    assert_eq!(args[8], "--dateafter");
    assert_eq!(args[9], "20220615");
    assert_eq!(args[10], "--paths");
    assert_eq!(args[11], "./data");
    assert_eq!(args[12], "https://example.com/channel");
}
