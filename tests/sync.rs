use channel_mirror::batch::RawDocument;
use channel_mirror::date::Date;
use channel_mirror::json::JsonValue;
use channel_mirror::sync::{Action, ChannelPass, Event, PassReport};
use channel_mirror::watermark::ChannelLatest;
use channel_mirror::ytdlp::YtDlp;

fn document(i: usize) -> RawDocument {
    let s = |v: &str| JsonValue::Str(v.to_string());
    let members = vec![
        ("id".to_string(), s(&format!("video{i}"))),
        ("webpage_url".to_string(), s(&format!("https://example.com/watch?v={i}"))),
        ("channel".to_string(), s("Example")),
        ("title".to_string(), s("t")),
        ("description".to_string(), s("d")),
        ("upload_date".to_string(), s("20230105")),
    ];
    RawDocument { file_name: format!("{i}.info.json"), body: Some(JsonValue::Object(members)) }
}

fn rows() -> Vec<ChannelLatest> {
    vec![ChannelLatest {
        channel_url: "https://example.com/channel".to_string(),
        latest: Some(Date { year: 2022, month: 6, day: 15 }),
    }]
}

#[test]
fn pass_writes_2500_records_in_three_chunks() {
    let y = YtDlp::new("./data");
    let (mut pass, action) = ChannelPass::start(&rows(), "https://example.com/channel", &y);
    assert!(matches!(action, Action::ClearWorkDir));
    match pass.step(Event::Cleared) {
        Action::Fetch(args) => {
            assert_eq!(args[9], "20220615");
            assert_eq!(args[12], "https://example.com/channel");
        }
        other => panic!("unexpected {other:?}"),
    }
    assert!(matches!(pass.step(Event::FetchExited(false)), Action::ReadDocuments));
    let docs: Vec<RawDocument> = (0..2500).map(document).collect();
    assert!(matches!(pass.step(Event::DocumentsRead(docs)), Action::WriteChunk(0, 1000)));
    assert_eq!(pass.batch().valid.len(), 2500);
    assert!(matches!(pass.step(Event::ChunkCommitted), Action::WriteChunk(1000, 2000)));
    assert!(matches!(pass.step(Event::ChunkCommitted), Action::WriteChunk(2000, 2500)));
    match pass.step(Event::ChunkCommitted) {
        Action::Done(report) => assert_eq!(
            report,
            PassReport {
                documents: 2500,
                records: 2500,
                parse_failures: 0,
                chunks_written: 3,
                fetch_failed: true,
                write_failed: false,
            }
        ),
        other => panic!("unexpected {other:?}"),
    }
}

#[test]
fn unknown_channel_is_fetched_from_epoch() {
    let y = YtDlp::new("./data");
    let (mut pass, _) = ChannelPass::start(&rows(), "https://example.com/new", &y);
    match pass.step(Event::Cleared) {
        Action::Fetch(args) => assert_eq!(args[9], "19700101"),
        other => panic!("unexpected {other:?}"),
    }
}

#[test]
fn failed_chunk_ends_the_pass() {
    let y = YtDlp::new("./data");
    let (mut pass, _) = ChannelPass::start(&rows(), "https://example.com/channel", &y);
    pass.step(Event::Cleared);
    pass.step(Event::FetchExited(true));
    let mut docs: Vec<RawDocument> = (0..1500).map(document).collect();
    docs.push(RawDocument { file_name: "broken.info.json".to_string(), body: None });
    assert!(matches!(pass.step(Event::DocumentsRead(docs)), Action::WriteChunk(0, 1000)));
    match pass.step(Event::ChunkFailed) {
        Action::Done(report) => {
            assert_eq!(report.chunks_written, 0);
            assert_eq!(report.documents, 1501);
            assert_eq!(report.records, 1500);
            assert_eq!(report.parse_failures, 1);
            assert!(report.write_failed);
            assert!(!report.fetch_failed);
        }
        other => panic!("unexpected {other:?}"),
    }
    assert!(matches!(pass.step(Event::ChunkCommitted), Action::Unexpected));
}

#[test]
fn empty_fetch_finishes_without_writes() {
    let y = YtDlp::new("./data");
    let (mut pass, _) = ChannelPass::start(&vec![], "https://example.com/channel", &y);
    assert!(matches!(pass.step(Event::FetchExited(true)), Action::Unexpected));
    pass.step(Event::Cleared);
    pass.step(Event::FetchExited(true));
    match pass.step(Event::DocumentsRead(vec![])) {
        Action::Done(report) => {
            assert_eq!(report.documents, 0);
            assert_eq!(report.chunks_written, 0);
            assert!(!report.write_failed);
        }
        other => panic!("unexpected {other:?}"),
    }
}

#[test]
fn reparsing_the_same_documents_gives_the_same_identifiers() {
    let y = YtDlp::new("./data");
    let run = || {
        let (mut pass, _) = ChannelPass::start(&rows(), "https://example.com/channel", &y);
        pass.step(Event::Cleared);
        pass.step(Event::FetchExited(true));
        pass.step(Event::DocumentsRead((0..10).map(document).collect()));
        pass.batch().valid.iter().map(|v| v.id.clone()).collect::<Vec<String>>()
    };
    let first = run();
    let second = run();
    assert_eq!(first, second);
    let mut stored: std::collections::BTreeSet<String> = first.into_iter().collect();
    let before = stored.len();
    let inserted = second.into_iter().filter(|id| stored.insert(id.clone())).count();
    assert_eq!(before, 10);
    assert_eq!(inserted, 0);
}
