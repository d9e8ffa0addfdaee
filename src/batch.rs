//! Parsing every document of one fetch independently, and partitioning the
//! outcomes into records and per-file diagnostics.
use vstd::prelude::*;
use crate::json::JsonValue;
use crate::json::spec_str;
use crate::date::ymd_parsed;
use crate::record::{VideoInfo, ParseError, Field, parse_error_of, describes, parse_video_info};

verus! {

/// One document left by the fetcher: its file name and its tree, or `None`
/// where the text is not well-formed JSON.
#[derive(Debug)]
pub struct RawDocument {
    pub file_name: String,
    pub body: Option<JsonValue>,
}

/// A document that yielded no record, and why.
#[derive(Debug)]
pub struct Failure {
    pub file_name: String,
    pub error: ParseError,
}

/// The records of one fetch, the diagnostics of the documents that failed,
/// and how many documents were seen.
#[derive(Debug)]
pub struct ParsedBatch {
    pub valid: Vec<VideoInfo>,
    pub failures: Vec<Failure>,
    pub total: usize,
}

/// Why a document yields no record, or `None` where it yields one.
pub open spec fn doc_error(d: RawDocument) -> Option<ParseError> {
    match d.body {
        Some(v) => parse_error_of(v),
        None => Some(ParseError::NotJson),
    }
}

pub open spec fn doc_ok(d: RawDocument) -> bool {
    doc_error(d) is None
}

/// `v` is the record that document `d` describes.
pub open spec fn yields(d: RawDocument, v: VideoInfo) -> bool {
    match d.body {
        Some(JsonValue::Object(m)) => describes(m@, v),
        _ => false,
    }
}

/// The documents that yield a record, in their order.
pub open spec fn good_docs(s: Seq<RawDocument>) -> Seq<RawDocument> {
    s.filter(|d: RawDocument| doc_ok(d))
}

/// The documents that yield none, in their order.
pub open spec fn bad_docs(s: Seq<RawDocument>) -> Seq<RawDocument> {
    s.filter(|d: RawDocument| !doc_ok(d))
}

/// `b` is the outcome of parsing `docs`: it counts them, holds the record
/// of each good one and the file name and error of each bad one, in the
/// order of the documents.
pub open spec fn parsed_from(b: ParsedBatch, docs: Seq<RawDocument>) -> bool {
    &&& b.total == docs.len()
    &&& b.valid@.len() == good_docs(docs).len()
    &&& b.failures@.len() == bad_docs(docs).len()
    &&& b.valid@.len() + b.failures@.len() == docs.len()
    &&& forall|k: int| 0 <= k < b.valid@.len() ==> yields(good_docs(docs)[k], #[trigger] b.valid@[k])
    &&& forall|k: int|
        0 <= k < b.failures@.len() ==> {
            &&& (#[trigger] b.failures@[k]).file_name@ == bad_docs(docs)[k].file_name@
            &&& doc_error(bad_docs(docs)[k]) == Some(b.failures@[k].error)
        }
}

/// Parses one document.
pub fn parse_document(d: &RawDocument) -> (r: Result<VideoInfo, ParseError>)
    ensures
        r is Ok <==> doc_ok(*d),
        r matches Err(e) ==> doc_error(*d) == Some(e),
        r matches Ok(v) ==> yields(*d, v),
{
    match &d.body {
        Some(v) => parse_video_info(v),
        None => Err(ParseError::NotJson),
    }
}

/// Parses each document on its own: a failure is recorded with its file
/// name and never stops the others. Records and failures keep the order of
/// the documents.
pub fn parse_batch(docs: &Vec<RawDocument>) -> (r: ParsedBatch)
    ensures
        parsed_from(r, docs@),
{
    let mut valid: Vec<VideoInfo> = Vec::new();
    let mut failures: Vec<Failure> = Vec::new();
    let mut i: usize = 0;
    while i < docs.len()
        invariant
            i <= docs@.len(),
            valid@.len() == good_docs(docs@.subrange(0, i as int)).len(),
            failures@.len() == bad_docs(docs@.subrange(0, i as int)).len(),
            valid@.len() + failures@.len() == i,
            forall|k: int|
                0 <= k < valid@.len() ==> yields(
                    good_docs(docs@.subrange(0, i as int))[k],
                    #[trigger] valid@[k],
                ),
            forall|k: int|
                0 <= k < failures@.len() ==> {
                    &&& (#[trigger] failures@[k]).file_name@ == bad_docs(
                        docs@.subrange(0, i as int),
                    )[k].file_name@
                    &&& doc_error(bad_docs(docs@.subrange(0, i as int))[k]) == Some(
                        failures@[k].error,
                    )
                },
        decreases docs.len() - i,
    {
        let ghost prev = docs@.subrange(0, i as int);
        let ghost next = docs@.subrange(0, i + 1);
        proof {
            assert(next.drop_last() =~= prev);
            reveal(Seq::filter);
        }
        match parse_document(&docs[i]) {
            Ok(v) => {
                assert(good_docs(next) == good_docs(prev).push(docs@[i as int]));
                assert(bad_docs(next) == bad_docs(prev));
                valid.push(v);
            },
            Err(e) => {
                assert(good_docs(next) == good_docs(prev));
                assert(bad_docs(next) == bad_docs(prev).push(docs@[i as int]));
                failures.push(Failure { file_name: docs[i].file_name.clone(), error: e });
            },
        }
        i = i + 1;
    }
    assert(docs@.subrange(0, docs@.len() as int) =~= docs@);
    ParsedBatch { valid, failures, total: docs.len() }
}

/// A failing document costs the batch nothing but itself: of `N`
/// documents of which `K` fail, `N - K` yield records and `K` are reported;
/// a document without an `id` or with an unparsable `upload_date` is among
/// the `K`, and one that is not well-formed JSON too.
pub proof fn failures_are_isolated(docs: Seq<RawDocument>)
    ensures
        good_docs(docs).len() + bad_docs(docs).len() == docs.len(),
        forall|d: RawDocument|
            #![trigger doc_error(d)]
            (d.body matches Some(JsonValue::Object(m)) && spec_str(m@, "id"@) is None) ==> doc_error(
                d,
            ) == Some(ParseError::Missing(Field::Id)),
        forall|d: RawDocument|
            #![trigger doc_error(d)]
            doc_error(d) is None ==> (match d.body {
                Some(JsonValue::Object(m)) => ymd_parsed(spec_str(m@, "upload_date"@).unwrap()) is Some,
                _ => false,
            }),
        forall|d: RawDocument| #![trigger doc_error(d)] d.body is None ==> !doc_ok(d),
    decreases docs.len(),
{
    reveal(Seq::filter);
    if docs.len() > 0 {
        failures_are_isolated(docs.drop_last());
    }
}

} // verus!
