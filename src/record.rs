//! The validated metadata record and its parsing from a document tree.
use vstd::prelude::*;
use crate::date::{Date, ymd_parsed, yt_date_to_date};
use crate::json::{
    JsonValue, opt_view, spec_str, spec_bool, spec_int, spec_number_text, spec_str_list,
    str_field, bool_field, int_field, number_text_field, get_field, string_items,
};

verus! {

/// The metadata of one item. Fields other than the identity, title,
/// description, channel, canonical URL and publish date are optional.
/// `fps` keeps the decimal text of the frame rate as the document wrote it.
#[derive(Debug)]
pub struct VideoInfo {
    pub id: String,
    pub webpage_url: String,
    pub is_live: Option<bool>,
    pub age_limit: Option<i16>,
    pub uploader_id: Option<String>,
    pub channel: String,
    pub channel_follower_count: Option<i64>,
    pub playlist_id: Option<String>,
    pub playlist_title: Option<String>,
    pub playlist_index: Option<i32>,
    pub display_id: Option<String>,
    pub view_count: Option<i64>,
    pub acodec: Option<String>,
    pub fulltitle: Option<String>,
    pub title: String,
    pub description: String,
    pub format: Option<String>,
    pub fps: Option<String>,
    pub tags: Option<String>,
    pub thumbnail: Option<String>,
    pub upload_date: Date,
    pub ext: Option<String>,
    pub duration: Option<i32>,
}

/// A required member of a document.
#[derive(Clone, Copy, Debug, PartialEq, Eq, Structural)]
pub enum Field {
    Id,
    WebpageUrl,
    Channel,
    Title,
    Description,
    UploadDate,
}

/// Why a document yields no record.
#[derive(Clone, Copy, Debug, PartialEq, Eq, Structural)]
pub enum ParseError {
    /// The text is not well-formed JSON.
    NotJson,
    /// The document is not an object.
    NotAnObject,
    /// A required member is absent or not a string.
    Missing(Field),
    /// The publish date does not denote a calendar date.
    BadDate,
}

/// Tag texts joined with single spaces.
pub open spec fn join_spaced(parts: Seq<Seq<char>>) -> Seq<char>
    decreases parts.len(),
{
    if parts.len() == 0 {
        Seq::empty()
    } else if parts.len() == 1 {
        parts[0]
    } else {
        join_spaced(parts.drop_last()) + seq![' '] + parts.last()
    }
}

/// Joins tags with one space between neighbours.
pub fn vec_to_string(tags: &Vec<String>) -> (r: String)
    ensures
        r@ == join_spaced(tags@.map_values(|s: String| s@)),
{
    let mut out = String::new();
    let mut i: usize = 0;
    while i < tags.len()
        invariant
            i <= tags@.len(),
            out@ == join_spaced(tags@.subrange(0, i as int).map_values(|s: String| s@)),
        decreases tags.len() - i,
    {
        let ghost before = tags@.subrange(0, i as int).map_values(|s: String| s@);
        let ghost after = tags@.subrange(0, i + 1).map_values(|s: String| s@);
        assert(after.drop_last() =~= before);
        if i > 0 {
            out.append(" ");
            proof {
                reveal_strlit(" ");
            }
        }
        out.append(tags[i].as_str());
        i = i + 1;
    }
    assert(tags@.subrange(0, tags@.len() as int) =~= tags@);
    out
}

pub open spec fn field_name(f: Field) -> Seq<char> {
    match f {
        Field::Id => "id"@,
        Field::WebpageUrl => "webpage_url"@,
        Field::Channel => "channel"@,
        Field::Title => "title"@,
        Field::Description => "description"@,
        Field::UploadDate => "upload_date"@,
    }
}

/// The first required member (in the order of `Field`) that is absent.
pub open spec fn first_missing(m: Seq<(String, JsonValue)>) -> Option<Field> {
    if spec_str(m, "id"@) is None {
        Some(Field::Id)
    } else if spec_str(m, "webpage_url"@) is None {
        Some(Field::WebpageUrl)
    } else if spec_str(m, "channel"@) is None {
        Some(Field::Channel)
    } else if spec_str(m, "title"@) is None {
        Some(Field::Title)
    } else if spec_str(m, "description"@) is None {
        Some(Field::Description)
    } else if spec_str(m, "upload_date"@) is None {
        Some(Field::UploadDate)
    } else {
        None
    }
}

/// Why `doc` yields no record, or `None` where it yields one.
pub open spec fn parse_error_of(doc: JsonValue) -> Option<ParseError> {
    match doc {
        JsonValue::Object(m) => match first_missing(m@) {
            Some(f) => Some(ParseError::Missing(f)),
            None => if ymd_parsed(spec_str(m@, "upload_date"@).unwrap()) is None {
                Some(ParseError::BadDate)
            } else {
                None
            },
        },
        _ => Some(ParseError::NotAnObject),
    }
}

pub open spec fn opt_int<T>(o: Option<T>, v: spec_fn(T) -> int) -> Option<int> {
    match o {
        Some(x) => Some(v(x)),
        None => None,
    }
}

/// `v` is the record that the members `m` describe: required members are
/// copied, optional ones are absent unless present with the right kind
/// (and, for integers, within the field's range), and the tag list is
/// joined with single spaces.
pub open spec fn describes(m: Seq<(String, JsonValue)>, v: VideoInfo) -> bool {
    &&& Some(v.id@) == spec_str(m, "id"@)
    &&& Some(v.webpage_url@) == spec_str(m, "webpage_url"@)
    &&& Some(v.channel@) == spec_str(m, "channel"@)
    &&& Some(v.title@) == spec_str(m, "title"@)
    &&& Some(v.description@) == spec_str(m, "description"@)
    &&& ymd_parsed(spec_str(m, "upload_date"@).unwrap()) == Some(v.upload_date.fields())
    &&& v.upload_date.representable()
    &&& v.is_live == spec_bool(m, "is_live"@)
    &&& opt_int(v.age_limit, |x: i16| x as int) == spec_int(m, "age_limit"@, i16::MIN as int, i16::MAX as int)
    &&& opt_view(v.uploader_id) == spec_str(m, "uploader_id"@)
    &&& opt_int(v.channel_follower_count, |x: i64| x as int) == spec_int(m, "channel_follower_count"@, i64::MIN as int, i64::MAX as int)
    &&& opt_view(v.playlist_id) == spec_str(m, "playlist_id"@)
    &&& opt_view(v.playlist_title) == spec_str(m, "playlist_title"@)
    &&& opt_int(v.playlist_index, |x: i32| x as int) == spec_int(m, "playlist_index"@, i32::MIN as int, i32::MAX as int)
    &&& opt_view(v.display_id) == spec_str(m, "display_id"@)
    &&& opt_int(v.view_count, |x: i64| x as int) == spec_int(m, "view_count"@, i64::MIN as int, i64::MAX as int)
    &&& opt_view(v.acodec) == spec_str(m, "acodec"@)
    &&& opt_view(v.fulltitle) == spec_str(m, "fulltitle"@)
    &&& opt_view(v.format) == spec_str(m, "format"@)
    &&& opt_view(v.fps) == spec_number_text(m, "fps"@)
    &&& opt_view(v.tags) == (match spec_str_list(m, "tags"@) {
        Some(parts) => Some(join_spaced(parts)),
        None => None,
    })
    &&& opt_view(v.thumbnail) == spec_str(m, "thumbnail"@)
    &&& opt_view(v.ext) == spec_str(m, "ext"@)
    &&& opt_int(v.duration, |x: i32| x as int) == spec_int(m, "duration"@, i32::MIN as int, i32::MAX as int)
}

fn tags_field(m: &Vec<(String, JsonValue)>) -> (r: Option<String>)
    ensures
        opt_view(r) == (match spec_str_list(m@, "tags"@) {
            Some(parts) => Some(join_spaced(parts)),
            None => None,
        }),
{
    match get_field(m, "tags") {
        Some(JsonValue::Array(items)) => match string_items(items) {
            Some(v) => Some(vec_to_string(&v)),
            None => None,
        },
        _ => None,
    }
}

fn required(m: &Vec<(String, JsonValue)>, key: &str, f: Field) -> (r: Result<String, ParseError>)
    ensures
        match r {
            Ok(s) => spec_str(m@, key@) == Some(s@),
            Err(e) => spec_str(m@, key@) is None && e == ParseError::Missing(f),
        },
{
    match str_field(m, key) {
        Some(s) => Ok(s),
        None => Err(ParseError::Missing(f)),
    }
}

/// Builds the record a document describes. Only the required members can
/// make it fail; optional ones that are absent or of the wrong kind are
/// left out.
pub fn parse_video_info(doc: &JsonValue) -> (r: Result<VideoInfo, ParseError>)
    ensures
        r is Ok <==> parse_error_of(*doc) is None,
        r matches Err(e) ==> parse_error_of(*doc) == Some(e),
        r matches Ok(v) ==> (match *doc {
            JsonValue::Object(m) => describes(m@, v),
            _ => false,
        }),
{
    let m = match doc {
        JsonValue::Object(m) => m,
        _ => {
            return Err(ParseError::NotAnObject);
        },
    };
    let id = required(m, "id", Field::Id)?;
    let webpage_url = required(m, "webpage_url", Field::WebpageUrl)?;
    let channel = required(m, "channel", Field::Channel)?;
    let title = required(m, "title", Field::Title)?;
    let description = required(m, "description", Field::Description)?;
    let date_text = required(m, "upload_date", Field::UploadDate)?;
    let upload_date = match yt_date_to_date(date_text.as_str()) {
        Some(d) => d,
        None => {
            return Err(ParseError::BadDate);
        },
    };
    let age_limit = match int_field(m, "age_limit", -32768, 32767) {
        Some(x) => Some(x as i16),
        None => None,
    };
    let playlist_index = match int_field(m, "playlist_index", -2147483648, 2147483647) {
        Some(x) => Some(x as i32),
        None => None,
    };
    let duration = match int_field(m, "duration", -2147483648, 2147483647) {
        Some(x) => Some(x as i32),
        None => None,
    };
    let v = VideoInfo {
        id,
        webpage_url,
        is_live: bool_field(m, "is_live"),
        age_limit,
        uploader_id: str_field(m, "uploader_id"),
        channel,
        channel_follower_count: int_field(m, "channel_follower_count", i64::MIN, i64::MAX),
        playlist_id: str_field(m, "playlist_id"),
        playlist_title: str_field(m, "playlist_title"),
        playlist_index,
        display_id: str_field(m, "display_id"),
        view_count: int_field(m, "view_count", i64::MIN, i64::MAX),
        acodec: str_field(m, "acodec"),
        fulltitle: str_field(m, "fulltitle"),
        title,
        description,
        format: str_field(m, "format"),
        fps: number_text_field(m, "fps"),
        tags: tags_field(m),
        thumbnail: str_field(m, "thumbnail"),
        upload_date,
        ext: str_field(m, "ext"),
        duration,
    };
    Ok(v)
}

} // verus!
