//! The external metadata fetcher's invocation.
use vstd::prelude::*;
use crate::date::{Date, ymd_formatted, is_compact, compact_fields, date_to_yt_date};

verus! {

/// The fetcher, writing its documents into the directory `output`.
#[derive(Clone, Copy)]
pub struct YtDlp<'a> {
    output: &'a str,
}

/// `a` are the arguments that make fetcher `f` write the metadata (and no
/// media) of every item of `url` published after `after` into its output
/// directory, going on past items that fail.
pub open spec fn fetch_args_for(a: Seq<String>, f: YtDlp, url: Seq<char>, after: Date) -> bool {
    &&& a.len() == 13
    &&& a[0]@ == "--ignore-errors"@
    &&& a[1]@ == "--write-info-json"@
    &&& a[2]@ == "--no-write-playlist-metafiles"@
    &&& a[3]@ == "--compat-options"@
    &&& a[4]@ == "no-playlist-metafiles"@
    &&& a[5]@ == "--skip-download"@
    &&& a[6]@ == "--progress"@
    &&& a[7]@ == "--quiet"@
    &&& a[8]@ == "--dateafter"@
    &&& a[9]@ == ymd_formatted(after.year as int, after.month as int, after.day as int)
    &&& (0 <= after.year <= 9999 ==> is_compact(a[9]@) && compact_fields(a[9]@) == after.fields())
    &&& a[10]@ == "--paths"@
    &&& a[11]@ == f.output_dir()
    &&& a[12]@ == url
}

impl<'a> YtDlp<'a> {
    /// The directory the fetcher writes into.
    pub closed spec fn output_dir(&self) -> Seq<char> {
        self.output@
    }

    pub fn new(output: &'a str) -> (r: Self)
        ensures
            r.output_dir() == output@,
    {
        Self { output }
    }

    /// The fetcher's arguments for the items of `url` published after `after`.
    pub fn download_args(&self, url: &str, after: &Date) -> (r: Vec<String>)
        requires
            after.representable(),
        ensures
            fetch_args_for(r@, *self, url@, *after),
    {
        let mut r: Vec<String> = Vec::new();
        r.push(String::from_str("--ignore-errors"));
        r.push(String::from_str("--write-info-json"));
        r.push(String::from_str("--no-write-playlist-metafiles"));
        r.push(String::from_str("--compat-options"));
        r.push(String::from_str("no-playlist-metafiles"));
        r.push(String::from_str("--skip-download"));
        r.push(String::from_str("--progress"));
        r.push(String::from_str("--quiet"));
        r.push(String::from_str("--dateafter"));
        r.push(date_to_yt_date(after));
        r.push(String::from_str("--paths"));
        r.push(String::from_str(self.output));
        r.push(String::from_str(url));
        r
    }
}

} // verus!
