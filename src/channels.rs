//! The channel list: one channel per line; blank lines and comments skipped.
use vstd::prelude::*;

verus! {

/// The lines of a text, as `str::lines` splits it.
pub uninterp spec fn lines_of(s: Seq<char>) -> Seq<Seq<char>>;

/// A line without its leading and trailing whitespace, as `str::trim` gives it.
pub uninterp spec fn trimmed(s: Seq<char>) -> Seq<char>;

/// Relies on `str::lines`: the text split at line endings, which are dropped.
#[verifier::external_body]
fn split_lines(text: &str) -> (r: Vec<String>)
    ensures
        r@.map_values(|l: String| l@) == lines_of(text@),
{
    text.lines().map(|l| l.to_string()).collect()
}

/// Relies on `str::trim`: the line without leading and trailing whitespace.
#[verifier::external_body]
fn trim_line(line: &str) -> (r: &str)
    ensures
        r@ == trimmed(line@),
{
    line.trim()
}

/// A trimmed line names a channel: it is neither empty nor a comment.
pub open spec fn names_channel(t: Seq<char>) -> bool {
    t.len() > 0 && t[0] != '#'
}

pub open spec fn is_channel_line(line: Seq<char>) -> bool {
    names_channel(trimmed(line))
}

/// The lines of the list that name channels, in order and as written.
pub open spec fn channels_of(text: Seq<char>) -> Seq<Seq<char>> {
    lines_of(text).filter(|l: Seq<char>| is_channel_line(l))
}

/// Whether a line of the list names a channel.
pub fn is_channel(line: &str) -> (r: bool)
    ensures
        r == is_channel_line(line@),
{
    let t = trim_line(line);
    if t.unicode_len() == 0 {
        false
    } else {
        t.get_char(0) != '#'
    }
}

/// The channels a list names, in the order it names them.
pub fn channel_list(text: &str) -> (r: Vec<String>)
    ensures
        r@.map_values(|l: String| l@) == channels_of(text@),
{
    let lines = split_lines(text);
    let ghost views = lines@.map_values(|l: String| l@);
    let mut out: Vec<String> = Vec::new();
    let mut i: usize = 0;
    while i < lines.len()
        invariant
            i <= lines@.len(),
            views == lines@.map_values(|l: String| l@),
            out@.map_values(|l: String| l@) == views.subrange(0, i as int).filter(
                |l: Seq<char>| is_channel_line(l),
            ),
        decreases lines.len() - i,
    {
        let ghost prev = views.subrange(0, i as int);
        let ghost next = views.subrange(0, i + 1);
        proof {
            assert(next.drop_last() =~= prev);
            reveal(Seq::filter);
        }
        let keep = is_channel(lines[i].as_str());
        if keep {
            out.push(lines[i].clone());
        }
        assert(out@.map_values(|l: String| l@) =~= next.filter(|l: Seq<char>| is_channel_line(l)));
        i = i + 1;
    }
    assert(views.subrange(0, views.len() as int) =~= views);
    out
}

} // verus!
