//! The per-channel watermark: the latest publish date already stored.
use vstd::prelude::*;
use crate::date::{Date, epoch, epoch_floor};

verus! {

/// One row of the store's aggregate: a channel and the latest publish date
/// among its stored records (`None` where no stored record has a date).
#[derive(Debug)]
pub struct ChannelLatest {
    pub channel_url: String,
    pub latest: Option<Date>,
}

/// The watermark of `channel`: the latest date of the first row for it, or
/// the epoch floor where there is no such row or it holds no date.
pub open spec fn watermark_of(rows: Seq<ChannelLatest>, channel: Seq<char>) -> Date
    decreases rows.len(),
{
    if rows.len() == 0 {
        epoch_floor()
    } else if rows[0].channel_url@ == channel {
        match rows[0].latest {
            Some(d) => d,
            None => epoch_floor(),
        }
    } else {
        watermark_of(rows.drop_first(), channel)
    }
}

/// Every date the rows hold can be handed to the calendar library.
pub open spec fn dates_representable(rows: Seq<ChannelLatest>) -> bool {
    forall|i: int|
        0 <= i < rows.len() ==> ((#[trigger] rows[i]).latest matches Some(d) ==> d.representable())
}

/// The date after which `channel` must be fetched.
pub fn resolve_watermark(rows: &Vec<ChannelLatest>, channel: &str) -> (r: Date)
    ensures
        r == watermark_of(rows@, channel@),
        dates_representable(rows@) ==> r.representable(),
{
    proof {
        if dates_representable(rows@) {
            lemma_watermark_representable(rows@, channel@);
        }
    }
    let c = String::from_str(channel);
    let mut i: usize = 0;
    assert(rows@.subrange(0, rows@.len() as int) =~= rows@);
    while i < rows.len()
        invariant
            i <= rows@.len(),
            c@ == channel@,
            watermark_of(rows@, channel@) == watermark_of(
                rows@.subrange(i as int, rows@.len() as int),
                channel@,
            ),
        decreases rows.len() - i,
    {
        let ghost rest = rows@.subrange(i as int, rows@.len() as int);
        assert(rest.drop_first() =~= rows@.subrange(i + 1, rows@.len() as int));
        if rows[i].channel_url == c {
            return match rows[i].latest {
                Some(d) => d,
                None => epoch(),
            };
        }
        i = i + 1;
    }
    epoch()
}

proof fn lemma_watermark_representable(rows: Seq<ChannelLatest>, channel: Seq<char>)
    requires
        dates_representable(rows),
    ensures
        watermark_of(rows, channel).representable(),
    decreases rows.len(),
{
    if rows.len() > 0 {
        assert(rows[0].latest matches Some(d) ==> d.representable());
        assert forall|i: int| 0 <= i < rows.drop_first().len() implies ((
        #[trigger] rows.drop_first()[i]).latest matches Some(d) ==> d.representable()) by {
            assert(rows.drop_first()[i] == rows[i + 1]);
        }
        lemma_watermark_representable(rows.drop_first(), channel);
    }
}

/// A channel that has no row in the aggregate (nothing stored for it) is
/// fetched from the epoch floor, 1970-01-01.
pub proof fn unknown_channel_starts_at_epoch(rows: Seq<ChannelLatest>, channel: Seq<char>)
    requires
        forall|i: int| 0 <= i < rows.len() ==> (#[trigger] rows[i]).channel_url@ != channel,
    ensures
        watermark_of(rows, channel) == epoch_floor(),
        watermark_of(rows, channel) == (Date { year: 1970, month: 1, day: 1 }),
    decreases rows.len(),
{
    if rows.len() > 0 {
        assert(rows[0].channel_url@ != channel);
        assert forall|i: int| 0 <= i < rows.drop_first().len() implies (
        #[trigger] rows.drop_first()[i]).channel_url@ != channel by {
            assert(rows.drop_first()[i] == rows[i + 1]);
        }
        unknown_channel_starts_at_epoch(rows.drop_first(), channel);
    }
}

/// A channel whose stored records are dated is fetched from its latest
/// stored date, as the aggregate reports it.
pub proof fn known_channel_starts_at_latest(rows: Seq<ChannelLatest>, channel: Seq<char>, i: int, d: Date)
    requires
        0 <= i < rows.len(),
        rows[i].channel_url@ == channel,
        rows[i].latest == Some(d),
        forall|j: int| 0 <= j < rows.len() && j != i ==> (#[trigger] rows[j]).channel_url@ != channel,
    ensures
        watermark_of(rows, channel) == d,
    decreases rows.len(),
{
    if i > 0 {
        assert forall|j: int| 0 <= j < rows.drop_first().len() && j != i - 1 implies (
        #[trigger] rows.drop_first()[j]).channel_url@ != channel by {
            assert(rows.drop_first()[j] == rows[j + 1]);
        }
        known_channel_starts_at_latest(rows.drop_first(), channel, i - 1, d);
    }
}

} // verus!
