//! One channel's pass: clean the working directory, fetch from the
//! watermark, read and parse the documents, write the records chunk by
//! chunk. The pass decides; the caller performs each action and reports
//! what came of it.
use vstd::prelude::*;
use crate::batch::{RawDocument, ParsedBatch, parse_batch, parsed_from};
use crate::watermark::{ChannelLatest, resolve_watermark, watermark_of, dates_representable};
use crate::batch::{good_docs, yields};
use crate::writer::{
    chunk_ranges, is_chunking, CHUNK_SIZE, ids_of, after_write, inserted_by, write_chunks,
    chunked_write_stores_all, rewrite_inserts_nothing,
};
use crate::ytdlp::{YtDlp, fetch_args_for};

verus! {

/// Where a pass stands: the event it waits for follows from it.
#[derive(Clone, Copy, Debug, PartialEq, Eq, Structural)]
pub enum Phase {
    Cleaning,
    Fetching,
    Reading,
    Writing,
    Finished,
}

/// The counts a finished pass reports.
#[derive(Clone, Copy, Debug, PartialEq, Eq, Structural)]
pub struct PassReport {
    /// Documents found after the fetch.
    pub documents: usize,
    /// Records parsed from them.
    pub records: usize,
    /// Documents that yielded no record.
    pub parse_failures: usize,
    /// Chunks committed.
    pub chunks_written: usize,
    /// The fetcher reported failure (the pass went on with its output).
    pub fetch_failed: bool,
    /// A chunk failed to commit, ending the pass.
    pub write_failed: bool,
}

/// What the caller must do next.
#[derive(Debug)]
pub enum Action {
    /// Remove every document left in the working directory.
    ClearWorkDir,
    /// Run the fetcher with these arguments.
    Fetch(Vec<String>),
    /// Read the documents of the working directory.
    ReadDocuments,
    /// Write records `start..end` of the batch in one transaction,
    /// skipping identifiers already stored.
    WriteChunk(usize, usize),
    /// The pass is over.
    Done(PassReport),
    /// The event did not fit the phase; nothing changed.
    Unexpected,
}

/// What came of the last action.
#[derive(Debug)]
pub enum Event {
    Cleared,
    /// The fetcher exited; `true` where it reported success.
    FetchExited(bool),
    DocumentsRead(Vec<RawDocument>),
    ChunkCommitted,
    ChunkFailed,
}

/// The state of one channel's pass.
pub struct ChannelPass {
    phase: Phase,
    fetch_args: Vec<String>,
    fetch_failed: bool,
    batch: ParsedBatch,
    chunks: Vec<(usize, usize)>,
    next_chunk: usize,
    write_failed: bool,
}

impl ChannelPass {
    pub closed spec fn phase(self) -> Phase {
        self.phase
    }

    pub closed spec fn fetch_args(self) -> Seq<String> {
        self.fetch_args@
    }

    pub closed spec fn fetch_failed(self) -> bool {
        self.fetch_failed
    }

    pub closed spec fn parsed(self) -> ParsedBatch {
        self.batch
    }

    pub closed spec fn chunks(self) -> Seq<(usize, usize)> {
        self.chunks@
    }

    /// The chunks committed so far.
    pub closed spec fn next_chunk(self) -> int {
        self.next_chunk as int
    }

    pub closed spec fn write_failed(self) -> bool {
        self.write_failed
    }

    /// The chunks split the parsed records; while writing, one is pending;
    /// once finished, all were written unless one failed.
    pub closed spec fn wf(self) -> bool {
        &&& (self.phase == Phase::Writing ==> is_chunking(
            self.chunks@,
            self.batch.valid@.len() as int,
            CHUNK_SIZE as int,
        ) && self.next_chunk < self.chunks@.len() && !self.write_failed)
        &&& (self.phase == Phase::Finished ==> is_chunking(
            self.chunks@,
            self.batch.valid@.len() as int,
            CHUNK_SIZE as int,
        ) && self.next_chunk <= self.chunks@.len() && (self.write_failed <==> self.next_chunk
            < self.chunks@.len()))
    }

    pub open spec fn report_spec(self) -> PassReport {
        PassReport {
            documents: self.parsed().total,
            records: self.parsed().valid@.len() as usize,
            parse_failures: self.parsed().failures@.len() as usize,
            chunks_written: self.next_chunk() as usize,
            fetch_failed: self.fetch_failed(),
            write_failed: self.write_failed(),
        }
    }

    /// The counts so far.
    pub fn report(&self) -> (r: PassReport)
        ensures
            r == self.report_spec(),
    {
        PassReport {
            documents: self.batch.total,
            records: self.batch.valid.len(),
            parse_failures: self.batch.failures.len(),
            chunks_written: self.next_chunk,
            fetch_failed: self.fetch_failed,
            write_failed: self.write_failed,
        }
    }

    /// The parsed records and failures (empty until the documents are read).
    pub fn batch(&self) -> (r: &ParsedBatch)
        ensures
            *r == self.parsed(),
    {
        &self.batch
    }

    /// Starts the pass of `channel`: it will fetch from the channel's
    /// watermark, and first asks for the working directory to be cleared.
    pub fn start(rows: &Vec<ChannelLatest>, channel: &str, fetcher: &YtDlp) -> (r: (
        ChannelPass,
        Action,
    ))
        requires
            dates_representable(rows@),
        ensures
            r.0.wf(),
            r.0.phase() == Phase::Cleaning,
            fetch_args_for(r.0.fetch_args(), *fetcher, channel@, watermark_of(rows@, channel@)),
            r.1 is ClearWorkDir,
    {
        let after = resolve_watermark(rows, channel);
        let args = fetcher.download_args(channel, &after);
        let pass = ChannelPass {
            phase: Phase::Cleaning,
            fetch_args: args,
            fetch_failed: false,
            batch: ParsedBatch { valid: Vec::new(), failures: Vec::new(), total: 0 },
            chunks: Vec::new(),
            next_chunk: 0,
            write_failed: false,
        };
        (pass, Action::ClearWorkDir)
    }

    /// Takes what came of the last action and says what to do next. A
    /// failed fetch is noted and the pass goes on to read what was left; a
    /// failed chunk ends the pass.
    pub fn step(&mut self, event: Event) -> (r: Action)
        requires
            old(self).wf(),
        ensures
            final(self).wf(),
            match event {
                Event::Cleared => if old(self).phase() == Phase::Cleaning {
                    &&& final(self).phase() == Phase::Fetching
                    &&& r matches Action::Fetch(a) && a@ == old(self).fetch_args()
                    &&& final(self).fetch_failed() == old(self).fetch_failed()
                } else {
                    *final(self) == *old(self) && r is Unexpected
                },
                Event::FetchExited(ok) => if old(self).phase() == Phase::Fetching {
                    &&& final(self).phase() == Phase::Reading
                    &&& final(self).fetch_failed() == !ok
                    &&& r is ReadDocuments
                } else {
                    *final(self) == *old(self) && r is Unexpected
                },
                Event::DocumentsRead(docs) => if old(self).phase() == Phase::Reading {
                    &&& parsed_from(final(self).parsed(), docs@)
                    &&& is_chunking(
                        final(self).chunks(),
                        final(self).parsed().valid@.len() as int,
                        CHUNK_SIZE as int,
                    )
                    &&& final(self).next_chunk() == 0
                    &&& final(self).fetch_failed() == old(self).fetch_failed()
                    &&& !final(self).write_failed()
                    &&& if final(self).chunks().len() == 0 {
                        final(self).phase() == Phase::Finished && r == Action::Done(
                            final(self).report_spec(),
                        )
                    } else {
                        final(self).phase() == Phase::Writing && r == Action::WriteChunk(
                            final(self).chunks()[0].0,
                            final(self).chunks()[0].1,
                        )
                    }
                } else {
                    *final(self) == *old(self) && r is Unexpected
                },
                Event::ChunkCommitted => if old(self).phase() == Phase::Writing {
                    &&& final(self).parsed() == old(self).parsed()
                    &&& final(self).chunks() == old(self).chunks()
                    &&& final(self).fetch_failed() == old(self).fetch_failed()
                    &&& final(self).next_chunk() == old(self).next_chunk() + 1
                    &&& !final(self).write_failed()
                    &&& if final(self).next_chunk() == final(self).chunks().len() {
                        final(self).phase() == Phase::Finished && r == Action::Done(
                            final(self).report_spec(),
                        )
                    } else {
                        final(self).phase() == Phase::Writing && r == Action::WriteChunk(
                            final(self).chunks()[final(self).next_chunk()].0,
                            final(self).chunks()[final(self).next_chunk()].1,
                        )
                    }
                } else {
                    *final(self) == *old(self) && r is Unexpected
                },
                Event::ChunkFailed => if old(self).phase() == Phase::Writing {
                    &&& final(self).parsed() == old(self).parsed()
                    &&& final(self).chunks() == old(self).chunks()
                    &&& final(self).fetch_failed() == old(self).fetch_failed()
                    &&& final(self).next_chunk() == old(self).next_chunk()
                    &&& final(self).write_failed()
                    &&& final(self).phase() == Phase::Finished
                    &&& r == Action::Done(final(self).report_spec())
                } else {
                    *final(self) == *old(self) && r is Unexpected
                },
            },
    {
        match event {
            Event::Cleared => {
                if self.phase != Phase::Cleaning {
                    return Action::Unexpected;
                }
                self.phase = Phase::Fetching;
                Action::Fetch(self.fetch_args.split_off(0))
            },
            Event::FetchExited(ok) => {
                if self.phase != Phase::Fetching {
                    return Action::Unexpected;
                }
                self.phase = Phase::Reading;
                self.fetch_failed = !ok;
                Action::ReadDocuments
            },
            Event::DocumentsRead(docs) => {
                if self.phase != Phase::Reading {
                    return Action::Unexpected;
                }
                self.batch = parse_batch(&docs);
                self.chunks = chunk_ranges(self.batch.valid.len(), CHUNK_SIZE);
                self.next_chunk = 0;
                self.write_failed = false;
                if self.chunks.len() == 0 {
                    self.phase = Phase::Finished;
                    Action::Done(self.report())
                } else {
                    self.phase = Phase::Writing;
                    Action::WriteChunk(self.chunks[0].0, self.chunks[0].1)
                }
            },
            Event::ChunkCommitted => {
                if self.phase != Phase::Writing {
                    return Action::Unexpected;
                }
                let n = self.chunks.len();
                assert(self.next_chunk < n);
                self.next_chunk = self.next_chunk + 1;
                if self.next_chunk == self.chunks.len() {
                    self.phase = Phase::Finished;
                    Action::Done(self.report())
                } else {
                    Action::WriteChunk(self.chunks[self.next_chunk].0, self.chunks[self.next_chunk].1)
                }
            },
            Event::ChunkFailed => {
                if self.phase != Phase::Writing {
                    return Action::Unexpected;
                }
                self.phase = Phase::Finished;
                self.write_failed = true;
                Action::Done(self.report())
            },
        }
    }
}

/// A pass that finished without a failed chunk has written every record
/// it parsed, whatever the store held before.
pub proof fn finished_pass_stores_all(p: ChannelPass, stored: Set<Seq<char>>)
    requires
        p.wf(),
        p.phase() == Phase::Finished,
        !p.write_failed(),
    ensures
        write_chunks(stored, p.parsed().valid@, p.chunks()) == after_write(stored, p.parsed().valid@),
        ids_of(p.parsed().valid@).subset_of(write_chunks(stored, p.parsed().valid@, p.chunks())),
{
    chunked_write_stores_all(stored, p.parsed().valid@, p.chunks(), CHUNK_SIZE as int);
}

/// Running the pipeline twice over the same documents: the second run
/// parses records with the same identifiers, so its write inserts none and
/// leaves the store as the first run left it.
pub proof fn reingestion_inserts_nothing(
    docs: Seq<RawDocument>,
    first: ParsedBatch,
    second: ParsedBatch,
    stored: Set<Seq<char>>,
)
    requires
        parsed_from(first, docs),
        parsed_from(second, docs),
    ensures
        ids_of(second.valid@) == ids_of(first.valid@),
        inserted_by(after_write(stored, first.valid@), second.valid@) == Set::<Seq<char>>::empty(),
        after_write(after_write(stored, first.valid@), second.valid@) == after_write(
            stored,
            first.valid@,
        ),
{
    let a = first.valid@;
    let b = second.valid@;
    assert forall|i: int| 0 <= i < a.len() implies (#[trigger] a[i]).id@ == b[i].id@ by {
        assert(yields(good_docs(docs)[i], a[i]));
        assert(yields(good_docs(docs)[i], b[i]));
    }
    assert forall|id: Seq<char>| #[trigger] ids_of(a).contains(id) implies ids_of(b).contains(id) by {
        let i = choose|i: int| 0 <= i < a.len() && (#[trigger] a[i]).id@ == id;
        assert(b[i].id@ == id);
    }
    assert forall|id: Seq<char>| #[trigger] ids_of(b).contains(id) implies ids_of(a).contains(id) by {
        let i = choose|i: int| 0 <= i < b.len() && (#[trigger] b[i]).id@ == id;
        assert(a[i].id@ == id);
    }
    assert(ids_of(b) =~= ids_of(a));
    rewrite_inserts_nothing(stored, a);
}

} // verus!
