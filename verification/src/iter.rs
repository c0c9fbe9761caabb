//! Block-by-block reading of a capture file.
//!
//! The reader here never touches a byte source. It is handed the bytes that
//! the source has buffered, decides what they hold, and says how many of them
//! to discard. Whoever owns the source looks ahead, calls, and advances.

use vstd::prelude::*;
use vstd::slice::slice_subrange;
use crate::endian::{u32_at, Endianness};
use crate::error::DecodeError;
use crate::header::{decode_header, magic_format, magic_of, parse_header, Header, HEADER_LEN};
use crate::link_type::{classify, LinkType};
use crate::record::{decode_record, parse_record, Record, RecordView, RECORD_PREFIX_LEN};

verus! {

/// One entry of a capture file, as the reader hands it out.
#[derive(Debug, PartialEq)]
pub enum Block {
    /// The global header. It comes once, as the first block.
    Header(Header),
    /// A packet record.
    Record(Record),
    /// The file is malformed. Nothing follows this block.
    Error(DecodeError),
}

/// A block as a mathematical value.
pub enum BlockView {
    Header(Header),
    Record(RecordView),
    Error(DecodeError),
}

impl View for Block {
    type V = BlockView;

    open spec fn view(&self) -> BlockView {
        match *self {
            Block::Header(h) => BlockView::Header(h),
            Block::Record(r) => BlockView::Record(r@),
            Block::Error(kind) => BlockView::Error(kind),
        }
    }
}

/// Where a reader stands in its file.
#[derive(Debug, PartialEq, Eq, Clone, Copy, Structural)]
pub enum Phase {
    /// Nothing has been read yet: the global header is due.
    AwaitingHeader,
    /// The header has been read and fixed how records are to be read.
    AwaitingRecord { endianness: Endianness, nano_sec: bool },
    /// A malformed block was met. The reader yields nothing more.
    Terminated,
}

/// One pull on a reader in `phase` that is shown the buffered bytes
/// `buffered`: the phase it moves to, and what it yields, which is either
/// nothing (the sequence ends here, for now or for good) or a number of bytes
/// to discard from the source together with a block.
///
/// Bytes that end before the block does yield nothing and leave the reader
/// where it was. Any other failure yields one error block, discards nothing
/// and terminates the reader.
pub open spec fn step(phase: Phase, buffered: Seq<u8>) -> (Phase, Option<(nat, BlockView)>) {
    match phase {
        Phase::AwaitingHeader => match decode_header(buffered) {
            Ok((n, h)) => (
                Phase::AwaitingRecord { endianness: h.endianness, nano_sec: h.nano_sec },
                Some((n, BlockView::Header(h))),
            ),
            Err(DecodeError::Incomplete) => (phase, None),
            Err(kind) => (Phase::Terminated, Some((0, BlockView::Error(kind)))),
        },
        Phase::AwaitingRecord { endianness, nano_sec } => match decode_record(
            buffered,
            endianness,
            nano_sec,
        ) {
            Ok((n, r)) => (phase, Some((n, BlockView::Record(r)))),
            Err(DecodeError::Incomplete) => (phase, None),
            Err(kind) => (Phase::Terminated, Some((0, BlockView::Error(kind)))),
        },
        Phase::Terminated => (phase, None),
    }
}

/// The blocks that a reader in `phase` yields, pull after pull, from a source
/// whose remaining bytes `source` are all buffered, up to the first pull that
/// yields nothing.
pub open spec fn run(phase: Phase, source: Seq<u8>) -> Seq<BlockView>
    decreases source.len(), (if phase is Terminated { 0nat } else { 1nat }),
{
    match step(phase, source) {
        (_, None) => Seq::empty(),
        (next, Some((n, block))) => seq![block] + run(next, source.skip(n as int)),
    }
}

/// The blocks of `blocks` as mathematical values.
pub open spec fn block_views(blocks: Seq<Block>) -> Seq<BlockView> {
    blocks.map_values(|b: Block| b@)
}

/// The blocks that a reader starting in `phase` yields over a series of
/// pulls, the first of which is shown `buffers[0]`, the next `buffers[1]`, and
/// so on. The buffers are arbitrary: nothing is assumed of how the source
/// fills them.
pub open spec fn yields(phase: Phase, buffers: Seq<Seq<u8>>) -> Seq<BlockView>
    decreases buffers.len(),
{
    if buffers.len() == 0 {
        Seq::empty()
    } else {
        let rest = yields(step(phase, buffers[0]).0, buffers.skip(1));
        match step(phase, buffers[0]).1 {
            None => rest,
            Some((_, block)) => seq![block] + rest,
        }
    }
}

/// Every block of `blocks` is a record.
pub open spec fn all_records(blocks: Seq<BlockView>) -> bool {
    forall|i: int| 0 <= i < blocks.len() ==> blocks[i] is Record
}

/// Reader of a capture file: the state that turns the bytes of a source, a
/// buffer at a time, into blocks.
pub struct PcapIterator {
    phase: Phase,
}

impl View for PcapIterator {
    type V = Phase;

    closed spec fn view(&self) -> Phase {
        self.phase
    }
}

impl PcapIterator {
    /// A reader at the start of a file.
    pub fn new() -> (r: PcapIterator)
        ensures
            r@ == Phase::AwaitingHeader,
    {
        PcapIterator { phase: Phase::AwaitingHeader }
    }

    /// Pulls the next block out of the bytes that the source has buffered.
    ///
    /// `Some((n, block))` hands out a block; the caller discards `n` bytes
    /// from the source before it pulls again. `None` ends the sequence: the
    /// buffered bytes hold no further whole block, or the reader has
    /// terminated.
    pub fn next(&mut self, buffered: &[u8]) -> (r: Option<(usize, Block)>)
        ensures
            final(self)@ == step(old(self)@, buffered@).0,
            r is None <==> step(old(self)@, buffered@).1 is None,
            r matches Some((n, block)) ==> step(old(self)@, buffered@).1 == Some(
                (n as nat, block@),
            ) && n <= buffered@.len(),
    {
        match self.phase {
            Phase::AwaitingHeader => match parse_header(buffered) {
                Ok((n, h)) => {
                    self.phase = Phase::AwaitingRecord {
                        endianness: h.endianness,
                        nano_sec: h.nano_sec,
                    };
                    Some((n, Block::Header(h)))
                },
                Err(DecodeError::Incomplete) => None,
                Err(kind) => {
                    self.phase = Phase::Terminated;
                    Some((0, Block::Error(kind)))
                },
            },
            Phase::AwaitingRecord { endianness, nano_sec } => match parse_record(
                buffered,
                endianness,
                nano_sec,
            ) {
                Ok((n, r)) => Some((n, Block::Record(r))),
                Err(DecodeError::Incomplete) => None,
                Err(kind) => {
                    self.phase = Phase::Terminated;
                    Some((0, Block::Error(kind)))
                },
            },
            Phase::Terminated => None,
        }
    }

    /// Pulls until the sequence ends, on a source that is in memory in full,
    /// and returns the blocks in the order they came.
    pub fn read_all(self, source: &[u8]) -> (blocks: Vec<Block>)
        ensures
            block_views(blocks@) == run(self@, source@),
    {
        let mut reader = self;
        let mut blocks: Vec<Block> = Vec::new();
        let mut at: usize = 0;
        proof {
            assert(source@.skip(0) =~= source@);
            assert(block_views(blocks@) + run(self@, source@) =~= run(self@, source@));
        }
        loop
            invariant
                at <= source@.len(),
                block_views(blocks@) + run(reader@, source@.skip(at as int)) == run(
                    self@,
                    source@,
                ),
            ensures
                block_views(blocks@) == run(self@, source@),
            decreases source@.len() - at, (if reader@ is Terminated { 0nat } else { 1nat }),
        {
            let ghost before = block_views(blocks@);
            let ghost rest = source@.skip(at as int);
            let pulled = reader.next(slice_subrange(source, at, source.len()));
            match pulled {
                None => {
                    assert(before + Seq::<BlockView>::empty() =~= before);
                    break ;
                },
                Some((n, block)) => {
                    blocks.push(block);
                    at = at + n;
                    proof {
                        assert(block_views(blocks@) =~= before + seq![block@]);
                        assert(rest.skip(n as int) =~= source@.skip(at as int));
                        assert((before + seq![block@]) + run(reader@, rest.skip(n as int))
                            =~= before + (seq![block@] + run(reader@, rest.skip(n as int))));
                    }
                },
            }
        }
        blocks
    }
}

/// A terminated reader yields nothing, whatever it is shown, and stays
/// terminated.
pub proof fn lemma_terminated_is_final(buffered: Seq<u8>)
    ensures
        step(Phase::Terminated, buffered) == (Phase::Terminated, None::<(nat, BlockView)>),
{
}

/// A source that ends exactly where a block would begin ends the sequence:
/// shown no bytes, a reader yields nothing and stays where it was.
pub proof fn lemma_nothing_from_no_bytes(phase: Phase)
    ensures
        step(phase, Seq::<u8>::empty()) == (phase, None::<(nat, BlockView)>),
        run(phase, Seq::<u8>::empty()) == Seq::<BlockView>::empty(),
{
}

/// A source that ends in the middle of a record ends the sequence with no
/// error block: shown fewer bytes than the record takes, a reader that awaits
/// a record yields nothing and stays where it was.
pub proof fn lemma_nothing_from_partial_record(buffered: Seq<u8>, e: Endianness, nano_sec: bool)
    requires
        buffered.len() < RECORD_PREFIX_LEN || buffered.len() < RECORD_PREFIX_LEN + u32_at(
            buffered,
            8,
            e,
        ),
    ensures
        step(Phase::AwaitingRecord { endianness: e, nano_sec }, buffered) == (
            Phase::AwaitingRecord { endianness: e, nano_sec },
            None::<(nat, BlockView)>,
        ),
        run(Phase::AwaitingRecord { endianness: e, nano_sec }, buffered) == Seq::<
            BlockView,
        >::empty(),
{
}

/// An error block is yielded exactly by a reader that awaits the header and
/// is shown a malformed one. It holds the reason, which is never
/// `Incomplete`; no bytes are discarded with it, and it terminates the reader.
pub proof fn lemma_error_block(phase: Phase, buffered: Seq<u8>, kind: DecodeError)
    ensures
        (exists|n: nat| step(phase, buffered).1 == Some((n, BlockView::Error(kind)))) <==> phase
            is AwaitingHeader && kind != DecodeError::Incomplete && decode_header(buffered)
            == Err::<(nat, Header), DecodeError>(kind),
        step(phase, buffered).1 matches Some((n, BlockView::Error(_))) ==> n == 0 && step(
            phase,
            buffered,
        ).0 is Terminated,
{
    if phase is AwaitingHeader && kind != DecodeError::Incomplete && decode_header(buffered)
        == Err::<(nat, Header), DecodeError>(kind) {
        assert(step(phase, buffered).1 == Some((0nat, BlockView::Error(kind))));
    }
}

/// The header block is yielded exactly by a reader that awaits the header and
/// is shown a well-formed one. The reader then awaits records, read as the
/// header says, and no pull ever brings a reader back to awaiting the header.
pub proof fn lemma_header_block(phase: Phase, buffered: Seq<u8>)
    ensures
        step(phase, buffered).1 matches Some((_, BlockView::Header(_))) <==> phase
            is AwaitingHeader && decode_header(buffered) is Ok,
        step(phase, buffered).1 matches Some((n, BlockView::Header(h))) ==> decode_header(
            buffered,
        ) == Ok::<(nat, Header), DecodeError>((n, h)) && step(phase, buffered).0
            == (Phase::AwaitingRecord { endianness: h.endianness, nano_sec: h.nano_sec }),
        step(phase, buffered).0 is AwaitingHeader ==> phase is AwaitingHeader && step(
            phase,
            buffered,
        ).1 is None,
{
}

/// What the header fixed stays fixed: a reader that awaits records goes on
/// awaiting records in the same byte order and timestamp unit, and what it
/// yields is the record decoded in them, if a whole one is there.
pub proof fn lemma_record_block(buffered: Seq<u8>, e: Endianness, nano_sec: bool)
    ensures
        step(Phase::AwaitingRecord { endianness: e, nano_sec }, buffered).0
            == (Phase::AwaitingRecord { endianness: e, nano_sec }),
        decode_record(buffered, e, nano_sec) matches Ok((n, r)) ==> step(
            Phase::AwaitingRecord { endianness: e, nano_sec },
            buffered,
        ).1 == Some((n, BlockView::Record(r))),
        decode_record(buffered, e, nano_sec) is Err ==> step(
            Phase::AwaitingRecord { endianness: e, nano_sec },
            buffered,
        ).1 is None,
{
}

/// A block never asks for more bytes to be discarded than the reader was
/// shown, and a record or header always asks for some.
pub proof fn lemma_discards_within_buffer(phase: Phase, buffered: Seq<u8>)
    ensures
        step(phase, buffered).1 matches Some((n, block)) ==> n <= buffered.len() && (block
            is Error || n >= RECORD_PREFIX_LEN),
{
}

/// After the header a reader yields records and nothing else, however the
/// source fills its buffer.
pub proof fn lemma_records_follow_header(e: Endianness, nano_sec: bool, buffers: Seq<Seq<u8>>)
    ensures
        all_records(yields(Phase::AwaitingRecord { endianness: e, nano_sec }, buffers)),
    decreases buffers.len(),
{
    let phase = Phase::AwaitingRecord { endianness: e, nano_sec };
    if buffers.len() > 0 {
        lemma_records_follow_header(e, nano_sec, buffers.skip(1));
        assert(step(phase, buffers[0]).0 == phase);
    }
}

/// A terminated reader yields nothing over any series of pulls.
pub proof fn lemma_nothing_after_termination(buffers: Seq<Seq<u8>>)
    ensures
        yields(Phase::Terminated, buffers) == Seq::<BlockView>::empty(),
    decreases buffers.len(),
{
    if buffers.len() > 0 {
        lemma_nothing_after_termination(buffers.skip(1));
    }
}

/// The shape of everything a fresh reader can yield, however the source
/// fills its buffer: nothing at all; or one error block that is no
/// `Incomplete`, and nothing after it; or the header first and only once,
/// and records after it.
pub proof fn lemma_yield_shape(buffers: Seq<Seq<u8>>)
    ensures
        ({
            let y = yields(Phase::AwaitingHeader, buffers);
            ||| y.len() == 0
            ||| y.len() == 1 && y[0] is Error && y[0]->Error_0 != DecodeError::Incomplete
            ||| y[0] is Header && all_records(y.skip(1))
        }),
    decreases buffers.len(),
{
    if buffers.len() > 0 {
        let (next, out) = step(Phase::AwaitingHeader, buffers[0]);
        let rest = yields(next, buffers.skip(1));
        match out {
            None => {
                lemma_yield_shape(buffers.skip(1));
            },
            Some((_, BlockView::Header(h))) => {
                lemma_records_follow_header(h.endianness, h.nano_sec, buffers.skip(1));
                assert((seq![BlockView::Header(h)] + rest).skip(1) =~= rest);
            },
            Some((_, block)) => {
                lemma_nothing_after_termination(buffers.skip(1));
                assert(seq![block] + rest =~= seq![block]);
            },
        }
    }
}

/// The blocks of a source held in full are what a reader yields when each
/// pull is shown all that remains: a run is one series of pulls among the
/// many that `yields` describes, so every run has the shape that
/// `lemma_yield_shape` states.
pub proof fn lemma_run_is_a_series_of_pulls(phase: Phase, source: Seq<u8>) -> (buffers: Seq<
    Seq<u8>,
>)
    ensures
        yields(phase, buffers) == run(phase, source),
    decreases source.len(), (if phase is Terminated { 0nat } else { 1nat }),
{
    match step(phase, source) {
        (_, None) => Seq::empty(),
        (next, Some((n, block))) => {
            let later = lemma_run_is_a_series_of_pulls(next, source.skip(n as int));
            let buffers = seq![source] + later;
            assert(buffers.skip(1) =~= later);
            buffers
        },
    }
}

/// A source held in full yields its header, then its records in order, as
/// long as whole ones remain: a run from the header on is the header block
/// followed by the run of records over the bytes after it.
pub proof fn lemma_run_from_header(source: Seq<u8>)
    ensures
        decode_header(source) matches Ok((n, h)) ==> run(Phase::AwaitingHeader, source)
            == seq![BlockView::Header(h)] + run(
            Phase::AwaitingRecord { endianness: h.endianness, nano_sec: h.nano_sec },
            source.skip(n as int),
        ),
        decode_header(source) == Err::<(nat, Header), DecodeError>(DecodeError::Incomplete)
            ==> run(Phase::AwaitingHeader, source) == Seq::<BlockView>::empty(),
        decode_header(source) matches Err(kind) ==> kind != DecodeError::Incomplete ==> run(
            Phase::AwaitingHeader,
            source,
        ) == seq![BlockView::Error(kind)],
{
    match decode_header(source) {
        Ok(_) => {},
        Err(DecodeError::Incomplete) => {},
        Err(kind) => {
            assert(run(Phase::Terminated, source.skip(0)) == Seq::<BlockView>::empty());
            assert(seq![BlockView::Error(kind)] + Seq::<BlockView>::empty() =~= seq![
                BlockView::Error(kind),
            ]);
        },
    }
}

/// A run of records over a source held in full: the first record is decoded
/// from the front, the rest from the bytes after it.
pub proof fn lemma_run_of_records(source: Seq<u8>, e: Endianness, nano_sec: bool)
    ensures
        decode_record(source, e, nano_sec) matches Ok((n, r)) ==> run(
            Phase::AwaitingRecord { endianness: e, nano_sec },
            source,
        ) == seq![BlockView::Record(r)] + run(
            Phase::AwaitingRecord { endianness: e, nano_sec },
            source.skip(n as int),
        ),
        decode_record(source, e, nano_sec) is Err ==> run(
            Phase::AwaitingRecord { endianness: e, nano_sec },
            source,
        ) == Seq::<BlockView>::empty(),
{
}

/// A run is no longer than its source allows: every block but an error
/// block takes at least 16 bytes of it.
pub proof fn lemma_run_is_bounded(phase: Phase, source: Seq<u8>)
    ensures
        RECORD_PREFIX_LEN * run(phase, source).len() <= source.len() + RECORD_PREFIX_LEN,
        phase is AwaitingRecord ==> RECORD_PREFIX_LEN * run(phase, source).len() <= source.len(),
    decreases source.len(), (if phase is Terminated { 0nat } else { 1nat }),
{
    match step(phase, source) {
        (_, None) => {},
        (next, Some((n, block))) => {
            lemma_run_is_bounded(next, source.skip(n as int));
            if block is Error {
                assert(run(next, source.skip(n as int)).len() == 0);
            }
        },
    }
}

/// A complete header that names no known link type makes a fresh reader
/// yield one error block, `UnsupportedLinkType`, and then nothing, whatever
/// it is shown afterwards.
pub proof fn lemma_unsupported_link_type_ends_sequence(
    source: Seq<u8>,
    e: Endianness,
    nano_sec: bool,
    later: Seq<Seq<u8>>,
)
    requires
        source.len() >= HEADER_LEN,
        magic_format(magic_of(source)) == Some((e, nano_sec)),
        classify(u32_at(source, 20, e)) == LinkType::UNKNOWN,
    ensures
        step(Phase::AwaitingHeader, source) == (
            Phase::Terminated,
            Some((0nat, BlockView::Error(DecodeError::UnsupportedLinkType))),
        ),
        yields(Phase::AwaitingHeader, seq![source] + later) == seq![
            BlockView::Error(DecodeError::UnsupportedLinkType),
        ],
        run(Phase::AwaitingHeader, source) == seq![
            BlockView::Error(DecodeError::UnsupportedLinkType),
        ],
{
    let block = BlockView::Error(DecodeError::UnsupportedLinkType);
    lemma_nothing_after_termination(later);
    assert((seq![source] + later).skip(1) =~= later);
    assert(seq![block] + Seq::<BlockView>::empty() =~= seq![block]);
    lemma_run_from_header(source);
}

/// A source that holds a well-formed header and ends right after it yields
/// the header block and nothing else: no error block marks the end.
pub proof fn lemma_header_alone(source: Seq<u8>)
    requires
        source.len() == HEADER_LEN,
        decode_header(source) is Ok,
    ensures
        run(Phase::AwaitingHeader, source) == seq![
            BlockView::Header(decode_header(source)->Ok_0.1),
        ],
{
    let h = decode_header(source)->Ok_0.1;
    lemma_run_from_header(source);
    assert(source.skip(HEADER_LEN as int) =~= Seq::<u8>::empty());
    lemma_nothing_from_no_bytes(
        Phase::AwaitingRecord { endianness: h.endianness, nano_sec: h.nano_sec },
    );
    assert(seq![BlockView::Header(h)] + Seq::<BlockView>::empty() =~= seq![BlockView::Header(h)]);
}

} // verus!
