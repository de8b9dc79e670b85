//! Driving the reader and the writer over one shared buffer, in any order
//! of turns, and joining their results.

use vstd::prelude::*;
use crate::transfer::{DownloadError, ReadOutcome, TransferBuffer, WriterTurn};

verus! {

/// The bytes of a sequence of chunks, one after the other.
pub open spec fn joined(chunks: Seq<Seq<u8>>) -> Seq<u8>
    decreases chunks.len(),
{
    if chunks.len() == 0 {
        Seq::empty()
    } else {
        joined(chunks.drop_last()) + chunks.last()
    }
}

/// The views of a list of chunks.
pub open spec fn chunk_views(chunks: Seq<Vec<u8>>) -> Seq<Seq<u8>> {
    chunks.map_values(|c: Vec<u8>| c@)
}

/// Every chunk holds at least one byte: an empty read marks the end of a
/// stream, so a source never yields an empty chunk.
pub open spec fn chunks_nonempty(chunks: Seq<Vec<u8>>) -> bool {
    forall|i: int| 0 <= i < chunks.len() ==> #[trigger] chunks[i]@.len() > 0
}

/// Each value is at most every later one.
pub open spec fn non_decreasing(s: Seq<u64>) -> bool {
    forall|i: int, j: int| 0 <= i <= j < s.len() ==> s[i] <= s[j]
}

/// Joining one more chunk appends its bytes.
pub proof fn lemma_joined_step(chunks: Seq<Seq<u8>>, n: int)
    requires
        0 <= n < chunks.len(),
    ensures
        joined(chunks.subrange(0, n + 1)) == joined(chunks.subrange(0, n)) + chunks[n],
{
    assert(chunks.subrange(0, n + 1).drop_last() =~= chunks.subrange(0, n));
}

/// A prefix of the chunks never joins to more bytes than all of them.
pub proof fn lemma_joined_prefix_len(chunks: Seq<Seq<u8>>, n: int)
    requires
        0 <= n <= chunks.len(),
    ensures
        joined(chunks.subrange(0, n)).len() <= joined(chunks).len(),
    decreases chunks.len() - n,
{
    if n == chunks.len() {
        assert(chunks.subrange(0, n) =~= chunks);
    } else {
        lemma_joined_step(chunks, n);
        lemma_joined_prefix_len(chunks, n + 1);
    }
}

/// The result of a whole transfer: the reader's error comes first, then the
/// writer's, and success only when both succeeded.
pub fn join_outcome<E>(reader: Result<(), E>, writer: Result<(), E>) -> (r: Result<(), E>)
    ensures
        r == (match reader {
            Err(e) => Err(e),
            Ok(()) => writer,
        }),
{
    match reader {
        Err(e) => Err(e),
        Ok(()) => writer,
    }
}

/// What a transfer left behind.
pub struct TransferReport {
    /// The bytes written to the destination, in the order written.
    pub file: Vec<u8>,
    /// Each counter value shown on the progress display, in order.
    pub positions: Vec<u64>,
    /// Success, or the first error.
    pub outcome: Result<(), DownloadError>,
}

/// Runs one transfer of `chunks` through a shared buffer on a single thread.
/// `turns` says who goes next: `true` for a reader step, `false` for a
/// writer visit. Once the turns run out, the reader runs to its end and the
/// writer makes its last visit. After the last chunk the source ends, or
/// fails when `fault_at_end` is set. A schedule of `[true, false]` pairs is
/// the plain read-then-write loop.
///
/// Whatever the order of turns, however far the writer falls behind: the
/// file holds exactly the chunks' bytes in the order received, so on success
/// its length is the total; the counter shown never goes down, never exceeds
/// the total, and ends at the total.
pub fn run_transfer(chunks: &Vec<Vec<u8>>, fault_at_end: bool, turns: &Vec<bool>) -> (r: TransferReport)
    requires
        chunks_nonempty(chunks@),
        joined(chunk_views(chunks@)).len() <= u64::MAX,
    ensures
        r.file@ == joined(chunk_views(chunks@)),
        r.outcome is Ok ==> r.file@.len() == joined(chunk_views(chunks@)).len(),
        r.positions@.len() > 0,
        non_decreasing(r.positions@),
        forall|i: int|
            0 <= i < r.positions@.len() ==> #[trigger] r.positions@[i] <= joined(
                chunk_views(chunks@),
            ).len(),
        r.positions@.last() == joined(chunk_views(chunks@)).len(),
        r.outcome == (if fault_at_end {
            Err::<(), DownloadError>(DownloadError::Network)
        } else {
            Ok::<(), DownloadError>(())
        }),
{
    let ghost views = chunk_views(chunks@);
    let mut buf = TransferBuffer::new();
    let mut next: usize = 0;
    let mut reader_result: Result<(), DownloadError> = Ok(());
    let mut writer_stopped = false;
    let mut file: Vec<u8> = Vec::new();
    let mut positions: Vec<u64> = Vec::new();
    let mut t: usize = 0;
    proof {
        assert(views.subrange(0, 0) =~= Seq::<Seq<u8>>::empty());
    }
    while t < turns.len()
        invariant
            chunks_nonempty(chunks@),
            views == chunk_views(chunks@),
            joined(views).len() <= u64::MAX,
            buf.wf(),
            next <= chunks@.len(),
            buf.received() == joined(views.subrange(0, next as int)),
            file@ == buf.delivered(),
            buf.done() ==> next == chunks@.len(),
            buf.done() ==> reader_result == (if fault_at_end {
                Err::<(), DownloadError>(DownloadError::Network)
            } else {
                Ok::<(), DownloadError>(())
            }),
            !buf.done() ==> reader_result == Ok::<(), DownloadError>(()),
            writer_stopped ==> buf.done() && buf.delivered() == buf.received(),
            writer_stopped ==> positions@.len() > 0 && positions@.last() == buf.counter(),
            non_decreasing(positions@),
            forall|i: int| 0 <= i < positions@.len() ==> positions@[i] <= buf.counter(),
        decreases turns.len() - t,
    {
        if turns[t] {
            if !buf.is_done() {
                reader_result = reader_turn(&mut buf, chunks, &mut next, fault_at_end, Ghost(views));
            }
        } else if !writer_stopped {
            writer_visit(&mut buf, &mut file, &mut positions, &mut writer_stopped);
        }
        t = t + 1;
    }
    while !buf.is_done()
        invariant
            chunks_nonempty(chunks@),
            views == chunk_views(chunks@),
            joined(views).len() <= u64::MAX,
            buf.wf(),
            next <= chunks@.len(),
            buf.received() == joined(views.subrange(0, next as int)),
            file@ == buf.delivered(),
            buf.done() ==> next == chunks@.len(),
            buf.done() ==> reader_result == (if fault_at_end {
                Err::<(), DownloadError>(DownloadError::Network)
            } else {
                Ok::<(), DownloadError>(())
            }),
            !buf.done() ==> reader_result == Ok::<(), DownloadError>(()),
            writer_stopped ==> buf.done() && buf.delivered() == buf.received(),
            writer_stopped ==> positions@.len() > 0 && positions@.last() == buf.counter(),
            non_decreasing(positions@),
            forall|i: int| 0 <= i < positions@.len() ==> positions@[i] <= buf.counter(),
        decreases chunks@.len() - next + (if buf.done() { 0int } else { 1int }),
    {
        reader_result = reader_turn(&mut buf, chunks, &mut next, fault_at_end, Ghost(views));
    }
    if !writer_stopped {
        writer_visit(&mut buf, &mut file, &mut positions, &mut writer_stopped);
    }
    proof {
        assert(views.subrange(0, chunks@.len() as int) =~= views);
    }
    TransferReport { file, positions, outcome: join_outcome(reader_result, Ok(())) }
}

/// One reader step fed from the next chunk, or from the end of the source.
fn reader_turn(
    buf: &mut TransferBuffer,
    chunks: &Vec<Vec<u8>>,
    next: &mut usize,
    fault_at_end: bool,
    views: Ghost<Seq<Seq<u8>>>,
) -> (r: Result<(), DownloadError>)
    requires
        chunks_nonempty(chunks@),
        views@ == chunk_views(chunks@),
        joined(views@).len() <= u64::MAX,
        old(buf).wf(),
        !old(buf).done(),
        *old(next) <= chunks@.len(),
        old(buf).received() == joined(views@.subrange(0, *old(next) as int)),
    ensures
        final(buf).wf(),
        *final(next) <= chunks@.len(),
        final(buf).received() == joined(views@.subrange(0, *final(next) as int)),
        final(buf).delivered() == old(buf).delivered(),
        final(buf).counter() >= old(buf).counter(),
        final(buf).done() ==> *final(next) == chunks@.len(),
        final(buf).done() ==> r == (if fault_at_end {
            Err::<(), DownloadError>(DownloadError::Network)
        } else {
            Ok::<(), DownloadError>(())
        }),
        !final(buf).done() ==> r == Ok::<(), DownloadError>(()),
        !final(buf).done() ==> *final(next) == *old(next) + 1,
{
    let n = *next;
    if n < chunks.len() {
        let chunk: &[u8] = chunks[n].as_slice();
        proof {
            assert(views@[n as int] == chunks@[n as int]@);
            lemma_joined_step(views@, n as int);
            lemma_joined_prefix_len(views@, n as int + 1);
        }
        let _ = buf.reader_step(ReadOutcome::Bytes(chunk));
        *next = n + 1;
        Ok(())
    } else if fault_at_end {
        buf.reader_step(ReadOutcome::Fault).map(|_b: bool| ())
    } else {
        let empty: Vec<u8> = Vec::new();
        proof {
            assert(views@.subrange(0, n as int) =~= views@);
        }
        let _ = buf.reader_step(ReadOutcome::Bytes(empty.as_slice()));
        Ok(())
    }
}

/// One writer visit: writes what it took and shows the counter.
fn writer_visit(
    buf: &mut TransferBuffer,
    file: &mut Vec<u8>,
    positions: &mut Vec<u64>,
    writer_stopped: &mut bool,
)
    requires
        old(buf).wf(),
        !*old(writer_stopped),
        old(file)@ == old(buf).delivered(),
        non_decreasing(old(positions)@),
        forall|i: int| 0 <= i < old(positions)@.len() ==> old(positions)@[i] <= old(buf).counter(),
    ensures
        final(buf).wf(),
        final(buf).received() == old(buf).received(),
        final(buf).counter() == old(buf).counter(),
        final(buf).done() == old(buf).done(),
        final(file)@ == final(buf).delivered(),
        non_decreasing(final(positions)@),
        forall|i: int| 0 <= i < final(positions)@.len() ==> final(positions)@[i] <= final(buf).counter(),
        final(positions)@.len() > 0,
        final(positions)@.last() == final(buf).counter(),
        *final(writer_stopped) == old(buf).done(),
        *final(writer_stopped) ==> final(buf).delivered() == final(buf).received(),
{
    let turn: WriterTurn = buf.writer_turn();
    let mut bytes = turn.bytes;
    file.append(&mut bytes);
    positions.push(turn.position);
    *writer_stopped = turn.finished;
}

} // verus!
