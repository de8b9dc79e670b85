//! The shared transfer buffer between the network reader and the disk writer,
//! and the steps each of the two workers takes on it.

use vstd::prelude::*;

verus! {

/// Where a failed download went wrong.
#[derive(Clone, Copy, Debug, PartialEq, Eq, Structural)]
pub enum DownloadError {
    /// Connection, HTTP status, or a read fault in the middle of the stream.
    Network,
    /// The destination file could not be created or written.
    Filesystem,
    /// The progress display could not be built from its template.
    ProgressRender,
}

/// What one read from the network gave: a chunk of bytes (empty at the end
/// of the stream) or a fault.
pub enum ReadOutcome<'a> {
    Bytes(&'a [u8]),
    Fault,
}

/// What the writer takes away from one visit to the buffer.
pub struct WriterTurn {
    /// The bytes to write to the file next.
    pub bytes: Vec<u8>,
    /// The counter value to show on the progress display.
    pub position: u64,
    /// The reader had stopped, so nothing more will come after these bytes.
    pub finished: bool,
}

/// Bytes received from the network and not yet written to disk, with the
/// running count of received bytes and the flag that the reader has stopped.
pub struct TransferBuffer {
    pending: Vec<u8>,
    transferred: u64,
    reader_done: bool,
    received: Ghost<Seq<u8>>,
    delivered: Ghost<Seq<u8>>,
}

impl TransferBuffer {
    /// Every byte the reader has appended so far, in order.
    pub closed spec fn received(&self) -> Seq<u8> {
        self.received@
    }

    /// Every byte the writer has drained so far, in order.
    pub closed spec fn delivered(&self) -> Seq<u8> {
        self.delivered@
    }

    /// The bytes waiting to be drained.
    pub closed spec fn pending(&self) -> Seq<u8> {
        self.pending@
    }

    /// The counter shown to the progress display.
    pub closed spec fn counter(&self) -> nat {
        self.transferred as nat
    }

    /// Whether the reader has stopped.
    pub closed spec fn done(&self) -> bool {
        self.reader_done
    }

    /// What was drained followed by what is pending is exactly what was
    /// received, and the counter counts every received byte.
    pub open spec fn wf(&self) -> bool {
        &&& self.delivered() + self.pending() == self.received()
        &&& self.counter() == self.received().len()
        &&& self.counter() <= u64::MAX
    }

    /// An empty buffer at the start of a transfer.
    pub fn new() -> (r: TransferBuffer)
        ensures
            r.wf(),
            r.received() == Seq::<u8>::empty(),
            r.delivered() == Seq::<u8>::empty(),
            r.pending() == Seq::<u8>::empty(),
            r.counter() == 0,
            !r.done(),
    {
        let r = TransferBuffer {
            pending: Vec::new(),
            transferred: 0,
            reader_done: false,
            received: Ghost(Seq::empty()),
            delivered: Ghost(Seq::empty()),
        };
        proof {
            assert(r.delivered@ + r.pending@ =~= r.received@);
        }
        r
    }

    /// Appends a chunk received by the reader and counts its bytes.
    pub fn append(&mut self, chunk: &[u8])
        requires
            old(self).wf(),
            old(self).counter() + chunk@.len() <= u64::MAX,
        ensures
            final(self).wf(),
            final(self).received() == old(self).received() + chunk@,
            final(self).pending() == old(self).pending() + chunk@,
            final(self).delivered() == old(self).delivered(),
            final(self).counter() == old(self).counter() + chunk@.len(),
            final(self).done() == old(self).done(),
    {
        let ghost before = self.pending@;
        let mut i: usize = 0;
        while i < chunk.len()
            invariant
                i <= chunk@.len(),
                self.pending@ == before + chunk@.subrange(0, i as int),
                self.transferred == old(self).transferred,
                self.received == old(self).received,
                self.delivered == old(self).delivered,
                self.reader_done == old(self).reader_done,
                old(self).wf(),
                old(self).counter() + chunk@.len() <= u64::MAX,
            decreases chunk@.len() - i,
        {
            self.pending.push(chunk[i]);
            i = i + 1;
            proof {
                assert(self.pending@ =~= before + chunk@.subrange(0, i as int));
            }
        }
        proof {
            assert(chunk@.subrange(0, chunk@.len() as int) =~= chunk@);
        }
        self.transferred = self.transferred + chunk.len() as u64;
        self.received = Ghost(self.received@ + chunk@);
        proof {
            assert(self.delivered@ + self.pending@ =~= self.received@);
        }
    }

    /// Takes every pending byte out of the buffer in one step; the result is
    /// empty when nothing is pending.
    pub fn drain(&mut self) -> (r: Vec<u8>)
        requires
            old(self).wf(),
        ensures
            final(self).wf(),
            r@ == old(self).pending(),
            final(self).pending() == Seq::<u8>::empty(),
            final(self).delivered() == old(self).delivered() + r@,
            final(self).received() == old(self).received(),
            final(self).counter() == old(self).counter(),
            final(self).done() == old(self).done(),
    {
        let mut r: Vec<u8> = Vec::new();
        std::mem::swap(&mut r, &mut self.pending);
        self.delivered = Ghost(self.delivered@ + r@);
        proof {
            assert(self.delivered@ + self.pending@ =~= self.received@);
        }
        r
    }

    /// Records that the reader has stopped.
    pub fn mark_done(&mut self)
        requires
            old(self).wf(),
        ensures
            final(self).wf(),
            final(self).done(),
            final(self).received() == old(self).received(),
            final(self).pending() == old(self).pending(),
            final(self).delivered() == old(self).delivered(),
            final(self).counter() == old(self).counter(),
    {
        self.reader_done = true;
    }

    /// Whether the reader has stopped.
    pub fn is_done(&self) -> (r: bool)
        ensures
            r == self.done(),
    {
        self.reader_done
    }

    /// One step of the reader: a non-empty chunk is appended and reading goes
    /// on (`Ok(true)`); the end of the stream stops the reader (`Ok(false)`);
    /// a fault stops it too and is reported as a network error. The buffer is
    /// marked done on both ways out, so the writer always comes to an end.
    pub fn reader_step(&mut self, read: ReadOutcome) -> (r: Result<bool, DownloadError>)
        requires
            old(self).wf(),
            !old(self).done(),
            read is Bytes ==> old(self).counter() + read->Bytes_0@.len() <= u64::MAX,
        ensures
            final(self).wf(),
            final(self).delivered() == old(self).delivered(),
            match read {
                ReadOutcome::Bytes(b) => if b@.len() > 0 {
                    &&& r == Ok::<bool, DownloadError>(true)
                    &&& final(self).received() == old(self).received() + b@
                    &&& final(self).pending() == old(self).pending() + b@
                    &&& final(self).counter() == old(self).counter() + b@.len()
                    &&& !final(self).done()
                } else {
                    &&& r == Ok::<bool, DownloadError>(false)
                    &&& final(self).received() == old(self).received()
                    &&& final(self).pending() == old(self).pending()
                    &&& final(self).counter() == old(self).counter()
                    &&& final(self).done()
                },
                ReadOutcome::Fault => {
                    &&& r == Err::<bool, DownloadError>(DownloadError::Network)
                    &&& final(self).received() == old(self).received()
                    &&& final(self).pending() == old(self).pending()
                    &&& final(self).counter() == old(self).counter()
                    &&& final(self).done()
                },
            },
    {
        match read {
            ReadOutcome::Bytes(b) => {
                if b.len() > 0 {
                    self.append(b);
                    Ok(true)
                } else {
                    self.mark_done();
                    Ok(false)
                }
            },
            ReadOutcome::Fault => {
                self.mark_done();
                Err(DownloadError::Network)
            },
        }
    }

    /// One visit of the writer: takes every pending byte, the counter to
    /// show, and whether the reader had stopped, all in the same step. When
    /// `finished` is set, everything received has been handed to the writer.
    pub fn writer_turn(&mut self) -> (r: WriterTurn)
        requires
            old(self).wf(),
        ensures
            final(self).wf(),
            r.bytes@ == old(self).pending(),
            final(self).pending() == Seq::<u8>::empty(),
            final(self).delivered() == old(self).delivered() + r.bytes@,
            final(self).received() == old(self).received(),
            final(self).counter() == old(self).counter(),
            final(self).done() == old(self).done(),
            r.position == old(self).counter(),
            r.finished == old(self).done(),
            r.finished ==> final(self).delivered() == final(self).received(),
    {
        let bytes = self.drain();
        proof {
            assert(self.delivered@ =~= self.delivered@ + self.pending@);
        }
        WriterTurn { bytes, position: self.transferred, finished: self.reader_done }
    }

    /// The number of bytes received so far.
    pub fn bytes_transferred(&self) -> (r: u64)
        ensures
            r == self.counter(),
    {
        self.transferred
    }
}

} // verus!
