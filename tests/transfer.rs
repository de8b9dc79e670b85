use fileops::pipeline::{join_outcome, run_transfer, TransferReport};
use fileops::progress::{reporter_style, ProgressTarget};
use fileops::transfer::{DownloadError, ReadOutcome, TransferBuffer};

fn pattern_chunks(sizes: &[usize]) -> Vec<Vec<u8>> {
    let mut out = Vec::new();
    let mut k: u32 = 0;
    for &n in sizes {
        let mut c = Vec::new();
        for _ in 0..n {
            c.push((k % 251) as u8);
            k += 1;
        }
        out.push(c);
    }
    out
}

fn concat(chunks: &[Vec<u8>]) -> Vec<u8> {
    chunks.iter().flatten().copied().collect()
}

fn assert_monotone(report: &TransferReport) {
    for w in report.positions.windows(2) {
        assert!(w[0] <= w[1]);
    }
}

#[test]
fn known_size_download() {
    let target = ProgressTarget::from_length(Some(1024));
    assert_eq!(target, ProgressTarget::Bounded(1024));
    assert!(!target.is_unbounded());
    let mut sizes = vec![100usize; 10];
    sizes.push(24);
    let chunks = pattern_chunks(&sizes);
    let turns: Vec<bool> = (0..22).map(|i| i % 2 == 0).collect();
    let report = run_transfer(&chunks, false, &turns);
    assert_eq!(report.file.len(), 1024);
    assert_eq!(report.file, concat(&chunks));
    assert_eq!(*report.positions.last().unwrap(), 1024);
    assert_eq!(report.outcome, Ok(()));
    assert_monotone(&report);
}

#[test]
fn unknown_size_download() {
    let target = ProgressTarget::from_length(None);
    assert_eq!(target, ProgressTarget::Unbounded);
    assert!(target.is_unbounded());
    let chunks = pattern_chunks(&[50, 50, 50]);
    let report = run_transfer(&chunks, false, &vec![true, false, true, true, false]);
    assert_eq!(report.file.len(), 150);
    assert_eq!(report.file, concat(&chunks));
    assert_eq!(*report.positions.last().unwrap(), 150);
    assert_eq!(report.outcome, Ok(()));
}

#[test]
fn mid_stream_network_failure() {
    let chunks = pattern_chunks(&[120, 80]);
    let report = run_transfer(&chunks, true, &vec![true, false, true]);
    assert_eq!(report.outcome, Err(DownloadError::Network));
    assert_eq!(report.file.len(), 200);
    assert_eq!(report.file, concat(&chunks));
}

#[test]
fn ordering_kept_under_any_schedule() {
    let chunks = pattern_chunks(&[7, 1, 300, 64, 9, 2, 500]);
    let expected = concat(&chunks);
    let schedules: Vec<Vec<bool>> = vec![
        vec![],
        vec![false; 10],
        vec![true; 10],
        vec![true, false, true, false, true, false, true, false, true, false, true, false],
        vec![false, true, true, false, false, true, false, true, true, true, false],
    ];
    for turns in &schedules {
        let report = run_transfer(&chunks, false, turns);
        assert_eq!(report.file, expected);
        assert_monotone(&report);
    }
}

#[test]
fn slow_writer_loses_nothing() {
    let chunks = pattern_chunks(&[4096, 4096, 4096, 100, 8192, 1]);
    let mut turns = vec![true; 5];
    turns.push(false);
    turns.push(true);
    turns.push(true);
    let report = run_transfer(&chunks, false, &turns);
    assert_eq!(report.file, concat(&chunks));
    assert_eq!(report.positions, vec![4096 * 3 + 100 + 8192, 4096 * 3 + 100 + 8192 + 1]);
}

#[test]
fn empty_source_gives_empty_file() {
    let chunks: Vec<Vec<u8>> = Vec::new();
    let report = run_transfer(&chunks, false, &vec![false, true, false]);
    assert!(report.file.is_empty());
    assert_eq!(report.positions, vec![0, 0]);
    assert_eq!(report.outcome, Ok(()));
}

#[test]
fn progress_counter_never_decreases() {
    let chunks = pattern_chunks(&[10, 20, 30, 40]);
    let turns = vec![false, true, false, false, true, true, false, true, false, true, false];
    let report = run_transfer(&chunks, false, &turns);
    assert_eq!(report.positions, vec![0, 10, 10, 60, 100, 100]);
    assert_monotone(&report);
}

#[test]
fn buffer_append_then_drain() {
    let mut b = TransferBuffer::new();
    assert_eq!(b.bytes_transferred(), 0);
    assert!(!b.is_done());
    b.append(&[1, 2, 3]);
    b.append(&[4]);
    assert_eq!(b.bytes_transferred(), 4);
    assert_eq!(b.drain(), vec![1, 2, 3, 4]);
    assert!(b.drain().is_empty());
    assert_eq!(b.bytes_transferred(), 4);
    b.mark_done();
    assert!(b.is_done());
}

#[test]
fn reader_steps_and_writer_turns() {
    let mut b = TransferBuffer::new();
    assert_eq!(b.reader_step(ReadOutcome::Bytes(&[9, 8])), Ok(true));
    let t = b.writer_turn();
    assert_eq!(t.bytes, vec![9, 8]);
    assert_eq!(t.position, 2);
    assert!(!t.finished);
    assert_eq!(b.reader_step(ReadOutcome::Bytes(&[])), Ok(false));
    assert!(b.is_done());
    let t = b.writer_turn();
    assert!(t.bytes.is_empty());
    assert!(t.finished);
}

#[test]
fn reader_fault_stops_reader() {
    let mut b = TransferBuffer::new();
    assert_eq!(b.reader_step(ReadOutcome::Bytes(&[1])), Ok(true));
    assert_eq!(b.reader_step(ReadOutcome::Fault), Err(DownloadError::Network));
    assert!(b.is_done());
    let t = b.writer_turn();
    assert_eq!(t.bytes, vec![1]);
    assert!(t.finished);
}

#[test]
fn reader_error_wins_when_both_fail() {
    assert_eq!(
        join_outcome(Err(DownloadError::Network), Err(DownloadError::Filesystem)),
        Err(DownloadError::Network)
    );
    assert_eq!(join_outcome(Ok(()), Err(DownloadError::Filesystem)), Err(DownloadError::Filesystem));
    assert_eq!(join_outcome(Err(DownloadError::ProgressRender), Ok(())), Err(DownloadError::ProgressRender));
    assert_eq!(join_outcome::<DownloadError>(Ok(()), Ok(())), Ok(()));
}

#[test]
fn both_progress_styles_build() {
    assert!(reporter_style(ProgressTarget::Bounded(1024)).is_ok());
    assert!(reporter_style(ProgressTarget::Unbounded).is_ok());
}
