use scp_transfer::transfer::{
    TransferAction, TransferMachine, TransferPhase, TransferStep, CHUNK_SIZE,
};

/// Drive a machine through the whole streaming loop for a well-behaved
/// file of `size` bytes, returning the chunk lengths written and the
/// progress values observed after each write.
fn stream(m: &mut TransferMachine, size: u64) -> (Vec<u64>, Vec<u64>) {
    let mut written = Vec::new();
    let mut observed = Vec::new();
    let mut remaining = size;
    loop {
        match m.action() {
            TransferAction::ReadChunk => {
                let n = remaining.min(CHUNK_SIZE);
                remaining -= n;
                m.on_read(n as usize);
            }
            TransferAction::WriteChunk { len } => {
                written.push(len);
                m.on_write_result(true);
                observed.push(m.progress());
            }
            _ => return (written, observed),
        }
    }
}

/// Drive the four-step shutdown to completion.
fn shutdown(m: &mut TransferMachine) -> Vec<TransferAction> {
    let mut steps = Vec::new();
    loop {
        match m.action() {
            a @ (TransferAction::SendEof
            | TransferAction::WaitEof
            | TransferAction::CloseChannel
            | TransferAction::WaitClose) => {
                steps.push(a);
                m.on_shutdown_result(true);
            }
            _ => return steps,
        }
    }
}

#[test]
fn twenty_thousand_bytes_make_three_chunks() {
    let mut m = TransferMachine::new(20000);
    let (written, observed) = stream(&mut m, 20000);
    assert_eq!(written, vec![8192, 8192, 3616]);
    assert_eq!(observed, vec![8192, 16384, 20000]);
    assert_eq!(m.progress(), 20000);
    assert_eq!(m.action(), TransferAction::SendEof);
}

#[test]
fn chunk_sums_match_declared_size() {
    for size in [1u64, 8191, 8192, 8193, 16384, 20000, 100000] {
        let mut m = TransferMachine::new(size);
        let (written, _) = stream(&mut m, size);
        assert_eq!(written.iter().sum::<u64>(), size);
        assert!(written.iter().all(|&c| 0 < c && c <= CHUNK_SIZE));
        assert_eq!(m.progress(), size);
    }
}

#[test]
fn empty_file_performs_zero_writes() {
    let mut m = TransferMachine::new(0);
    let (written, observed) = stream(&mut m, 0);
    assert!(written.is_empty());
    assert!(observed.is_empty());
    assert_eq!(m.progress(), 0);
    // The loop moves directly to shutdown and the transfer completes.
    assert_eq!(m.action(), TransferAction::SendEof);
    shutdown(&mut m);
    assert_eq!(m.action(), TransferAction::ReportComplete);
}

#[test]
fn progress_is_monotonic_and_bounded() {
    let mut m = TransferMachine::new(50000);
    let (_, observed) = stream(&mut m, 50000);
    let mut last = 0;
    for &p in &observed {
        assert!(p >= last);
        assert!(p <= 50000);
        last = p;
    }
    assert_eq!(last, 50000);
}

#[test]
fn shutdown_steps_in_exact_order() {
    let mut m = TransferMachine::new(0);
    stream(&mut m, 0);
    let steps = shutdown(&mut m);
    assert_eq!(
        steps,
        vec![
            TransferAction::SendEof,
            TransferAction::WaitEof,
            TransferAction::CloseChannel,
            TransferAction::WaitClose,
        ]
    );
    assert_eq!(m.action(), TransferAction::ReportComplete);
    assert!(m.is_terminal());
}

#[test]
fn shutdown_failure_surfaces_the_failing_step() {
    let failing_steps = [
        TransferStep::SendEof,
        TransferStep::WaitEof,
        TransferStep::CloseChannel,
        TransferStep::WaitClose,
    ];
    for (fail_at, expected) in failing_steps.iter().enumerate() {
        let mut m = TransferMachine::new(0);
        stream(&mut m, 0);
        for step in 0..=fail_at {
            m.on_shutdown_result(step != fail_at);
        }
        // The failure is reported, not swallowed, and nothing follows it.
        assert_eq!(
            m.action(),
            TransferAction::ReportFailure { during: *expected }
        );
        assert!(m.is_terminal());
        assert_eq!(m.phase, TransferPhase::Failed { during: *expected });
    }
}

#[test]
fn write_failure_aborts_the_transfer() {
    let mut m = TransferMachine::new(20000);
    m.on_read(8192);
    assert_eq!(m.action(), TransferAction::WriteChunk { len: 8192 });
    m.on_write_result(false);
    assert_eq!(
        m.action(),
        TransferAction::ReportFailure {
            during: TransferStep::WriteChunk
        }
    );
    assert_eq!(m.progress(), 0);
}

#[test]
fn overlong_read_aborts_the_transfer() {
    // The declared length is authoritative: a file that yields more bytes
    // than were declared cannot be streamed.
    let mut m = TransferMachine::new(100);
    m.on_read(512);
    assert_eq!(
        m.action(),
        TransferAction::ReportFailure {
            during: TransferStep::ReadChunk
        }
    );
}

#[test]
fn short_file_then_eof_still_moves_to_shutdown() {
    // A read of zero bytes ends the loop even before the declared size is
    // reached; the counter keeps what was actually written.
    let mut m = TransferMachine::new(10000);
    m.on_read(8192);
    m.on_write_result(true);
    m.on_read(0);
    assert_eq!(m.action(), TransferAction::SendEof);
    assert_eq!(m.progress(), 8192);
}
