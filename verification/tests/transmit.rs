use swindle::handle_connection::{on_read, GdbAction, LocalContext, ReadOutcome, SendOutcome, TxStep, TX_BUFFER_SIZE};

fn bytes(n: usize, seed: u8) -> Vec<u8> {
    (0..n).map(|i| seed.wrapping_add(i as u8)).collect()
}

/// Runs a step to its end with a socket that takes `chunk` bytes per call,
/// collecting what went out.
fn drive(ctx: &mut LocalContext, mut step: TxStep, chunk: usize, out: &mut Vec<u8>) -> bool {
    loop {
        match step {
            TxStep::Done(ok) => return ok,
            TxStep::Send(fd) => {
                assert_eq!(fd, 7);
                let unsent = ctx.unsent().to_vec();
                assert!(!unsent.is_empty());
                let n = chunk.min(unsent.len());
                out.extend_from_slice(&unsent[..n]);
                step = ctx.on_send(SendOutcome::Sent(n));
            }
        }
    }
}

#[test]
fn new_context_has_no_transfer() {
    let mut ctx = LocalContext::new();
    assert!(!ctx.in_transfer());
    assert_eq!(ctx.flush(), TxStep::Done(true));
    assert_eq!(TX_BUFFER_SIZE, 256);
}

#[test]
fn small_pushes_are_buffered_until_flush() {
    let mut ctx = LocalContext::new();
    ctx.start(7);
    let a = bytes(10, 1);
    let b = bytes(20, 50);
    assert_eq!(ctx.push(&a), TxStep::Done(true));
    assert_eq!(ctx.push(&b), TxStep::Done(true));
    assert!(!ctx.in_transfer());
    let mut out = Vec::new();
    let step = ctx.flush();
    assert_eq!(step, TxStep::Send(7));
    assert!(drive(&mut ctx, step, 1000, &mut out));
    let mut expected = a.clone();
    expected.extend_from_slice(&b);
    assert_eq!(out, expected);
    assert_eq!(ctx.flush(), TxStep::Done(true));
}

#[test]
fn push_that_does_not_fit_flushes_first() {
    let mut ctx = LocalContext::new();
    ctx.start(7);
    let a = bytes(200, 3);
    let b = bytes(100, 9);
    assert_eq!(ctx.push(&a), TxStep::Done(true));
    let step = ctx.push(&b);
    assert_eq!(step, TxStep::Send(7));
    assert_eq!(ctx.unsent(), &a[..]);
    let mut out = Vec::new();
    assert!(drive(&mut ctx, step, 1000, &mut out));
    assert_eq!(out, a);
    let step = ctx.flush();
    assert!(drive(&mut ctx, step, 1000, &mut out));
    let mut expected = a.clone();
    expected.extend_from_slice(&b);
    assert_eq!(out, expected);
}

#[test]
fn exact_fill_also_flushes() {
    let mut ctx = LocalContext::new();
    ctx.start(7);
    assert_eq!(ctx.push(&bytes(100, 0)), TxStep::Done(true));
    // 100 + 156 reaches the buffer size: the buffer is written out first
    assert_eq!(ctx.push(&bytes(156, 0)), TxStep::Send(7));
}

#[test]
fn large_push_goes_out_directly_in_pieces() {
    let mut ctx = LocalContext::new();
    ctx.start(7);
    let data = bytes(300, 11);
    let step = ctx.push(&data);
    assert_eq!(step, TxStep::Send(7));
    assert_eq!(ctx.unsent(), &data[..]);
    assert_eq!(ctx.on_send(SendOutcome::Sent(100)), TxStep::Send(7));
    assert_eq!(ctx.unsent(), &data[100..]);
    assert_eq!(ctx.on_send(SendOutcome::Interrupted), TxStep::Send(7));
    assert_eq!(ctx.unsent(), &data[100..]);
    assert_eq!(ctx.on_send(SendOutcome::Sent(200)), TxStep::Done(true));
    assert!(!ctx.in_transfer());
}

#[test]
fn large_push_after_buffered_bytes_keeps_order() {
    let mut ctx = LocalContext::new();
    ctx.start(7);
    let a = bytes(30, 200);
    let b = bytes(400, 17);
    assert_eq!(ctx.push(&a), TxStep::Done(true));
    let step = ctx.push(&b);
    let mut out = Vec::new();
    assert!(drive(&mut ctx, step, 64, &mut out));
    let mut expected = a.clone();
    expected.extend_from_slice(&b);
    assert_eq!(out, expected);
    assert_eq!(ctx.flush(), TxStep::Done(true));
}

#[test]
fn failed_send_drops_the_socket() {
    let mut ctx = LocalContext::new();
    ctx.start(7);
    let step = ctx.push(&bytes(300, 0));
    assert_eq!(step, TxStep::Send(7));
    assert_eq!(ctx.on_send(SendOutcome::Failed), TxStep::Done(false));
    assert!(!ctx.in_transfer());
    // the socket is gone: large writes fail at once, small ones are buffered
    assert_eq!(ctx.push(&bytes(300, 0)), TxStep::Done(false));
    assert_eq!(ctx.push(&bytes(10, 0)), TxStep::Done(true));
    assert_eq!(ctx.flush(), TxStep::Done(false));
    assert_eq!(ctx.flush(), TxStep::Done(true));
}

#[test]
fn closed_peer_fails_the_write() {
    let mut ctx = LocalContext::new();
    ctx.start(7);
    ctx.push(&bytes(50, 0));
    assert_eq!(ctx.flush(), TxStep::Send(7));
    assert_eq!(ctx.on_send(SendOutcome::Sent(0)), TxStep::Done(false));
    assert_eq!(ctx.push(&bytes(256, 0)), TxStep::Done(false));
}

#[test]
fn flush_failure_drops_the_data_that_waited() {
    let mut ctx = LocalContext::new();
    ctx.start(7);
    ctx.push(&bytes(200, 0));
    assert_eq!(ctx.push(&bytes(100, 0)), TxStep::Send(7));
    assert_eq!(ctx.on_send(SendOutcome::Failed), TxStep::Done(false));
    // neither the flushed bytes nor the new data stay in the buffer
    ctx.start(8);
    assert_eq!(ctx.flush(), TxStep::Done(true));
}

#[test]
fn stop_and_restart_clear_the_buffer() {
    let mut ctx = LocalContext::new();
    ctx.start(7);
    ctx.push(&bytes(40, 0));
    ctx.stop();
    assert_eq!(ctx.flush(), TxStep::Done(true));
    ctx.start(7);
    ctx.push(&bytes(40, 0));
    ctx.start(9);
    assert_eq!(ctx.flush(), TxStep::Done(true));
    assert_eq!(ctx.push(&bytes(256, 0)), TxStep::Send(9));
}

#[test]
fn no_socket_no_send() {
    let mut ctx = LocalContext::new();
    assert_eq!(ctx.push(&bytes(255, 0)), TxStep::Done(true));
    assert_eq!(ctx.push(&bytes(1, 0)), TxStep::Done(false));
    assert_eq!(ctx.push(&bytes(1000, 0)), TxStep::Done(false));
}

#[test]
fn read_outcomes() {
    assert_eq!(on_read(ReadOutcome::Bytes(12)), GdbAction::Feed(12));
    assert_eq!(on_read(ReadOutcome::Bytes(0)), GdbAction::Detach);
    assert_eq!(on_read(ReadOutcome::TimedOut), GdbAction::Poll);
    assert_eq!(on_read(ReadOutcome::Error), GdbAction::Detach);
}
