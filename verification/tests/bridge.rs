use cc_bridge::bridge::CCInterface;
use cc_bridge::data::{BridgeError, Options, Piece};
use cc_bridge::worker::EngineCall;

fn empty_field() -> Vec<Vec<bool>> {
    vec![vec![false; 10]; 40]
}


#[test]
fn launch_starts_uninitialized_and_open() {
    let b = CCInterface::launch(Options { use_hold: true });
    assert_eq!(b.pending_commands(), 0);
    assert!(!b.ready_to_process());
}

#[test]
fn request_move_while_initializing_is_acknowledged_without_effect() {
    // Zero pieces supplied: the worker cannot have an engine yet, so the
    // move request resolves with "no direct result" — no error, no hang,
    // and no engine call.
    let mut b = CCInterface::launch(Options { use_hold: true });
    let t = b.next_move(0).unwrap();
    assert_eq!(t.index, 0);
    let step = b.process_next();
    assert!(step.call.is_none());
    assert_eq!(step.acknowledged.unwrap().index, 0);
    assert!(!b.ready_to_process());
}

#[test]
fn initializing_ignores_reset_and_force_analysis() {
    let mut b = CCInterface::launch(Options { use_hold: true });
    let t0 = b.reset(empty_field(), false, 0).unwrap();
    let t1 = b.force_analysis_line(Vec::new()).unwrap();
    let s0 = b.process_next();
    let s1 = b.process_next();
    assert!(s0.call.is_none());
    assert!(s1.call.is_none());
    assert_eq!(s0.acknowledged.unwrap().index, t0.index);
    assert_eq!(s1.acknowledged.unwrap().index, t1.index);
    // The ignored commands consumed no piece: three pieces are still
    // needed before the engine is constructed.
    b.add_next_piece('I').unwrap();
    b.add_next_piece('O').unwrap();
    b.add_next_piece('T').unwrap();
    assert!(b.process_next().call.is_none());
    assert!(b.process_next().call.is_none());
    let s = b.process_next();
    assert!(matches!(s.call, Some(EngineCall::Construct { .. })));
}

#[test]
fn hold_enabled_needs_exactly_three_pieces() {
    let mut b = CCInterface::launch(Options { use_hold: true });
    b.add_next_piece('I').unwrap();
    b.add_next_piece('O').unwrap();
    let s0 = b.process_next();
    let s1 = b.process_next();
    assert!(s0.call.is_none() && s0.acknowledged.is_some());
    assert!(s1.call.is_none() && s1.acknowledged.is_some());
    b.add_next_piece('T').unwrap();
    let s2 = b.process_next();
    // The third piece completes the buffer: engine construction starts
    // with the pieces in submission order, and the triggering command's
    // slot stays pending until construction finishes.
    match s2.call {
        Some(EngineCall::Construct { next_pieces }) => {
            assert_eq!(next_pieces, vec![Piece::I, Piece::O, Piece::T]);
        }
        _ => panic!("expected engine construction"),
    }
    assert!(s2.acknowledged.is_none());
    let t = b.finish_construction();
    assert_eq!(t.index, 2);
}

#[test]
fn hold_disabled_needs_exactly_two_pieces() {
    let mut b = CCInterface::launch(Options { use_hold: false });
    b.add_next_piece('S').unwrap();
    let s0 = b.process_next();
    assert!(s0.call.is_none());
    b.add_next_piece('Z').unwrap();
    let s1 = b.process_next();
    match s1.call {
        Some(EngineCall::Construct { next_pieces }) => {
            assert_eq!(next_pieces, vec![Piece::S, Piece::Z]);
        }
        _ => panic!("expected engine construction"),
    }
    b.finish_construction();
}

fn launch_ready() -> CCInterface {
    let mut b = CCInterface::launch(Options { use_hold: false });
    b.add_next_piece('I').unwrap();
    b.add_next_piece('J').unwrap();
    b.process_next();
    b.process_next();
    b.finish_construction();
    b
}

#[test]
fn ready_forwards_every_command_in_order() {
    let mut b = launch_ready();
    let mut grid = empty_field();
    grid[0][3] = true;
    b.reset(grid.clone(), true, 4).unwrap();
    b.add_next_piece('L').unwrap();
    b.force_analysis_line(Vec::new()).unwrap();
    b.next_move(2).unwrap();

    let s0 = b.process_next();
    match s0.call {
        Some(EngineCall::Reset { field, back_to_back, combo }) => {
            assert_eq!(field.rows, grid);
            assert!(back_to_back);
            assert_eq!(combo, 4);
        }
        _ => panic!("expected a reset call"),
    }
    let s1 = b.process_next();
    assert!(matches!(s1.call, Some(EngineCall::AddNextPiece { .. })));
    let s2 = b.process_next();
    match s2.call {
        Some(EngineCall::ForceAnalysisLine { path }) => assert!(path.is_empty()),
        _ => panic!("expected a force-analysis call"),
    }
    let s3 = b.process_next();
    match s3.call {
        Some(EngineCall::RequestNextMove { incoming_garbage }) => {
            assert_eq!(incoming_garbage, 2)
        }
        _ => panic!("expected a move request"),
    }
    // The first three commands resolved at once; the move request is
    // answered only when the engine reports its result.
    assert!(s0.acknowledged.is_some() && s1.acknowledged.is_some() && s2.acknowledged.is_some());
    assert!(s3.acknowledged.is_none());
    let reply = b.finish_move(Some(99u32));
    assert_eq!(reply.outcome, Some(99));
}

#[test]
fn back_to_back_move_requests_are_strictly_sequential() {
    let mut b = launch_ready();
    let t0 = b.next_move(0).unwrap();
    let t1 = b.next_move(5).unwrap();
    let s0 = b.process_next();
    assert!(matches!(s0.call, Some(EngineCall::RequestNextMove { incoming_garbage: 0 })));
    // While the first computation is in flight the second request sits in
    // the queue: the worker refuses to take it.
    assert_eq!(b.pending_commands(), 1);
    assert!(!b.ready_to_process());
    let r0 = b.finish_move(Some(7u32));
    assert_eq!(r0.ticket.index, t0.index);
    assert_eq!(r0.outcome, Some(7));
    // Only now does the second computation begin.
    assert!(b.ready_to_process());
    let s1 = b.process_next();
    assert!(matches!(s1.call, Some(EngineCall::RequestNextMove { incoming_garbage: 5 })));
    let r1 = b.finish_move::<u32>(None);
    assert_eq!(r1.ticket.index, t1.index);
    assert_eq!(r1.outcome, None);
}

#[test]
fn engine_death_is_a_normal_response() {
    let mut b = launch_ready();
    b.next_move(0).unwrap();
    b.process_next();
    let reply = b.finish_move::<u32>(None);
    assert_eq!(reply.outcome, None);
    // The worker survives and keeps serving commands.
    b.add_next_piece('T').unwrap();
    let s = b.process_next();
    assert!(matches!(s.call, Some(EngineCall::AddNextPiece { .. })));
}

#[test]
fn closed_handle_rejects_new_commands() {
    let mut b = launch_ready();
    b.close();
    assert_eq!(b.next_move(0), Err(BridgeError::WorkerUnavailable));
    assert_eq!(b.add_next_piece('I'), Err(BridgeError::WorkerUnavailable));
    assert_eq!(b.reset(empty_field(), false, 0), Err(BridgeError::WorkerUnavailable));
    assert_eq!(b.force_analysis_line(Vec::new()), Err(BridgeError::WorkerUnavailable));
}

#[test]
fn closing_mid_computation_loses_no_command() {
    let mut b = launch_ready();
    let mut tickets = Vec::new();
    tickets.push(b.next_move(1).unwrap());
    tickets.push(b.add_next_piece('O').unwrap());
    tickets.push(b.force_analysis_line(Vec::new()).unwrap());
    // The worker is mid-computation on the first command when the handle
    // closes; the two commands submitted before closure must still be
    // processed and resolved.
    let s0 = b.process_next();
    assert!(matches!(s0.call, Some(EngineCall::RequestNextMove { .. })));
    b.close();
    let mut resolved = Vec::new();
    let r = b.finish_move(Some(3u32));
    resolved.push(r.ticket);
    while b.ready_to_process() {
        let s = b.process_next();
        if let Some(t) = s.acknowledged {
            resolved.push(t);
        }
    }
    let expected: Vec<usize> = tickets.iter().map(|t| t.index).collect();
    let got: Vec<usize> = resolved.iter().map(|t| t.index).collect();
    assert_eq!(got, expected);
    assert_eq!(b.pending_commands(), 0);
}
