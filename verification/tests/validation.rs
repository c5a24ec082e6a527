use cc_bridge::bridge::CCInterface;
use cc_bridge::data::{BoardField, BridgeError, Options};
use cc_bridge::worker::EngineCall;

fn grid(rows: usize, cols: usize) -> Vec<Vec<bool>> {
    vec![vec![false; cols]; rows]
}

#[test]
fn default_options_enable_hold() {
    assert!(Options::default().use_hold);
}

#[test]
fn every_known_piece_identifier_decodes() {
    for c in ['I', 'O', 'T', 'L', 'J', 'S', 'Z'] {
        let mut b = CCInterface::launch(Options { use_hold: true });
        assert!(b.add_next_piece(c).is_ok(), "piece {c} should decode");
    }
}

#[test]
fn unknown_piece_identifiers_fail_to_decode() {
    for c in ['X', 'i', 'o', '1', ' '] {
        let mut b = CCInterface::launch(Options { use_hold: true });
        assert_eq!(b.add_next_piece(c), Err(BridgeError::Decode), "char {c:?}");
    }
}

#[test]
fn reset_with_39_rows_is_an_argument_error() {
    let mut b = CCInterface::launch(Options { use_hold: true });
    assert_eq!(b.reset(grid(39, 10), false, 0), Err(BridgeError::Argument { rows: 39 }));
    // The failed call enqueued nothing: no command ever reaches the worker.
    assert_eq!(b.pending_commands(), 0);
}

#[test]
fn reset_with_41_rows_is_an_argument_error() {
    let mut b = CCInterface::launch(Options { use_hold: true });
    assert_eq!(b.reset(grid(41, 10), true, 7), Err(BridgeError::Argument { rows: 41 }));
    assert_eq!(b.pending_commands(), 0);
}

#[test]
fn reset_with_a_narrow_row_is_a_decode_error() {
    let mut b = CCInterface::launch(Options { use_hold: true });
    let mut bad = grid(40, 10);
    bad[17] = vec![false; 9];
    assert_eq!(b.reset(bad, false, 0), Err(BridgeError::Decode));
    assert_eq!(b.pending_commands(), 0);
}

#[test]
fn row_shape_errors_take_precedence_over_row_count() {
    // A malformed row fails to decode even when the row count is also
    // wrong: the shape of the rows is checked first.
    let mut b = CCInterface::launch(Options { use_hold: true });
    let mut bad = grid(39, 10);
    bad[5] = vec![true; 11];
    assert_eq!(b.reset(bad, false, 0), Err(BridgeError::Decode));
}

#[test]
fn well_formed_grid_is_accepted_and_forwarded_verbatim() {
    let mut b = CCInterface::launch(Options { use_hold: false });
    b.add_next_piece('T').unwrap();
    b.add_next_piece('S').unwrap();
    b.process_next();
    b.process_next();
    b.finish_construction();

    let mut g = grid(40, 10);
    g[39][9] = true;
    g[0][0] = true;
    let t = b.reset(g.clone(), true, 3).unwrap();
    let step = b.process_next();
    match step.call {
        Some(EngineCall::Reset { field, back_to_back, combo }) => {
            assert_eq!(field.rows, g);
            assert!(back_to_back);
            assert_eq!(combo, 3);
        }
        _ => panic!("expected the grid to be forwarded"),
    }
    assert_eq!(step.acknowledged.unwrap().index, t.index);
}

#[test]
fn board_field_validation_is_exact() {
    assert!(BoardField::from_rows(grid(40, 10)).is_ok());
    assert!(matches!(
        BoardField::from_rows(grid(39, 10)),
        Err(BridgeError::Argument { rows: 39 })
    ));
    assert!(matches!(BoardField::from_rows(grid(40, 11)), Err(BridgeError::Decode)));
    assert!(matches!(BoardField::from_rows(Vec::new()), Err(BridgeError::Argument { rows: 0 })));
}
