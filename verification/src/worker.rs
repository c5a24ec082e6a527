//! The worker state machine: what each command means in each state, which
//! engine calls it causes, and whether its response slot is resolved
//! immediately or only after an engine operation completes.

use vstd::prelude::*;
use crate::data::{BoardField, FallingPiece, Piece};

verus! {

/// One caller request, already validated at the bridge boundary.
pub enum Command {
    /// Replace the engine's playfield, back-to-back state and combo count.
    Reset { field: BoardField, back_to_back: bool, combo: u32 },
    /// Append a piece to the queue of upcoming pieces.
    NewPiece { piece: Piece },
    /// Ask the engine for its next move, given incoming garbage.
    NextMove { incoming_garbage: u32 },
    /// Have the engine analyze this line of placements before moving.
    ForceAnalysisLine { path: Vec<FallingPiece> },
}

/// One call the worker makes into the engine, in the order the worker
/// issues them. The consumer of the bridge performs these against the real
/// engine and, for the asynchronous ones (`Construct`, `RequestNextMove`),
/// reports completion back to the bridge.
pub enum EngineCall {
    /// Construct the engine from the buffered opening pieces (and the
    /// launch configuration the caller holds). Asynchronous.
    Construct { next_pieces: Vec<Piece> },
    /// Reset the engine's field, back-to-back state and combo count.
    Reset { field: BoardField, back_to_back: bool, combo: u32 },
    /// Feed one more upcoming piece to the engine.
    AddNextPiece { piece: Piece },
    /// Start computing the next move; the result arrives asynchronously.
    RequestNextMove { incoming_garbage: u32 },
    /// Have the engine analyze the given placement line.
    ForceAnalysisLine { path: Vec<FallingPiece> },
}

/// The mathematical shape of an engine call.
pub enum CallView {
    Construct { next_pieces: Seq<Piece> },
    Reset { field: Seq<Seq<bool>>, back_to_back: bool, combo: u32 },
    AddNextPiece { piece: Piece },
    RequestNextMove { incoming_garbage: u32 },
    ForceAnalysisLine { path: Seq<FallingPiece> },
}

impl View for EngineCall {
    type V = CallView;

    open spec fn view(&self) -> CallView {
        match self {
            EngineCall::Construct { next_pieces } => CallView::Construct {
                next_pieces: next_pieces@,
            },
            EngineCall::Reset { field, back_to_back, combo } => CallView::Reset {
                field: field@,
                back_to_back: *back_to_back,
                combo: *combo,
            },
            EngineCall::AddNextPiece { piece } => CallView::AddNextPiece { piece: *piece },
            EngineCall::RequestNextMove { incoming_garbage } => CallView::RequestNextMove {
                incoming_garbage: *incoming_garbage,
            },
            EngineCall::ForceAnalysisLine { path } => CallView::ForceAnalysisLine { path: path@ },
        }
    }
}

/// The worker's state, as the single consumer task holds it. The two
/// `Awaiting` states are the worker's only suspension points: while in one
/// of them no further command is taken.
pub enum WorkerState {
    /// Buffering opening pieces; the engine does not exist yet.
    Initializing { queued: Vec<Piece>, pieces_still_needed: u32 },
    /// The piece that completed the buffer arrived; engine construction is
    /// in flight.
    AwaitingConstruction,
    /// The engine exists and every command is forwarded to it.
    Ready,
    /// A move computation is in flight.
    AwaitingMove,
}

/// The command-level view of the worker state: suspension points are
/// transient, so a state awaiting the engine counts as `Ready` (that is
/// what it becomes once the pending engine operation completes).
pub enum WView {
    Initializing { queued: Seq<Piece>, needed: int },
    Ready,
}

/// Command-level view of a concrete worker state.
pub open spec fn state_view(w: WorkerState) -> WView {
    match w {
        WorkerState::Initializing { queued, pieces_still_needed } => WView::Initializing {
            queued: queued@,
            needed: pieces_still_needed as int,
        },
        WorkerState::AwaitingConstruction => WView::Ready,
        WorkerState::Ready => WView::Ready,
        WorkerState::AwaitingMove => WView::Ready,
    }
}

/// The state the worker starts in: an empty piece buffer, needing three
/// pieces when hold is enabled and two otherwise (hold consumes one extra
/// piece of lookahead before the engine can commit to a first move).
pub open spec fn init_state(use_hold: bool) -> WView {
    WView::Initializing { queued: Seq::empty(), needed: if use_hold { 3int } else { 2int } }
}

/// The state after processing one command. While initializing, only
/// `NewPiece` has an effect: it extends the buffer, and the piece that
/// brings the buffer to the configured count constructs the engine. Once
/// ready, no command changes the command-level state again.
pub open spec fn next_state(w: WView, c: Command) -> WView {
    match w {
        WView::Initializing { queued, needed } => match c {
            Command::NewPiece { piece } => if needed <= 1 {
                WView::Ready
            } else {
                WView::Initializing { queued: queued.push(piece), needed: needed - 1 }
            },
            _ => w,
        },
        WView::Ready => WView::Ready,
    }
}

/// The engine call a command forwarded in the ready state becomes.
pub open spec fn ready_call(c: Command) -> CallView {
    match c {
        Command::Reset { field, back_to_back, combo } => CallView::Reset {
            field: field@,
            back_to_back,
            combo,
        },
        Command::NewPiece { piece } => CallView::AddNextPiece { piece },
        Command::NextMove { incoming_garbage } => CallView::RequestNextMove { incoming_garbage },
        Command::ForceAnalysisLine { path } => CallView::ForceAnalysisLine { path: path@ },
    }
}

/// The engine calls processing one command causes: none while the worker
/// is initializing, except that the piece completing the buffer constructs
/// the engine; exactly one forwarded call once the worker is ready.
pub open spec fn calls_of(w: WView, c: Command) -> Seq<CallView> {
    match w {
        WView::Initializing { queued, needed } => match c {
            Command::NewPiece { piece } => if needed <= 1 {
                seq![CallView::Construct { next_pieces: queued.push(piece) }]
            } else {
                Seq::empty()
            },
            _ => Seq::empty(),
        },
        WView::Ready => seq![ready_call(c)],
    }
}

/// Whether a command's response slot is resolved within the same processing
/// step. The two exceptions suspend the worker: the piece that triggers
/// engine construction, and a move request in the ready state; their slots
/// resolve only when the pending engine operation completes.
pub open spec fn resolves_now(w: WView, c: Command) -> bool {
    !(w matches WView::Initializing { needed, .. } && c is NewPiece && needed <= 1)
        && !(w is Ready && c is NextMove)
}

/// The state after processing a whole sequence of commands in order.
pub open spec fn run(w: WView, cmds: Seq<Command>) -> WView
    decreases cmds.len(),
{
    if cmds.len() == 0 {
        w
    } else {
        run(next_state(w, cmds[0]), cmds.drop_first())
    }
}

/// The engine calls processing a whole sequence of commands causes, in
/// the order they are issued.
pub open spec fn run_calls(w: WView, cmds: Seq<Command>) -> Seq<CallView>
    decreases cmds.len(),
{
    if cmds.len() == 0 {
        Seq::empty()
    } else {
        calls_of(w, cmds[0]) + run_calls(next_state(w, cmds[0]), cmds.drop_first())
    }
}

/// Processing commands one at a time agrees with processing them as a
/// sequence: one more command means one more step on the final state, and
/// its calls are appended after all earlier ones.
pub proof fn lemma_run_snoc(w: WView, cmds: Seq<Command>, c: Command)
    ensures
        run(w, cmds.push(c)) == next_state(run(w, cmds), c),
        run_calls(w, cmds.push(c)) == run_calls(w, cmds) + calls_of(run(w, cmds), c),
    decreases cmds.len(),
{
    reveal_with_fuel(run, 3);
    reveal_with_fuel(run_calls, 3);
    if cmds.len() == 0 {
        assert(cmds.push(c)[0] == c);
        assert(cmds.push(c).drop_first() =~= Seq::<Command>::empty());
        assert(run_calls(w, cmds.push(c)) =~= run_calls(w, cmds) + calls_of(run(w, cmds), c));
    } else {
        assert(cmds.push(c)[0] == cmds[0]);
        assert(cmds.push(c).drop_first() =~= cmds.drop_first().push(c));
        lemma_run_snoc(next_state(w, cmds[0]), cmds.drop_first(), c);
        assert(run_calls(w, cmds.push(c)) =~= run_calls(w, cmds) + calls_of(run(w, cmds), c));
    }
}

/// How many of the commands are `NewPiece` commands.
pub open spec fn new_piece_count(cmds: Seq<Command>) -> nat
    decreases cmds.len(),
{
    if cmds.len() == 0 {
        0
    } else {
        (if cmds[0] is NewPiece {
            1nat
        } else {
            0nat
        }) + new_piece_count(cmds.drop_first())
    }
}

/// The pieces the `NewPiece` commands among these carry, in order.
pub open spec fn pieces_of(cmds: Seq<Command>) -> Seq<Piece>
    decreases cmds.len(),
{
    if cmds.len() == 0 {
        Seq::empty()
    } else {
        (if cmds[0] is NewPiece {
            seq![cmds[0]->piece]
        } else {
            Seq::empty()
        }) + pieces_of(cmds.drop_first())
    }
}

/// While the worker is initializing, commands other than `NewPiece` are
/// ignored, no matter how many arrive: the state is unchanged and not one
/// engine call is made.
pub proof fn lemma_initializing_ignores_non_pieces(w: WView, cmds: Seq<Command>)
    requires
        w is Initializing,
        forall|i: int| 0 <= i < cmds.len() ==> !(#[trigger] cmds[i] is NewPiece),
    ensures
        run(w, cmds) == w,
        run_calls(w, cmds) == Seq::<CallView>::empty(),
    decreases cmds.len(),
{
    reveal_with_fuel(run, 2);
    reveal_with_fuel(run_calls, 2);
    if cmds.len() > 0 {
        assert(!(cmds[0] is NewPiece));
        assert(next_state(w, cmds[0]) == w);
        assert(forall|i: int|
            0 <= i < cmds.drop_first().len() ==> !(#[trigger] cmds.drop_first()[i] is NewPiece));
        lemma_initializing_ignores_non_pieces(w, cmds.drop_first());
        assert(run_calls(w, cmds) =~= Seq::<CallView>::empty());
    }
}

/// Submitting fewer `NewPiece` commands than the worker still needs never
/// makes it ready, no matter what other commands are interleaved: it is
/// left initializing, with the counter lowered by the number of pieces and
/// the buffer extended by exactly those pieces in order, and not one
/// engine call has been made.
pub proof fn lemma_still_initializing(w: WView, cmds: Seq<Command>)
    requires
        w is Initializing,
        new_piece_count(cmds) < w->needed,
    ensures
        run(w, cmds) == (WView::Initializing {
            queued: w->queued + pieces_of(cmds),
            needed: w->needed - new_piece_count(cmds),
        }),
        run_calls(w, cmds) == Seq::<CallView>::empty(),
    decreases cmds.len(),
{
    reveal_with_fuel(run, 2);
    reveal_with_fuel(run_calls, 2);
    if cmds.len() == 0 {
        assert(w->queued + pieces_of(cmds) =~= w->queued);
    } else {
        let rest = cmds.drop_first();
        let w1 = next_state(w, cmds[0]);
        if cmds[0] is NewPiece {
            let piece = cmds[0]->piece;
            assert(new_piece_count(rest) == new_piece_count(cmds) - 1);
            assert(w1 == (WView::Initializing {
                queued: w->queued.push(piece),
                needed: w->needed - 1,
            }));
            lemma_still_initializing(w1, rest);
            assert(w->queued.push(piece) + pieces_of(rest) =~= w->queued + pieces_of(cmds));
        } else {
            assert(w1 == w);
            lemma_still_initializing(w1, rest);
            assert(w->queued + pieces_of(rest) =~= w->queued + pieces_of(cmds));
        }
        assert(run_calls(w, cmds) =~= Seq::<CallView>::empty());
    }
}

/// Submitting exactly as many `NewPiece` commands as the worker still
/// needs makes it ready, and causes exactly one engine call: constructing
/// the engine from the buffered pieces followed by all the submitted ones.
pub proof fn lemma_ready_after_exact_pieces(w: WView, cmds: Seq<Command>)
    requires
        w is Initializing,
        w->needed >= 1,
        forall|i: int| 0 <= i < cmds.len() ==> #[trigger] cmds[i] is NewPiece,
        cmds.len() == w->needed,
    ensures
        run(w, cmds) == WView::Ready,
        run_calls(w, cmds) == seq![
            CallView::Construct { next_pieces: w->queued + pieces_of(cmds) },
        ],
    decreases cmds.len(),
{
    reveal_with_fuel(run, 2);
    reveal_with_fuel(run_calls, 2);
    assert(cmds[0] is NewPiece);
    if cmds.len() == 1 {
        assert(next_state(w, cmds[0]) == WView::Ready);
        assert(cmds.drop_first().len() == 0);
        assert(w->queued.push(cmds[0]->piece) =~= w->queued + pieces_of(cmds));
        assert(run_calls(w, cmds) =~= seq![
            CallView::Construct { next_pieces: w->queued + pieces_of(cmds) },
        ]);
    } else {
        let w1 = next_state(w, cmds[0]);
        assert(w1 == (WView::Initializing {
            queued: w->queued.push(cmds[0]->piece),
            needed: w->needed - 1,
        }));
        assert(forall|i: int|
            0 <= i < cmds.drop_first().len() ==> #[trigger] cmds.drop_first()[i] is NewPiece);
        lemma_ready_after_exact_pieces(w1, cmds.drop_first());
        assert(w->queued.push(cmds[0]->piece) + pieces_of(cmds.drop_first()) =~= w->queued
            + pieces_of(cmds));
        assert(run_calls(w, cmds) =~= seq![
            CallView::Construct { next_pieces: w->queued + pieces_of(cmds) },
        ]);
    }
}

/// Once the worker is ready it stays ready, and every command is forwarded
/// to the engine exactly once, in submission order: the sequence of engine
/// calls has one entry per command, and the entry at each position is the
/// forwarded form of the command at that position.
pub proof fn lemma_ready_forwards_all(cmds: Seq<Command>)
    ensures
        run(WView::Ready, cmds) == WView::Ready,
        run_calls(WView::Ready, cmds).len() == cmds.len(),
        forall|i: int| 0 <= i < cmds.len() ==> run_calls(WView::Ready, cmds)[i]
            == ready_call(#[trigger] cmds[i]),
    decreases cmds.len(),
{
    reveal_with_fuel(run, 2);
    reveal_with_fuel(run_calls, 2);
    if cmds.len() > 0 {
        assert(next_state(WView::Ready, cmds[0]) == WView::Ready);
        lemma_ready_forwards_all(cmds.drop_first());
        assert(calls_of(WView::Ready, cmds[0]) == seq![ready_call(cmds[0])]);
        assert forall|i: int| 0 <= i < cmds.len() implies run_calls(WView::Ready, cmds)[i]
            == ready_call(#[trigger] cmds[i]) by {
            if i > 0 {
                assert(run_calls(WView::Ready, cmds)[i]
                    == run_calls(WView::Ready, cmds.drop_first())[i - 1]);
                assert(cmds.drop_first()[i - 1] == cmds[i]);
            }
        }
    }
}

} // verus!
