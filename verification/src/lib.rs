//! A verified command-dispatch bridge for a move-deciding game engine.
//!
//! A caller submits commands (reset the field, enqueue a piece, request a
//! move, force an analysis line) through a bridge handle and receives a
//! ticket per command. A single worker consumes the commands strictly in
//! submission order, driving a state machine that buffers the opening pieces
//! until the engine can be constructed and afterwards forwards each command
//! to the engine. The engine itself is an external collaborator: every call
//! the worker makes to it is surfaced as an explicit `EngineCall` value, and
//! the results of its asynchronous operations are handed back to the worker
//! as explicit events.

pub mod data;
pub mod worker;
pub mod bridge;
