//! A guarded finite-state-machine engine.
//!
//! The machine occupies one of five symbolic states and moves only along
//! declared edges. Each transition request names the edge it intends to
//! take; the engine validates the edge's required origin against the
//! machine's actual current state, commits the move when they agree, and
//! rejects the request otherwise.

pub mod state_machine;
pub mod transition_table;
