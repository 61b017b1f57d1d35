//! A kanban board driven by discrete user intents: the board model, the
//! interaction state machine, and the recovery of a board from older layouts.

pub mod text;
pub mod board;
pub mod storage;
pub mod state;
pub mod app;
pub mod intent;
pub mod laws;
