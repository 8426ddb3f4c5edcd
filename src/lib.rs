//! A macro engine: named sequences of simulated input steps, a persisted
//! collection of them, and a step-by-step interpreter that tells its driver
//! which controller operation or pause comes next.

mod instruction;
mod interpreter;
mod page;
mod store;
mod ui;

pub use instruction::{
    Axis, Button, Coordinate, Direction, Instruction, InstructionView, Key, Macro, MacroView, Token,
    TokenView, code_view, collection_view,
};
pub use interpreter::{
    ControllerError, MacroRun, RunStatus, Step, call_of, calls_of, lemma_calls_of_step,
    lemma_completed_run_in_list_order, lemma_failed_run_stops, lemma_unsupported_is_skipped,
    lemma_wait_precedes_next_call, step_of,
};
pub use page::Page;
pub use store::{
    Startup, StoreError, get, key_tap, lemma_seeding_idempotent, load_or_seed, names, resolve,
    seed_collection, seed_view, startup_outcome,
};
pub use ui::{AppState, Message, header_title};
