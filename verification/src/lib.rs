//! Process-control core of a minimal interactive debugger.
//!
//! The library launches a target program (or attaches to a running one),
//! places it under trace control, drives its run/stop state through a single
//! `continue` command, and guarantees deterministic cleanup when control
//! ends.

mod acquire;
mod command;
mod error;
mod os;
mod parse;
mod process;

pub use acquire::{select_acquisition, AcquisitionPlan};
pub use command::{
    command_is_continue, is_continue_command, is_space_char, lemma_continue_prefix_examples,
    str_eq, token_end, token_start,
};
pub use error::DebugError;
pub use os::WaitEvent;
pub use parse::{
    all_digits, digit_value, digits_part, digits_value, integer_text_value, is_digit_char,
    is_integer_text, is_valid_pid_text, parse_pid_text, sign_of,
};
pub use process::{
    cleanup_model, lemma_cleanup_idempotent, CommandOutcome, Process, ProcessModel, ProcessState,
};
