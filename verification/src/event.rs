use vstd::prelude::*;

use crate::error::AppError;
use crate::object::{FileDetail, FileVersion, Item};

verus! {

/// A key press as the pages consume it: a printable character or an edit
/// action.
#[derive(Clone, Debug, PartialEq)]
pub enum AppKeyInput {
    Char(char),
    Backspace,
}

/// One event of the merged stream the main loop consumes: terminal input on
/// one side, lifecycle and background-result notifications on the other.
/// Ordering is FIFO across both producers.
#[derive(Debug, PartialEq)]
pub enum AppEventType {
    KeyInput(AppKeyInput),
    Initialize,
    LoadObjects,
    CompleteLoadObjects(Result<Vec<Item>, AppError>),
    LoadObject,
    CompleteLoadObject(Result<(FileDetail, Vec<FileVersion>, String), AppError>),
    DownloadObject,
    Info(String),
    Error(AppError),
}

/// What one blocking terminal read produced: a key press, some other
/// terminal event, or a failed read with its description.
#[derive(Clone, Debug, PartialEq)]
pub enum TerminalInput {
    Key(AppKeyInput),
    Other,
    Failed(String),
}

/// One decision of the reader loop: a key press is forwarded as a key
/// event; a read failure becomes an error event, never a reader exit, so
/// one bad read cannot silence all further input; any other terminal event
/// produces nothing.
pub fn input_to_event(input: TerminalInput) -> (r: Option<AppEventType>)
    ensures
        r == match input {
            TerminalInput::Key(k) => Some(AppEventType::KeyInput(k)),
            TerminalInput::Other => None::<AppEventType>,
            TerminalInput::Failed(m) => Some(AppEventType::Error((AppError { msg: m }))),
        },
{
    match input {
        TerminalInput::Key(k) => Some(AppEventType::KeyInput(k)),
        TerminalInput::Other => None,
        TerminalInput::Failed(m) => Some(AppEventType::Error(AppError { msg: m })),
    }
}

} // verus!
