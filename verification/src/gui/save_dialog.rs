//! The question that is asked before an unsaved project is closed.
use vstd::prelude::*;

verus! {

pub struct SaveDialog;

/// The three answers to the question.
#[derive(Clone, Debug, Copy)]
pub enum SaveDialogMessage {
    CancelPressed,
    DontSavePressed,
    SavePressed,
}

} // verus!
