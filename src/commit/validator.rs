use vstd::prelude::*;

use crate::commit::text::{lower_of, lowercase, same_text, trim_seq, trim_text};

verus! {

/// How an answer to a yes/no question is taken.
#[derive(Clone, Copy, Debug, PartialEq, Eq, Structural)]
pub enum ConfirmAnswer {
    Yes,
    No,
    /// Neither: the question is asked again.
    Invalid,
}

/// How an answer, already trimmed and in lowercase, is taken.
pub open spec fn answer_of(lowered: Seq<char>) -> ConfirmAnswer {
    if lowered == "y"@ || lowered == "yes"@ {
        ConfirmAnswer::Yes
    } else if lowered == "n"@ || lowered == "no"@ {
        ConfirmAnswer::No
    } else {
        ConfirmAnswer::Invalid
    }
}

/// Takes an answer that is already trimmed and in lowercase: `y` or `yes`
/// agrees, `n` or `no` refuses, anything else is invalid.
pub fn classify_answer(lowered: &str) -> (r: ConfirmAnswer)
    ensures
        r == answer_of(lowered@),
{
    if same_text(lowered, "y") || same_text(lowered, "yes") {
        ConfirmAnswer::Yes
    } else if same_text(lowered, "n") || same_text(lowered, "no") {
        ConfirmAnswer::No
    } else {
        ConfirmAnswer::Invalid
    }
}

/// Takes a line typed in answer to a yes/no question, whatever its case and
/// surrounding blanks.
pub fn confirm_answer(line: &str) -> (r: ConfirmAnswer)
    ensures
        r == answer_of(lower_of(trim_seq(line@))),
{
    let lowered = lowercase(trim_text(line));
    classify_answer(lowered.as_str())
}

} // verus!
