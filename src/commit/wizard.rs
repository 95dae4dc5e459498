use vstd::prelude::*;

use crate::commit::reader::{custom_scope, multiline_of, parse_multiline, scope_of};
use crate::commit::text::{same_text, trim_seq, trim_text};
use crate::commit::types::{CommitFields, CommitType, RenderCommit};

verus! {

/// The steps of the wizard, in the order in which they come.
#[derive(Clone, Copy, Debug, PartialEq, Eq, Structural)]
pub enum Step {
    SelectType,
    SelectScopeMode,
    EnterCustomScope,
    EnterDescription,
    EnterLongerDescription,
    EnterBreakingChanges,
    EnterIssuePrefix,
    EnterIssueRefs,
    /// Every field is collected; the message awaits confirmation.
    Confirm,
}

/// The wizard's state: the step it is at, whether a custom scope was
/// chosen, and the fields collected so far.
pub struct Wizard {
    pub step: Step,
    pub custom_scope: bool,
    pub fields: RenderCommit,
}

/// The wizard's state with its fields as texts.
pub struct WizardState {
    pub step: Step,
    pub custom_scope: bool,
    pub fields: CommitFields,
}

impl View for Wizard {
    type V = WizardState;

    open spec fn view(&self) -> WizardState {
        WizardState { step: self.step, custom_scope: self.custom_scope, fields: self.fields@ }
    }
}

/// Whether the wizard asks for breaking changes. It does so exactly when a
/// custom scope was chosen: the question is tied to the scope choice, not
/// asked for its own sake.
pub open spec fn asks_breaking_changes(s: WizardState) -> bool {
    s.custom_scope
}

/// The wizard's state after the answer to its current step.
pub open spec fn next_state(s: WizardState, answer: Seq<char>) -> WizardState {
    let f = s.fields;
    match s.step {
        Step::SelectType => WizardState {
            step: Step::SelectScopeMode,
            fields: CommitFields { chosen_type: answer, ..f },
            ..s
        },
        Step::SelectScopeMode => if answer == "custom"@ {
            WizardState { step: Step::EnterCustomScope, custom_scope: true, ..s }
        } else {
            WizardState {
                step: Step::EnterDescription,
                custom_scope: false,
                fields: CommitFields { final_scope: Seq::empty(), ..f },
            }
        },
        Step::EnterCustomScope => WizardState {
            step: Step::EnterDescription,
            fields: CommitFields { final_scope: scope_of(answer), ..f },
            ..s
        },
        Step::EnterDescription => if trim_seq(answer).len() > 0 {
            WizardState {
                step: Step::EnterLongerDescription,
                fields: CommitFields { desc: trim_seq(answer), ..f },
                ..s
            }
        } else {
            s
        },
        Step::EnterLongerDescription => WizardState {
            step: if asks_breaking_changes(s) {
                Step::EnterBreakingChanges
            } else {
                Step::EnterIssuePrefix
            },
            fields: CommitFields { longer_description: multiline_of(answer), ..f },
            ..s
        },
        Step::EnterBreakingChanges => WizardState {
            step: Step::EnterIssuePrefix,
            fields: CommitFields { breaking_changes: multiline_of(answer), ..f },
            ..s
        },
        Step::EnterIssuePrefix => if answer.len() > 0 {
            WizardState {
                step: Step::EnterIssueRefs,
                fields: CommitFields { issue_prefix: answer, ..f },
                ..s
            }
        } else {
            WizardState {
                step: Step::Confirm,
                fields: CommitFields { issue_prefix: answer, issue_refs: Seq::empty(), ..f },
                ..s
            }
        },
        Step::EnterIssueRefs => WizardState {
            step: Step::Confirm,
            fields: CommitFields { issue_refs: trim_seq(answer), ..f },
            ..s
        },
        Step::Confirm => s,
    }
}

/// The two ways of giving a scope, as a selection list offers them.
pub fn scope_modes() -> (r: Vec<CommitType>)
    ensures
        r.len() == 2,
        r[0].key@ == "empty"@,
        r[1].key@ == "custom"@,
        r[0].description@.len() == 0,
        r[1].description@.len() == 0,
{
    proof {
        reveal_strlit("");
    }
    let mut r: Vec<CommitType> = Vec::new();
    r.push(CommitType::new("empty", ""));
    r.push(CommitType::new("custom", ""));
    r
}

impl Wizard {
    /// A wizard at its first step, with every field empty.
    pub fn new() -> (r: Wizard)
        ensures
            r.step == Step::SelectType,
            !r.custom_scope,
            r.fields@.chosen_type.len() == 0,
            r.fields@.final_scope.len() == 0,
            r.fields@.desc.len() == 0,
            r.fields@.longer_description.len() == 0,
            r.fields@.breaking_changes.len() == 0,
            r.fields@.issue_prefix.len() == 0,
            r.fields@.issue_refs.len() == 0,
    {
        Wizard {
            step: Step::SelectType,
            custom_scope: false,
            fields: RenderCommit::new(
                String::new(),
                String::new(),
                String::new(),
                String::new(),
                String::new(),
                String::new(),
                String::new(),
            ),
        }
    }

    /// Whether the breaking-changes step is taken.
    pub fn asks_breaking_changes(&self) -> (r: bool)
        ensures
            r == asks_breaking_changes(self@),
    {
        self.custom_scope
    }

    /// Takes the answer to the current step and moves to the step that
    /// follows. At a selection step the answer is the chosen entry's key; a
    /// blank description is refused and the step stays; at the confirmation step
    /// nothing changes.
    pub fn advance(&mut self, answer: &str)
        ensures
            final(self)@ == next_state(old(self)@, answer@),
    {
        match self.step {
            Step::SelectType => {
                self.fields.chosen_type = String::from_str(answer);
                self.step = Step::SelectScopeMode;
            },
            Step::SelectScopeMode => {
                if same_text(answer, "custom") {
                    self.custom_scope = true;
                    self.step = Step::EnterCustomScope;
                } else {
                    self.custom_scope = false;
                    self.fields.final_scope = String::new();
                    self.step = Step::EnterDescription;
                }
            },
            Step::EnterCustomScope => {
                self.fields.final_scope = custom_scope(answer);
                self.step = Step::EnterDescription;
            },
            Step::EnterDescription => {
                let t = trim_text(answer);
                if !t.is_empty() {
                    self.fields.desc = String::from_str(t);
                    self.step = Step::EnterLongerDescription;
                }
            },
            Step::EnterLongerDescription => {
                self.fields.longer_description = parse_multiline(answer);
                self.step =
                    if self.asks_breaking_changes() {
                        Step::EnterBreakingChanges
                    } else {
                        Step::EnterIssuePrefix
                    };
            },
            Step::EnterBreakingChanges => {
                self.fields.breaking_changes = parse_multiline(answer);
                self.step = Step::EnterIssuePrefix;
            },
            Step::EnterIssuePrefix => {
                self.fields.issue_prefix = String::from_str(answer);
                if answer.is_empty() {
                    self.fields.issue_refs = String::new();
                    self.step = Step::Confirm;
                } else {
                    self.step = Step::EnterIssueRefs;
                }
            },
            Step::EnterIssueRefs => {
                self.fields.issue_refs = String::from_str(trim_text(answer));
                self.step = Step::Confirm;
            },
            Step::Confirm => {},
        }
    }

    /// The commit message made of the fields collected so far.
    pub fn message(&self) -> (r: String)
        ensures
            r@ == crate::commit::types::message_of(self@.fields),
    {
        self.fields.message()
    }
}

} // verus!
