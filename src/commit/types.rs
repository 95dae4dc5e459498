use vstd::prelude::*;

verus! {

/// An entry of a selection list: a key and what it stands for.
#[derive(Clone, Debug)]
pub struct CommitType {
    pub key: String,
    pub description: String,
}

impl CommitType {
    pub fn new(key: &str, description: &str) -> (r: CommitType)
        ensures
            r.key@ == key@,
            r.description@ == description@,
    {
        CommitType { key: String::from_str(key), description: String::from_str(description) }
    }
}

/// The fields of a commit message, as the wizard collects them.
#[derive(Clone, Debug)]
pub struct RenderCommit {
    pub chosen_type: String,
    /// Empty, or the custom scope in parentheses.
    pub final_scope: String,
    pub desc: String,
    pub longer_description: String,
    pub breaking_changes: String,
    pub issue_prefix: String,
    pub issue_refs: String,
}

/// What stands between the parentheses of a scope written as `(inner)`;
/// `None` for a scope written otherwise.
pub open spec fn scope_inner_of(scope: Seq<char>) -> Option<Seq<char>> {
    if scope.len() >= 2 && scope[0] == '(' && scope.last() == ')' {
        Some(scope.subrange(1, scope.len() - 1))
    } else {
        None
    }
}

/// Splits a scope into what stands between its parentheses, so that the
/// two can be shown apart.
pub fn scope_inner(scope: &str) -> (r: Option<&str>)
    ensures
        r matches Some(inner) ==> scope_inner_of(scope@) == Some(inner@),
        r is None ==> scope_inner_of(scope@) is None,
{
    let n = scope.unicode_len();
    if n >= 2 && scope.get_char(0) == '(' && scope.get_char(n - 1) == ')' {
        Some(scope.substring_char(1, n - 1))
    } else {
        None
    }
}

/// The fields of a commit message as texts.
pub struct CommitFields {
    pub chosen_type: Seq<char>,
    pub final_scope: Seq<char>,
    pub desc: Seq<char>,
    pub longer_description: Seq<char>,
    pub breaking_changes: Seq<char>,
    pub issue_prefix: Seq<char>,
    pub issue_refs: Seq<char>,
}

impl View for RenderCommit {
    type V = CommitFields;

    open spec fn view(&self) -> CommitFields {
        CommitFields {
            chosen_type: self.chosen_type@,
            final_scope: self.final_scope@,
            desc: self.desc@,
            longer_description: self.longer_description@,
            breaking_changes: self.breaking_changes@,
            issue_prefix: self.issue_prefix@,
            issue_refs: self.issue_refs@,
        }
    }
}

/// `text` after a separator, or nothing where `text` is empty.
pub open spec fn section(separator: Seq<char>, text: Seq<char>) -> Seq<char> {
    if text.len() > 0 {
        separator + text
    } else {
        Seq::empty()
    }
}

/// The commit message built from its fields: the header `type(scope): desc`,
/// then each optional part that is not empty, after a blank line.
pub open spec fn message_of(c: CommitFields) -> Seq<char> {
    c.chosen_type + c.final_scope + ": "@ + c.desc + section("\n\n"@, c.longer_description)
        + section("\n\nBREAKING CHANGE: "@, c.breaking_changes) + (if c.issue_prefix.len() > 0 {
        "\n\n"@ + c.issue_prefix + " "@ + c.issue_refs
    } else {
        Seq::empty()
    })
}

impl RenderCommit {
    pub fn new(
        chosen_type: String,
        final_scope: String,
        desc: String,
        longer_description: String,
        breaking_changes: String,
        issue_prefix: String,
        issue_refs: String,
    ) -> (r: RenderCommit)
        ensures
            r.chosen_type == chosen_type,
            r.final_scope == final_scope,
            r.desc == desc,
            r.longer_description == longer_description,
            r.breaking_changes == breaking_changes,
            r.issue_prefix == issue_prefix,
            r.issue_refs == issue_refs,
    {
        RenderCommit {
            chosen_type,
            final_scope,
            desc,
            longer_description,
            breaking_changes,
            issue_prefix,
            issue_refs,
        }
    }

    /// The commit message that these fields make.
    pub fn message(&self) -> (r: String)
        ensures
            r@ == message_of(self@),
    {
        let mut m = String::from_str(self.chosen_type.as_str());
        m.append(self.final_scope.as_str());
        m.append(": ");
        m.append(self.desc.as_str());
        if !self.longer_description.as_str().is_empty() {
            m.append("\n\n");
            m.append(self.longer_description.as_str());
        }
        if !self.breaking_changes.as_str().is_empty() {
            m.append("\n\nBREAKING CHANGE: ");
            m.append(self.breaking_changes.as_str());
        }
        if !self.issue_prefix.as_str().is_empty() {
            m.append("\n\n");
            m.append(self.issue_prefix.as_str());
            m.append(" ");
            m.append(self.issue_refs.as_str());
        }
        m
    }
}

} // verus!
