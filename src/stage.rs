use vstd::prelude::*;

use crate::text::same_text;

verus! {

/// A point in the version-control workflow at which a hook runs.
#[derive(Debug, Clone, Copy, PartialEq, Eq, Structural)]
pub enum Stage {
    Commit,
    MergeCommit,
    Push,
    PrepareCommitMsg,
    CommitMsg,
    PostCheckout,
    PostCommit,
    PostMerge,
    PostRewrite,
    Manual,
}

/// The external token of each stage.
pub open spec fn token_of(s: Stage) -> Seq<char> {
    match s {
        Stage::Commit => "commit"@,
        Stage::MergeCommit => "merge-commit"@,
        Stage::Push => "push"@,
        Stage::PrepareCommitMsg => "prepare-commit-msg"@,
        Stage::CommitMsg => "commit-msg"@,
        Stage::PostCheckout => "post-checkout"@,
        Stage::PostCommit => "post-commit"@,
        Stage::PostMerge => "post-merge"@,
        Stage::PostRewrite => "post-rewrite"@,
        Stage::Manual => "manual"@,
    }
}

/// The stage that a token names, if any.
pub open spec fn stage_of(t: Seq<char>) -> Option<Stage> {
    if t == "commit"@ {
        Some(Stage::Commit)
    } else if t == "merge-commit"@ {
        Some(Stage::MergeCommit)
    } else if t == "push"@ {
        Some(Stage::Push)
    } else if t == "prepare-commit-msg"@ {
        Some(Stage::PrepareCommitMsg)
    } else if t == "commit-msg"@ {
        Some(Stage::CommitMsg)
    } else if t == "post-checkout"@ {
        Some(Stage::PostCheckout)
    } else if t == "post-commit"@ {
        Some(Stage::PostCommit)
    } else if t == "post-merge"@ {
        Some(Stage::PostMerge)
    } else if t == "post-rewrite"@ {
        Some(Stage::PostRewrite)
    } else if t == "manual"@ {
        Some(Stage::Manual)
    } else {
        None
    }
}

/// Every stage's token reads back as that stage.
pub proof fn lemma_token_round_trip(s: Stage)
    ensures
        stage_of(token_of(s)) == Some(s),
{
    reveal_strlit("commit");
    reveal_strlit("merge-commit");
    reveal_strlit("push");
    reveal_strlit("prepare-commit-msg");
    reveal_strlit("commit-msg");
    reveal_strlit("post-checkout");
    reveal_strlit("post-commit");
    reveal_strlit("post-merge");
    reveal_strlit("post-rewrite");
    reveal_strlit("manual");
    assert("commit"@.len() == 6);
    assert("merge-commit"@.len() == 12);
    assert("push"@.len() == 4);
    assert("prepare-commit-msg"@.len() == 18);
    assert("commit-msg"@.len() == 10);
    assert("post-checkout"@.len() == 13);
    assert("post-commit"@.len() == 11);
    assert("post-merge"@.len() == 10);
    assert("post-rewrite"@.len() == 12);
    assert("manual"@.len() == 6);
    assert("manual"@[0] != "commit"@[0]);
    assert("post-rewrite"@[0] != "merge-commit"@[0]);
    assert("post-merge"@[0] != "commit-msg"@[0]);
}

impl Stage {
    /// The token that names this stage in a configuration document.
    pub fn token(&self) -> (r: &'static str)
        ensures
            r@ == token_of(*self),
    {
        match self {
            Stage::Commit => "commit",
            Stage::MergeCommit => "merge-commit",
            Stage::Push => "push",
            Stage::PrepareCommitMsg => "prepare-commit-msg",
            Stage::CommitMsg => "commit-msg",
            Stage::PostCheckout => "post-checkout",
            Stage::PostCommit => "post-commit",
            Stage::PostMerge => "post-merge",
            Stage::PostRewrite => "post-rewrite",
            Stage::Manual => "manual",
        }
    }

    /// The stage that `t` names; `None` for any other text.
    pub fn from_token(t: &str) -> (r: Option<Stage>)
        ensures
            r == stage_of(t@),
    {
        if same_text(t, "commit") {
            Some(Stage::Commit)
        } else if same_text(t, "merge-commit") {
            Some(Stage::MergeCommit)
        } else if same_text(t, "push") {
            Some(Stage::Push)
        } else if same_text(t, "prepare-commit-msg") {
            Some(Stage::PrepareCommitMsg)
        } else if same_text(t, "commit-msg") {
            Some(Stage::CommitMsg)
        } else if same_text(t, "post-checkout") {
            Some(Stage::PostCheckout)
        } else if same_text(t, "post-commit") {
            Some(Stage::PostCommit)
        } else if same_text(t, "post-merge") {
            Some(Stage::PostMerge)
        } else if same_text(t, "post-rewrite") {
            Some(Stage::PostRewrite)
        } else if same_text(t, "manual") {
            Some(Stage::Manual)
        } else {
            None
        }
    }
}

} // verus!
