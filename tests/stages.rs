use precommit_gen::stage::Stage;

const ALL: [Stage; 10] = [
    Stage::Commit,
    Stage::MergeCommit,
    Stage::Push,
    Stage::PrepareCommitMsg,
    Stage::CommitMsg,
    Stage::PostCheckout,
    Stage::PostCommit,
    Stage::PostMerge,
    Stage::PostRewrite,
    Stage::Manual,
];

#[test]
fn stage_tokens_are_exact() {
    let tokens: Vec<&str> = ALL.iter().map(|s| s.token()).collect();
    assert_eq!(
        tokens,
        vec![
            "commit",
            "merge-commit",
            "push",
            "prepare-commit-msg",
            "commit-msg",
            "post-checkout",
            "post-commit",
            "post-merge",
            "post-rewrite",
            "manual",
        ]
    );
}

#[test]
fn stage_tokens_read_back() {
    for s in ALL {
        assert_eq!(Stage::from_token(s.token()), Some(s));
    }
}

#[test]
fn unknown_stage_tokens_are_refused() {
    assert_eq!(Stage::from_token("commitX"), None);
    assert_eq!(Stage::from_token("Commit"), None);
    assert_eq!(Stage::from_token(""), None);
    assert_eq!(Stage::from_token("merge_commit"), None);
}
