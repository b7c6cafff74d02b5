use vstd::prelude::*;

use crate::stage::Stage;

verus! {

/// The default of `fail_fast`.
pub fn default_true() -> (r: bool)
    ensures
        r,
{
    true
}

/// The default of a hook's boolean switches.
pub fn default_false() -> (r: bool)
    ensures
        !r,
{
    false
}

/// The default stage list: commit alone.
pub fn default_stages() -> (r: Vec<Stage>)
    ensures
        r@ == seq![Stage::Commit],
{
    let mut v: Vec<Stage> = Vec::new();
    v.push(Stage::Commit);
    assert(v@ =~= seq![Stage::Commit]);
    v
}

/// The default language of a hook: `system`.
pub fn default_language() -> (r: String)
    ensures
        r@ == "system"@,
{
    "system".to_owned()
}

/// The default file pattern: empty.
pub fn default_files() -> (r: String)
    ensures
        r@ == Seq::<char>::empty(),
{
    let r = String::new();
    r
}

} // verus!
