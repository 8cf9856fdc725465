//! Which files belong to the workspace.

use crate::text::same_text;
use vstd::prelude::*;

verus! {

/// The path with the components `target` lies in or below the directory
/// with the components `base`.
pub open spec fn lies_within(base: Seq<Seq<char>>, target: Seq<Seq<char>>) -> bool {
    base.is_prefix_of(target)
}

/// Admits a path to the workspace: given the components of the resolved
/// base directory and of the resolved path, the path is admitted where it
/// lies in or below the base directory, and is refused as an invalid path
/// where it does not.
pub fn workspace_path(base: &Vec<String>, target: &Vec<String>) -> (r: Result<(), String>)
    ensures
        match r {
            Ok(()) => lies_within(base.deep_view(), target.deep_view()),
            Err(message) => !lies_within(base.deep_view(), target.deep_view()) && message@
                == "Invalid path"@,
        },
{
    if base.len() > target.len() {
        return Err("Invalid path".to_owned());
    }
    let mut i: usize = 0;
    while i < base.len()
        invariant
            i <= base@.len() <= target@.len(),
            forall|k: int| 0 <= k < i ==> base.deep_view()[k] == target.deep_view()[k],
        decreases base@.len() - i,
    {
        if !same_text(base[i].as_str(), target[i].as_str()) {
            assert(base.deep_view()[i as int] != target.deep_view()[i as int]);
            return Err("Invalid path".to_owned());
        }
        i = i + 1;
    }
    assert(base.deep_view() =~= target.deep_view().subrange(0, base.deep_view().len() as int));
    Ok(())
}

} // verus!
