//! Where the assets are: the folders of assets lie relative to the place
//! of the executable file. A path is given by its components.

use vstd::prelude::*;

verus! {

/// The folder from which the folders of assets are found, for an
/// executable file at `current_exe_path`, if it is known.
///
/// The name of the executable file itself is ignored. An executable in a
/// folder `debug` is taken to lie two folders below the top; one in a folder
/// `test_rel` lies at the top. Of any other place nothing is known.
pub open spec fn top_path(current_exe_path: Seq<String>) -> Option<Seq<String>> {
    if current_exe_path.len() < 2 {
        None
    } else {
        let dir = current_exe_path.drop_last();
        if dir.last()@ == "debug"@ {
            Some(
                dir.subrange(
                    0,
                    if dir.len() >= 2 {
                        dir.len() - 2
                    } else {
                        0
                    },
                ),
            )
        } else if dir.last()@ == "test_rel"@ {
            Some(dir)
        } else {
            None
        }
    }
}

fn copy_prefix(path: &Vec<String>, count: usize) -> (prefix: Vec<String>)
    requires
        count <= path@.len(),
    ensures
        prefix@ == path@.subrange(0, count as int),
{
    let mut prefix: Vec<String> = Vec::new();
    let mut i: usize = 0;
    while i < count
        invariant
            i <= count <= path@.len(),
            prefix@ == path@.subrange(0, i as int),
        decreases count - i,
    {
        prefix.push(path[i].clone());
        i += 1;
        assert(prefix@ =~= path@.subrange(0, i as int));
    }
    prefix
}

/// The folder from which the folders of assets are found, or nothing where
/// the place of the executable file tells nothing of it.
pub fn calculate_top_path(current_exe_path: &Vec<String>) -> (top: Option<Vec<String>>)
    ensures
        match top_path(current_exe_path@) {
            Some(path) => top is Some && top->0@ == path,
            None => top is None,
        },
{
    let len = current_exe_path.len();
    if len < 2 {
        return None;
    }
    // Ignore the exe file name itself
    let dir_len = len - 1;
    let debug = "debug".to_owned();
    let test_rel = "test_rel".to_owned();
    let last = &current_exe_path[dir_len - 1];
    if *last == debug {
        // The executable file is probably located in "target/debug": go to the root
        let keep = if dir_len >= 2 {
            dir_len - 2
        } else {
            0
        };
        let top = copy_prefix(current_exe_path, keep);
        assert(top@ =~= current_exe_path@.drop_last().subrange(0, keep as int));
        Some(top)
    } else if *last == test_rel {
        let top = copy_prefix(current_exe_path, dir_len);
        assert(top@ =~= current_exe_path@.drop_last());
        Some(top)
    } else {
        None
    }
}

/// The last two components that the path of a folder of assets has: the
/// name of the folder that the assets belong to, and `assets`.
pub open spec fn is_assets_path(path: Seq<String>, top: Seq<String>, folder: Seq<char>) -> bool {
    &&& path.len() == top.len() + 2
    &&& path.subrange(0, top.len() as int) == top
    &&& path[top.len() as int]@ == folder
    &&& path[top.len() as int + 1]@ == "assets"@
}

/// The path of the assets of the engine itself.
pub fn calculate_engine_assets_path(top_path: &Vec<String>) -> (path: Vec<String>)
    ensures
        is_assets_path(path@, top_path@, "mat_engine"@),
{
    get_folder_assets_path(top_path, "mat_engine")
}

/// The path of the assets of the given folder.
pub fn get_folder_assets_path(top_path: &Vec<String>, folder: &str) -> (path: Vec<String>)
    ensures
        is_assets_path(path@, top_path@, folder@),
{
    let mut p = copy_prefix(top_path, top_path.len());
    p.push(folder.to_owned());
    p.push("assets".to_owned());
    assert(p@.subrange(0, top_path@.len() as int) =~= top_path@);
    p
}

} // verus!
