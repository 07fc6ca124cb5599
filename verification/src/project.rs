//! Finding the project that a document belongs to: the nearest directory,
//! going upwards from the document, that holds the configuration file.

use crate::paths::{join, parent, path_join, path_parent};
use crate::text::{opt_text, texts};
use vstd::prelude::*;

verus! {

/// The name of the configuration file.
pub open spec fn config_file_name() -> Seq<char> {
    ".export.toml"@
}

/// `dir` followed by each directory above it, nearest first.
pub open spec fn ancestors(dir: Seq<char>) -> Seq<Seq<char>>
    decreases dir.len(),
{
    match path_parent(dir) {
        Some(up) => if up.len() < dir.len() {
            seq![dir] + ancestors(up)
        } else {
            seq![dir]
        },
        None => seq![dir],
    }
}

/// The directories in which a project's configuration may lie, nearest
/// first: the path itself and what lies above it where the path is a
/// directory, else what lies above the file.
pub open spec fn search_dirs(file_path: Seq<char>, is_dir: bool) -> Seq<Seq<char>> {
    if is_dir {
        ancestors(file_path)
    } else {
        match path_parent(file_path) {
            Some(dir) => ancestors(dir),
            None => Seq::empty(),
        }
    }
}

/// Lists the directories to probe for the configuration file, nearest
/// first. `is_dir` says whether `file_path` is itself a directory.
pub fn candidate_roots(file_path: &str, is_dir: bool) -> (dirs: Vec<String>)
    ensures
        texts(dirs@) == search_dirs(file_path@, is_dir),
{
    let mut dirs: Vec<String> = Vec::new();
    let mut current: String = if is_dir {
        String::from_str(file_path)
    } else {
        match parent(file_path) {
            Some(dir) => dir,
            None => {
                assert(texts(dirs@) =~= Seq::<Seq<char>>::empty());
                return dirs;
            },
        }
    };
    let ghost start = current@;
    assert(texts(dirs@) =~= Seq::<Seq<char>>::empty());
    loop
        invariant_except_break
            texts(dirs@) + ancestors(current@) == ancestors(start),
        ensures
            texts(dirs@) == ancestors(start),
        decreases current@.len(),
    {
        let up = parent(current.as_str());
        let ghost before = dirs@;
        let ghost here = current@;
        match up {
            Some(dir) => {
                dirs.push(current);
                current = dir;
                proof {
                    assert(texts(dirs@) =~= texts(before).push(here));
                    assert(ancestors(here) == seq![here] + ancestors(current@));
                    assert(texts(dirs@) + ancestors(current@) =~= texts(before) + ancestors(here));
                }
            },
            None => {
                dirs.push(current);
                proof {
                    assert(texts(dirs@) =~= texts(before).push(here));
                    assert(ancestors(here) == seq![here]);
                    assert(texts(dirs@) =~= texts(before) + ancestors(here));
                }
                break ;
            },
        }
    }
    dirs
}

/// The path of the configuration file in the directory `dir`.
pub fn config_path(dir: &str) -> (path: String)
    ensures
        path@ == path_join(dir@, config_file_name()),
{
    join(dir, ".export.toml")
}

/// The first of `candidates` whose entry in `has_config` is `true`. A
/// candidate without an entry counts as a miss.
pub open spec fn located_root(candidates: Seq<Seq<char>>, has_config: Seq<bool>) -> Option<
    Seq<char>,
>
    decreases candidates.len(),
{
    if candidates.len() == 0 || has_config.len() == 0 {
        None
    } else if has_config[0] {
        Some(candidates[0])
    } else {
        located_root(candidates.drop_first(), has_config.drop_first())
    }
}

/// A located root is one of the candidates, its entry is `true`, and the
/// entries of all candidates before it are `false`.
pub proof fn lemma_located_root(candidates: Seq<Seq<char>>, has_config: Seq<bool>)
    ensures
        match located_root(candidates, has_config) {
            Some(dir) => exists|i: int|
                0 <= i < candidates.len() && i < has_config.len() && has_config[i]
                    && #[trigger] candidates[i] == dir && forall|j: int|
                    0 <= j < i ==> !has_config[j],
            None => forall|i: int|
                0 <= i < candidates.len() && i < has_config.len() ==> !has_config[i],
        },
    decreases candidates.len(),
{
    if candidates.len() == 0 || has_config.len() == 0 {
    } else if has_config[0] {
        assert(candidates[0] == located_root(candidates, has_config).unwrap());
    } else {
        let c = candidates.drop_first();
        let h = has_config.drop_first();
        lemma_located_root(c, h);
        match located_root(c, h) {
            Some(dir) => {
                let i = choose|i: int|
                    0 <= i < c.len() && i < h.len() && h[i] && #[trigger] c[i] == dir
                        && forall|j: int| 0 <= j < i ==> !h[j];
                assert(candidates[i + 1] == dir);
                assert forall|j: int| 0 <= j < i + 1 implies !has_config[j] by {
                    if j > 0 {
                        assert(h[j - 1] == has_config[j]);
                    }
                }
            },
            None => {
                assert forall|i: int|
                    0 <= i < candidates.len() && i < has_config.len() implies !has_config[i] by {
                    if i > 0 {
                        assert(h[i - 1] == has_config[i]);
                    }
                }
            },
        }
    }
}

/// Picks the project root among `candidates`: the first whose entry in
/// `has_config` is `true`, which says that the directory holds the
/// configuration file.
pub fn find_project_root(candidates: &Vec<String>, has_config: &Vec<bool>) -> (root: Option<
    String,
>)
    ensures
        opt_text(root) == located_root(texts(candidates@), has_config@),
{
    let mut i: usize = 0;
    proof {
        assert(texts(candidates@).skip(0) =~= texts(candidates@));
        assert(has_config@.skip(0) =~= has_config@);
    }
    while i < candidates.len() && i < has_config.len()
        invariant
            i <= candidates.len(),
            i <= has_config.len(),
            located_root(texts(candidates@), has_config@) == located_root(
                texts(candidates@).skip(i as int),
                has_config@.skip(i as int),
            ),
        decreases candidates.len() - i,
    {
        let ghost c = texts(candidates@).skip(i as int);
        let ghost h = has_config@.skip(i as int);
        if has_config[i] {
            assert(h[0] == has_config@[i as int]);
            assert(c[0] == candidates@[i as int]@);
            return Some(candidates[i].clone());
        }
        proof {
            assert(h[0] == has_config@[i as int]);
            assert(c.drop_first() =~= texts(candidates@).skip(i + 1));
            assert(h.drop_first() =~= has_config@.skip(i + 1));
        }
        i += 1;
    }
    None
}

/// The message for a document that lies in no project.
pub open spec fn no_project_text() -> Seq<char> {
    "No .export.toml found in parent folders"@
}

/// The project root among `candidates`, or the reason why there is none.
pub fn resolve_project_root(candidates: &Vec<String>, has_config: &Vec<bool>) -> (r: Result<
    String,
    String,
>)
    ensures
        match located_root(texts(candidates@), has_config@) {
            Some(dir) => r is Ok && r->Ok_0@ == dir,
            None => r is Err && r->Err_0@ == no_project_text(),
        },
{
    match find_project_root(candidates, has_config) {
        Some(dir) => Ok(dir),
        None => Err(String::from_str("No .export.toml found in parent folders")),
    }
}

} // verus!
