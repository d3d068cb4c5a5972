//! Looking for a program in the directories of the search path.

use crate::paths::{entry_path, is_below, is_name_char, is_plain_name, lemma_plain_name};
use std::path::PathBuf;
use vstd::prelude::*;

verus! {

/// What to do next in the search for a program.
pub enum PathSearch {
    /// Find out whether the path is that of a file.
    Check(PathBuf),
    Done(Option<PathBuf>),
}

/// Whether paths are the places to look at: the program in each directory, on Windows also under
/// the name with `.exe` at its end.
pub open spec fn are_places(
    places: Seq<PathBuf>,
    name: Seq<char>,
    dirs: Seq<PathBuf>,
    windows: bool,
) -> bool {
    if windows {
        &&& places.len() == 2 * dirs.len()
        &&& forall|i: int|
            0 <= i < dirs.len() ==> is_below(places[2 * i], #[trigger] dirs[i], seq![name]) && is_below(
                places[2 * i + 1],
                dirs[i],
                seq![name + ".exe"@],
            )
    } else {
        &&& places.len() == dirs.len()
        &&& forall|i: int|
            0 <= i < dirs.len() ==> is_below(places[i], #[trigger] dirs[i], seq![name])
    }
}

/// The places to look for a program in.
pub fn program_places(name: &str, dirs: &[PathBuf], windows: bool) -> (places: Vec<PathBuf>)
    requires
        is_plain_name(name@),
    ensures
        are_places(places@, name@, dirs@, windows),
{
    let exe_name = name.to_string().concat(".exe");
    proof {
        reveal_strlit(".exe");
        assert forall|i: int| 0 <= i < exe_name@.len() implies is_name_char(
            #[trigger] exe_name@[i],
        ) by {
            if i < name@.len() {
                assert(exe_name@[i] == name@[i]);
            } else {
                assert(exe_name@[i] == ".exe"@[i - name@.len()]);
            }
        }
        lemma_plain_name(exe_name@);
    }
    let mut places: Vec<PathBuf> = Vec::new();
    for i in 0..dirs.len()
        invariant
            is_plain_name(name@),
            is_plain_name(exe_name@),
            exe_name@ == name@ + ".exe"@,
            are_places(places@, name@, dirs@.take(i as int), windows),
    {
        let ghost before = places@;
        let ghost done = dirs@.take(i as int);
        let ghost all = dirs@.take(i + 1);
        places.push(entry_path(&dirs[i], name));
        if windows {
            places.push(entry_path(&dirs[i], exe_name.as_str()));
        }
        proof {
            assert forall|k: int| 0 <= k < done.len() implies #[trigger] all[k] == done[k] by {}
            if windows {
                assert forall|k: int| 0 <= k < all.len() implies is_below(
                    places@[2 * k],
                    #[trigger] all[k],
                    seq![name@],
                ) && is_below(places@[2 * k + 1], all[k], seq![name@ + ".exe"@]) by {
                    if k < i {
                        assert(all[k] == done[k]);
                        assert(is_below(before[2 * k], done[k], seq![name@]));
                    }
                }
            } else {
                assert forall|k: int| 0 <= k < all.len() implies is_below(
                    places@[k],
                    #[trigger] all[k],
                    seq![name@],
                ) by {
                    if k < i {
                        assert(all[k] == done[k]);
                        assert(is_below(before[k], done[k], seq![name@]));
                    }
                }
            }
        }
    }
    proof {
        assert(dirs@.take(dirs.len() as int) =~= dirs@);
    }
    places
}

/// Whether a step is the one that follows the answers to the first questions: the first place
/// that holds a file is the program's; places are asked about in order.
pub open spec fn is_place_step(step: PathSearch, places: Seq<PathBuf>, files: Seq<bool>) -> bool
    decreases places.len(),
{
    if places.len() == 0 {
        step matches PathSearch::Done(found) && found is None
    } else if files.len() == 0 {
        step matches PathSearch::Check(path) && path == places[0]
    } else if files[0] {
        step matches PathSearch::Done(found) && found == Some(places[0])
    } else {
        is_place_step(step, places.drop_first(), files.drop_first())
    }
}

/// What to do next in the search for a program; `files` says of the first places whether a file
/// is there.
pub fn find_in_path(places: &[PathBuf], files: &[bool]) -> (step: PathSearch)
    ensures
        is_place_step(step, places@, files@),
{
    let mut i: usize = 0;
    proof {
        assert(places@.skip(0) =~= places@);
        assert(files@.skip(0) =~= files@);
    }
    while i < places.len()
        invariant
            i <= places.len(),
            i <= files.len(),
            forall|step: PathSearch|
                is_place_step(step, places@.skip(i as int), files@.skip(i as int))
                    ==> #[trigger] is_place_step(step, places@, files@),
        decreases places.len() - i,
    {
        if i == files.len() {
            return PathSearch::Check(places[i].clone());
        }
        if files[i] {
            return PathSearch::Done(Some(places[i].clone()));
        }
        proof {
            assert(places@.skip(i as int).drop_first() =~= places@.skip(i + 1));
            assert(files@.skip(i as int).drop_first() =~= files@.skip(i + 1));
        }
        i = i + 1;
    }
    PathSearch::Done(None)
}

/// The first place that holds a file is the program's, and none is where no place holds one. Places
/// are asked about in order, and only while none before them holds a file.
pub proof fn law_first_file_is_the_program(
    step: PathSearch,
    places: Seq<PathBuf>,
    files: Seq<bool>,
)
    requires
        is_place_step(step, places, files),
    ensures
        match step {
            PathSearch::Done(Some(path)) => exists|i: int|
                0 <= i < places.len() && i < files.len() && #[trigger] places[i] == path && files[i]
                    && forall|j: int| 0 <= j < i ==> !(#[trigger] files[j]),
            PathSearch::Done(None) => places.len() <= files.len() && forall|j: int|
                0 <= j < places.len() ==> !(#[trigger] files[j]),
            PathSearch::Check(path) => files.len() < places.len() && path
                == places[files.len() as int] && forall|j: int|
                0 <= j < files.len() ==> !(#[trigger] files[j]),
        },
    decreases places.len(),
{
    if places.len() > 0 && files.len() > 0 && files[0] {
        assert(places[0] == step->Done_0->0);
    } else if places.len() > 0 && files.len() > 0 {
        let rest = places.drop_first();
        let answers = files.drop_first();
        law_first_file_is_the_program(step, rest, answers);
        match step {
            PathSearch::Done(Some(path)) => {
                let i = choose|i: int|
                    0 <= i < rest.len() && i < answers.len() && #[trigger] rest[i] == path
                        && answers[i] && forall|j: int| 0 <= j < i ==> !(#[trigger] answers[j]);
                assert(places[i + 1] == path);
                assert forall|j: int| 0 <= j < i + 1 implies !(#[trigger] files[j]) by {
                    if j > 0 {
                        assert(answers[j - 1] == files[j]);
                    }
                }
            },
            PathSearch::Done(None) => {
                assert forall|j: int| 0 <= j < places.len() implies !(#[trigger] files[j]) by {
                    if j > 0 {
                        assert(answers[j - 1] == files[j]);
                    }
                }
            },
            PathSearch::Check(path) => {
                assert forall|j: int| 0 <= j < files.len() implies !(#[trigger] files[j]) by {
                    if j > 0 {
                        assert(answers[j - 1] == files[j]);
                    }
                }
            },
        }
    }
}

} // verus!
