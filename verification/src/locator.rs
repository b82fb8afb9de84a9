//! Finding the toolchain's two files among the names in its output
//! directory: exactly one compiled module and exactly one loader script.

use vstd::prelude::*;
use vstd::string::*;
use crate::category::{category_of, classify, Category};
use crate::error::PipelineError;

verus! {

/// Whether entry `i` is a file of category `c`.
pub open spec fn holds(entries: Seq<String>, c: Category, i: int) -> bool {
    0 <= i < entries.len() && category_of(entries[i]@) == c
}

/// Whether entry `j` is a file of a required category that an earlier entry
/// has too.
pub open spec fn repeats(entries: Seq<String>, j: int) -> bool {
    &&& 0 <= j < entries.len()
    &&& category_of(entries[j]@) != Category::Ignored
    &&& exists|i: int| 0 <= i < j && #[trigger] holds(entries, category_of(entries[j]@), i)
}

/// Whether no entry is of category `c`.
pub open spec fn absent(entries: Seq<String>, c: Category) -> bool {
    forall|i: int| !#[trigger] holds(entries, c, i)
}

/// Whether exactly one entry is of category `c`.
pub open spec fn single(entries: Seq<String>, c: Category) -> bool {
    exists|i: int| only(entries, c, i)
}

/// Whether entry `i` is the one entry of category `c`.
pub open spec fn only(entries: Seq<String>, c: Category, i: int) -> bool {
    holds(entries, c, i) && forall|k: int| #[trigger] holds(entries, c, k) ==> k == i
}

/// The names of the toolchain's two files.
#[derive(Clone, Debug, PartialEq, Eq)]
pub struct Located {
    pub binary: String,
    pub script: String,
}

/// Whether `r` is what the search among `entries`, the names of the files in
/// `directory`, has to give: both names where each required category has
/// its one file; else the category of the first entry that repeats one; else
/// the required category that has no file, the module before the script.
pub open spec fn scanned(
    directory: Seq<char>,
    entries: Seq<String>,
    r: Result<Located, PipelineError>,
) -> bool {
    match r {
        Ok(found) => exists|b: int, s: int|
            {
                &&& #[trigger] only(entries, Category::BinaryModule, b)
                &&& #[trigger] only(entries, Category::LoaderScript, s)
                &&& found.binary@ == entries[b]@
                &&& found.script@ == entries[s]@
            },
        Err(PipelineError::AmbiguousArtifact { directory: d, category }) => {
            &&& d@ == directory
            &&& exists|j: int|
                {
                    &&& #[trigger] repeats(entries, j)
                    &&& category_of(entries[j]@) == category
                    &&& forall|k: int| 0 <= k < j ==> !repeats(entries, k)
                }
        },
        Err(PipelineError::MissingArtifact { directory: d, category }) => {
            &&& d@ == directory
            &&& forall|k: int| !repeats(entries, k)
            &&& absent(entries, category)
            &&& category == Category::BinaryModule || (category == Category::LoaderScript
                && !absent(entries, Category::BinaryModule))
        },
        Err(_) => false,
    }
}

/// Finds the compiled module and the loader script among `entries`, the
/// names of the files in `directory`, in the order in which the directory
/// lists them. Files of other kinds are passed over. The first file that
/// repeats a required category stops the search; a missing module is
/// reported before a missing script.
pub fn scan(directory: &str, entries: &Vec<String>) -> (r: Result<Located, PipelineError>)
    ensures
        r is Ok <==> single(entries@, Category::BinaryModule) && single(
            entries@,
            Category::LoaderScript,
        ),
        scanned(directory@, entries@, r),
{
    let n = entries.len();
    let mut binary: Option<usize> = None;
    let mut script: Option<usize> = None;
    let mut i: usize = 0;
    while i < n
        invariant
            n == entries@.len(),
            i <= n,
            forall|k: int| 0 <= k < i ==> !repeats(entries@, k),
            match binary {
                Some(b) => b < i && holds(entries@, Category::BinaryModule, b as int),
                None => forall|k: int|
                    0 <= k < i ==> !#[trigger] holds(entries@, Category::BinaryModule, k),
            },
            match script {
                Some(s) => s < i && holds(entries@, Category::LoaderScript, s as int),
                None => forall|k: int|
                    0 <= k < i ==> !#[trigger] holds(entries@, Category::LoaderScript, k),
            },
        decreases n - i,
    {
        let category = classify(entries[i].as_str());
        match category {
            Category::BinaryModule => {
                if let Some(b) = binary {
                    assert(repeats(entries@, i as int));
                    proof {
                        lemma_repeat_not_single(entries@, i as int);
                    }
                    return Err(
                        PipelineError::AmbiguousArtifact {
                            directory: String::from_str(directory),
                            category,
                        },
                    );
                }
                binary = Some(i);
            },
            Category::LoaderScript => {
                if let Some(s) = script {
                    assert(repeats(entries@, i as int));
                    proof {
                        lemma_repeat_not_single(entries@, i as int);
                    }
                    return Err(
                        PipelineError::AmbiguousArtifact {
                            directory: String::from_str(directory),
                            category,
                        },
                    );
                }
                script = Some(i);
            },
            Category::Ignored => {},
        }
        assert(!repeats(entries@, i as int));
        i += 1;
    }
    proof {
        assert forall|k: int| !repeats(entries@, k) by {}
        lemma_no_repeat_single(entries@, Category::BinaryModule);
        lemma_no_repeat_single(entries@, Category::LoaderScript);
    }
    let b = match binary {
        Some(b) => b,
        None => {
            return Err(
                PipelineError::MissingArtifact {
                    directory: String::from_str(directory),
                    category: Category::BinaryModule,
                },
            );
        },
    };
    let s = match script {
        Some(s) => s,
        None => {
            return Err(
                PipelineError::MissingArtifact {
                    directory: String::from_str(directory),
                    category: Category::LoaderScript,
                },
            );
        },
    };
    assert(only(entries@, Category::BinaryModule, b as int));
    assert(only(entries@, Category::LoaderScript, s as int));
    Ok(Located { binary: entries[b].clone(), script: entries[s].clone() })
}

/// A category that some entry repeats has more than one file.
pub proof fn lemma_repeat_not_single(entries: Seq<String>, j: int)
    requires
        repeats(entries, j),
    ensures
        !single(entries, category_of(entries[j]@)),
{
    let c = category_of(entries[j]@);
    let i = choose|i: int| 0 <= i < j && #[trigger] holds(entries, c, i);
    if single(entries, c) {
        let u = choose|u: int| only(entries, c, u);
        assert(holds(entries, c, i));
        assert(holds(entries, c, j));
    }
}

/// Where no entry repeats a category, a required category that has a file
/// has exactly one.
pub proof fn lemma_no_repeat_single(entries: Seq<String>, c: Category)
    requires
        c != Category::Ignored,
        forall|k: int| !repeats(entries, k),
    ensures
        forall|i: int| #[trigger] holds(entries, c, i) ==> only(entries, c, i),
        absent(entries, c) ==> !single(entries, c),
{
    assert forall|i: int| #[trigger] holds(entries, c, i) implies only(entries, c, i) by {
        assert forall|k: int| #[trigger] holds(entries, c, k) implies k == i by {
            if k < i {
                assert(repeats(entries, i));
            }
            if i < k {
                assert(repeats(entries, k));
            }
        }
    }
    if absent(entries, c) && single(entries, c) {
        let u = choose|u: int| only(entries, c, u);
        assert(holds(entries, c, u));
    }
}

} // verus!
