//! The kinds of file that the toolchain leaves behind, told by extension.

use vstd::prelude::*;
use crate::text::chars_of;

verus! {

/// The kinds of file in the build output.
#[derive(Copy, Clone, Debug, PartialEq, Eq, Hash, Structural)]
pub enum Category {
    /// The compiled module: a file with the extension `wasm`.
    BinaryModule,
    /// The generated script that loads it: a file with the extension `js`.
    LoaderScript,
    /// Any other file.
    Ignored,
}

/// The extension of the compiled module.
pub const BINARY_EXTENSION: &'static str = "wasm";

/// The extension of the loader script.
pub const SCRIPT_EXTENSION: &'static str = "js";

/// Whether the file name `name` has the extension `ext`: it ends with a dot
/// and `ext`, and something stands before that dot. This is meant for an
/// `ext` that holds no dot itself.
pub open spec fn has_extension(name: Seq<char>, ext: Seq<char>) -> bool {
    &&& name.len() > ext.len() + 1
    &&& name[name.len() - ext.len() - 1] == '.'
    &&& name.skip(name.len() - ext.len()) == ext
}

/// The category of the file `name`, by its extension.
pub open spec fn category_of(name: Seq<char>) -> Category {
    if has_extension(name, BINARY_EXTENSION@) {
        Category::BinaryModule
    } else if has_extension(name, SCRIPT_EXTENSION@) {
        Category::LoaderScript
    } else {
        Category::Ignored
    }
}

impl Category {
    /// The extension by which files of this category are known; the empty
    /// string for the files that are passed over.
    pub open spec fn suffix(self) -> Seq<char> {
        match self {
            Category::BinaryModule => BINARY_EXTENSION@,
            Category::LoaderScript => SCRIPT_EXTENSION@,
            Category::Ignored => ""@,
        }
    }

    /// The extension by which files of this category are known.
    pub fn extension(self) -> (r: &'static str)
        ensures
            r@ == self.suffix(),
    {
        match self {
            Category::BinaryModule => BINARY_EXTENSION,
            Category::LoaderScript => SCRIPT_EXTENSION,
            Category::Ignored => "",
        }
    }
}

fn ends_with_extension(name: &[char], ext: &str) -> (r: bool)
    ensures
        r == has_extension(name@, ext@),
{
    let e = chars_of(ext);
    let n = name.len();
    let k = e.len();
    if n <= k || n - k < 2 {
        return false;
    }
    if name[n - k - 1] != '.' {
        return false;
    }
    let ghost tail = name@.skip(n - k);
    let mut i: usize = 0;
    while i < k
        invariant
            i <= k,
            k == e@.len(),
            e@ == ext@,
            n == name@.len(),
            n - k >= 2,
            tail == name@.skip(n - k),
            forall|q: int| 0 <= q < i ==> tail[q] == e@[q],
        decreases k - i,
    {
        if name[n - k + i] != e[i] {
            assert(tail[i as int] == name@[n - k + i]);
            return false;
        }
        assert(tail[i as int] == name@[n - k + i]);
        i += 1;
    }
    assert(tail =~= e@);
    true
}

/// Tells the category of a file from its name.
pub fn classify(name: &str) -> (c: Category)
    ensures
        c == category_of(name@),
{
    let cs = chars_of(name);
    if ends_with_extension(cs.as_slice(), BINARY_EXTENSION) {
        Category::BinaryModule
    } else if ends_with_extension(cs.as_slice(), SCRIPT_EXTENSION) {
        Category::LoaderScript
    } else {
        Category::Ignored
    }
}

} // verus!
