//! Picking the dynamic library among the files of an artifact.

use crate::error::BuildError;
use crate::text::texts;
use vstd::prelude::*;

verus! {

/// The extension of a path as `camino::Utf8Path::extension` gives it: the
/// part of the file name behind its last dot, where the name has a dot that
/// is not its first character.
pub uninterp spec fn path_extension(path: Seq<char>) -> Option<Seq<char>>;

/// The text of an optional string.
pub open spec fn option_text(text: Option<String>) -> Option<Seq<char>> {
    match text {
        Some(s) => Some(s@),
        None => None,
    }
}

/// The text of a path that was found, or the error as it is.
pub open spec fn path_text(found: Result<String, BuildError>) -> Result<Seq<char>, BuildError> {
    match found {
        Ok(path) => Ok(path@),
        Err(e) => Err(e),
    }
}

/// The three extensions that a dynamic library goes by: on Windows, on the
/// systems of Apple, and on the other Unix systems.
pub open spec fn is_library_extension(ext: Option<Seq<char>>) -> bool {
    ext == Some("dll"@) || ext == Some("dylib"@) || ext == Some("so"@)
}

/// A path whose extension is that of a dynamic library.
pub open spec fn is_cdylib(path: Seq<char>) -> bool {
    is_library_extension(path_extension(path))
}

/// The first of `files` that is a dynamic library.
pub open spec fn select_cdylib_of(files: Seq<Seq<char>>) -> Result<Seq<char>, BuildError>
    decreases files.len(),
{
    if files.len() == 0 {
        Err(BuildError::CdylibNotFound)
    } else if is_cdylib(files[0]) {
        Ok(files[0])
    } else {
        select_cdylib_of(files.drop_first())
    }
}

/// Calls `Utf8Path::extension` of `camino` on the path and copies what it
/// returns.
#[verifier::external_body]
fn extension(path: &str) -> (ext: Option<String>)
    ensures
        option_text(ext) == path_extension(path@),
{
    cargo_metadata::camino::Utf8Path::new(path).extension().map(str::to_owned)
}

/// Whether `ext` is the extension of a dynamic library.
pub fn is_library(ext: &Option<String>) -> (library: bool)
    ensures
        library == is_library_extension(option_text(*ext)),
{
    match ext {
        Some(e) => {
            *e == "dll".to_owned() || *e == "dylib".to_owned() || *e == "so".to_owned()
        },
        None => false,
    }
}

/// Returns the first of `files` that is a dynamic library, unchanged, or
/// `CdylibNotFound` where there is none.
pub fn select_cdylib(files: &Vec<String>) -> (found: Result<String, BuildError>)
    ensures
        path_text(found) == select_cdylib_of(texts(files@)),
{
    let ghost all = texts(files@);
    let mut i: usize = 0;
    proof {
        assert(all.skip(0) =~= all);
    }
    while i < files.len()
        invariant
            i <= files.len(),
            all == texts(files@),
            select_cdylib_of(all) == select_cdylib_of(all.skip(i as int)),
        decreases files.len() - i,
    {
        let ghost rest = all.skip(i as int);
        proof {
            assert(rest[0] == files@[i as int]@);
            assert(rest.drop_first() =~= all.skip(i + 1));
        }
        let ext = extension(files[i].as_str());
        if is_library(&ext) {
            return Ok(files[i].clone());
        }
        i = i + 1;
    }
    Err(BuildError::CdylibNotFound)
}

/// Where none of the files is a dynamic library, nothing is selected.
pub proof fn lemma_no_library_not_found(files: Seq<Seq<char>>)
    requires
        forall|i: int| 0 <= i < files.len() ==> !is_cdylib(#[trigger] files[i]),
    ensures
        select_cdylib_of(files) == Err::<Seq<char>, BuildError>(BuildError::CdylibNotFound),
    decreases files.len(),
{
    if files.len() > 0 {
        let rest = files.drop_first();
        assert forall|i: int| 0 <= i < rest.len() implies !is_cdylib(#[trigger] rest[i]) by {
            assert(rest[i] == files[i + 1]);
        }
        lemma_no_library_not_found(rest);
    }
}

/// The file that is selected is the first dynamic library of the list: the
/// files before it are passed over, those behind it are not looked at.
pub proof fn lemma_first_library_selected(files: Seq<Seq<char>>, k: int)
    requires
        0 <= k < files.len(),
        is_cdylib(files[k]),
        forall|i: int| 0 <= i < k ==> !is_cdylib(#[trigger] files[i]),
    ensures
        select_cdylib_of(files) == Ok::<Seq<char>, BuildError>(files[k]),
    decreases files.len(),
{
    if k > 0 {
        let rest = files.drop_first();
        assert forall|i: int| 0 <= i < k - 1 implies !is_cdylib(#[trigger] rest[i]) by {
            assert(rest[i] == files[i + 1]);
        }
        assert(rest[k - 1] == files[k]);
        lemma_first_library_selected(rest, k - 1);
    }
}

/// Where exactly one of the files is a dynamic library, that file is
/// selected, whatever stands around it.
pub proof fn lemma_sole_library_selected(files: Seq<Seq<char>>, k: int)
    requires
        0 <= k < files.len(),
        is_cdylib(files[k]),
        forall|i: int| 0 <= i < files.len() && i != k ==> !is_cdylib(#[trigger] files[i]),
    ensures
        select_cdylib_of(files) == Ok::<Seq<char>, BuildError>(files[k]),
{
    lemma_first_library_selected(files, k);
}

/// A selection fails in one way only, and what it returns is one of the
/// files, a dynamic library.
pub proof fn lemma_selected_is_library(files: Seq<Seq<char>>)
    ensures
        match select_cdylib_of(files) {
            Ok(path) => files.contains(path) && is_cdylib(path),
            Err(e) => e == BuildError::CdylibNotFound && forall|i: int|
                0 <= i < files.len() ==> !is_cdylib(#[trigger] files[i]),
        },
    decreases files.len(),
{
    if files.len() > 0 {
        if is_cdylib(files[0]) {
            assert(files.contains(files[0]));
        } else {
            let rest = files.drop_first();
            lemma_selected_is_library(rest);
            match select_cdylib_of(rest) {
                Ok(path) => {
                    let j = choose|j: int| 0 <= j < rest.len() && rest[j] == path;
                    assert(files[j + 1] == path);
                },
                Err(_) => {
                    assert forall|i: int| 0 <= i < files.len() implies !is_cdylib(
                        #[trigger] files[i],
                    ) by {
                        if i > 0 {
                            assert(rest[i - 1] == files[i]);
                        }
                    }
                },
            }
        }
    }
}

} // verus!
