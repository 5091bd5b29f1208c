//! Discovery decisions: a source file's name stem — what stands before the
//! first extension separator — is looked up in the page catalog, and a stem
//! the catalog does not name aborts the build.

use vstd::prelude::*;

use crate::catalog::{find_location, loc_md, NUM_LOCATIONS};
use crate::errors::BuildError;

verus! {

/// Number of characters before the first extension separator at or after
/// `i`.
pub open spec fn stem_len(name: Seq<char>, i: int) -> nat
    decreases name.len() - i,
{
    if i < 0 || i >= name.len() {
        0
    } else if name[i] == '.' {
        0
    } else {
        1 + stem_len(name, i + 1)
    }
}

/// The name stem: everything before the first extension separator, or the
/// whole name where there is none.
pub open spec fn stem_of(name: Seq<char>) -> Seq<char> {
    name.subrange(0, stem_len(name, 0) as int)
}

/// Connects an exec scan that found no separator in `[i, j)` to `stem_len`.
proof fn lemma_stem_len_at(name: Seq<char>, i: int, j: int)
    requires
        0 <= i <= j <= name.len(),
        forall|k: int| i <= k < j ==> name[k] != '.',
        j == name.len() || name[j] == '.',
    ensures
        stem_len(name, i) == j - i,
    decreases j - i,
{
    if i < j {
        lemma_stem_len_at(name, i + 1, j);
    }
}

/// Extracts a source file name's stem.
pub fn source_stem(file_name: &str) -> (r: String)
    ensures
        r@ == stem_of(file_name@),
{
    let n = file_name.unicode_len();
    let mut j: usize = 0;
    while j < n && file_name.get_char(j) != '.'
        invariant
            n == file_name@.len(),
            j <= n,
            forall|k: int| 0 <= k < j ==> file_name@[k] != '.',
        decreases n - j,
    {
        j += 1;
    }
    proof {
        lemma_stem_len_at(file_name@, 0, j as int);
    }
    let stem = file_name.substring_char(0, j);
    String::from_str(stem)
}

/// Classifies one discovered source file against the catalog: its stem must
/// match exactly one entry's markdown key, and a stem the catalog does not
/// name is a fatal error carrying that stem.
pub fn classify_source(file_name: &str) -> (r: Result<usize, BuildError>)
    ensures
        match r {
            Ok(i) => i < NUM_LOCATIONS && loc_md(i as int) == stem_of(file_name@),
            Err(e) => (forall|j: int| 0 <= j < NUM_LOCATIONS ==> loc_md(j) != stem_of(file_name@))
                && (e matches BuildError::Classification { stem: s } && s@ == stem_of(
                file_name@,
            )),
        },
{
    let stem = source_stem(file_name);
    match find_location(stem.as_str()) {
        Some(i) => Ok(i),
        None => Err(BuildError::Classification { stem }),
    }
}

} // verus!
