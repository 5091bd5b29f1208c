//! Small verified helpers on strings: equality and lexicographic order over
//! the character sequences that string views expose.

use vstd::prelude::*;

verus! {

/// Character-by-character equality of two string slices.
pub fn str_eq(a: &str, b: &str) -> (r: bool)
    ensures
        r == (a@ == b@),
{
    let alen = a.unicode_len();
    let blen = b.unicode_len();
    if alen != blen {
        proof {
            assert(a@ != b@) by {
                assert(a@.len() != b@.len());
            }
        }
        return false;
    }
    let mut i: usize = 0;
    while i < alen
        invariant
            alen == a@.len(),
            blen == b@.len(),
            alen == blen,
            i <= alen,
            forall|k: int| 0 <= k < i ==> a@[k] == b@[k],
        decreases alen - i,
    {
        if a.get_char(i) != b.get_char(i) {
            return false;
        }
        i += 1;
    }
    proof {
        assert(a@ =~= b@);
    }
    true
}

/// Lexicographic "less than or equal", decided at position `i` once the
/// prefixes up to `i` agree.
pub open spec fn lex_le_from(a: Seq<char>, b: Seq<char>, i: int) -> bool
    decreases a.len() - i,
{
    if i >= a.len() {
        true
    } else if i >= b.len() {
        false
    } else if a[i] == b[i] {
        lex_le_from(a, b, i + 1)
    } else {
        (a[i] as u32) < (b[i] as u32)
    }
}

/// Lexicographic order on character sequences; total, and used as the
/// deterministic ordering of assembled pages.
pub open spec fn lex_le(a: Seq<char>, b: Seq<char>) -> bool {
    lex_le_from(a, b, 0)
}

/// Lexicographic comparison of two string slices.
pub fn str_le(a: &str, b: &str) -> (r: bool)
    ensures
        r == lex_le(a@, b@),
{
    let alen = a.unicode_len();
    let blen = b.unicode_len();
    let mut i: usize = 0;
    loop
        invariant
            alen == a@.len(),
            blen == b@.len(),
            i <= alen,
            i <= blen,
            lex_le(a@, b@) == lex_le_from(a@, b@, i as int),
        decreases alen - i,
    {
        if i >= alen {
            return true;
        }
        if i >= blen {
            return false;
        }
        let ca = a.get_char(i);
        let cb = b.get_char(i);
        if ca != cb {
            return (ca as u32) < (cb as u32);
        }
        i += 1;
    }
}

/// `lex_le` is reflexive.
pub proof fn lemma_lex_le_refl(a: Seq<char>)
    ensures
        lex_le(a, a),
{
    lemma_lex_le_from_refl(a, 0);
}

proof fn lemma_lex_le_from_refl(a: Seq<char>, i: int)
    requires
        0 <= i,
    ensures
        lex_le_from(a, a, i),
    decreases a.len() - i,
{
    if i < a.len() {
        lemma_lex_le_from_refl(a, i + 1);
    }
}

/// `lex_le` is antisymmetric: mutual order forces equality.
pub proof fn lemma_lex_le_antisym(a: Seq<char>, b: Seq<char>)
    requires
        lex_le(a, b),
        lex_le(b, a),
    ensures
        a == b,
{
    lemma_lex_le_from_antisym(a, b, 0);
    assert(a =~= b);
}

proof fn lemma_lex_le_from_antisym(a: Seq<char>, b: Seq<char>, i: int)
    requires
        0 <= i <= a.len(),
        i <= b.len(),
        lex_le_from(a, b, i),
        lex_le_from(b, a, i),
        forall|k: int| 0 <= k < i ==> a[k] == b[k],
    ensures
        a =~= b,
    decreases a.len() - i,
{
    if i >= a.len() {
        assert(i >= b.len());
    } else if i >= b.len() {
        assert(false);
    } else if a[i] == b[i] {
        lemma_lex_le_from_antisym(a, b, i + 1);
    } else {
        assert(false);
    }
}

/// `lex_le` is total: any two sequences are comparable.
pub proof fn lemma_lex_le_total(a: Seq<char>, b: Seq<char>)
    ensures
        lex_le(a, b) || lex_le(b, a),
{
    lemma_lex_le_from_total(a, b, 0);
}

proof fn lemma_lex_le_from_total(a: Seq<char>, b: Seq<char>, i: int)
    requires
        0 <= i,
    ensures
        lex_le_from(a, b, i) || lex_le_from(b, a, i),
    decreases a.len() - i,
{
    if i < a.len() && i < b.len() {
        if a[i] == b[i] {
            lemma_lex_le_from_total(a, b, i + 1);
        } else {
            vstd::utf8::char_u32_cast(a[i], a[i] as u32);
            vstd::utf8::char_u32_cast(b[i], b[i] as u32);
            assert((a[i] as u32) != (b[i] as u32));
        }
    }
}

/// `lex_le` is transitive.
pub proof fn lemma_lex_le_trans(a: Seq<char>, b: Seq<char>, c: Seq<char>)
    requires
        lex_le(a, b),
        lex_le(b, c),
    ensures
        lex_le(a, c),
{
    lemma_lex_le_from_trans(a, b, c, 0);
}

proof fn lemma_lex_le_from_trans(a: Seq<char>, b: Seq<char>, c: Seq<char>, i: int)
    requires
        0 <= i,
        lex_le_from(a, b, i),
        lex_le_from(b, c, i),
    ensures
        lex_le_from(a, c, i),
    decreases a.len() - i,
{
    if i >= a.len() {
    } else if i < b.len() && i < c.len() && a[i] == b[i] && b[i] == c[i] {
        lemma_lex_le_from_trans(a, b, c, i + 1);
    }
}

/// Relies on std's `String::from_utf8`: it returns `Ok` exactly on valid
/// UTF-8 input and decodes the bytes to their character sequence.
#[verifier::external_body]
pub(crate) fn utf8_to_string(bytes: &Vec<u8>) -> (r: Option<String>)
    ensures
        (r is Some) == vstd::utf8::valid_utf8(bytes@),
        r matches Some(s) ==> s@ == vstd::utf8::decode_utf8(bytes@),
{
    String::from_utf8(bytes.clone()).ok()
}

} // verus!
