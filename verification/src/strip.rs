//! Stripping the conversion subprocess's noise prologue. Leading blank lines
//! and lines opening with the `>` marker are discarded; from the first real
//! line on, every line is kept verbatim. The walk moves from `before-content`
//! to `in-content` exactly once and never back, so a later line that looks
//! like noise survives.

use vstd::prelude::*;

verus! {

/// Number of characters before the next line break at or after `i` (the
/// length of the line starting at `i`).
pub open spec fn line_len(s: Seq<char>, i: int) -> nat
    decreases s.len() - i,
{
    if i < 0 || i >= s.len() {
        0
    } else if s[i] == '\n' {
        0
    } else {
        1 + line_len(s, i + 1)
    }
}

/// The line starting at `i` ends at `i + line_len`: still inside the text,
/// newline-free, and closed by a line break unless the text ends first.
pub proof fn lemma_line_len(s: Seq<char>, i: int)
    requires
        0 <= i <= s.len(),
    ensures
        i + line_len(s, i) <= s.len(),
        forall|k: int| i <= k < i + line_len(s, i) ==> s[k] != '\n',
        i + line_len(s, i) < s.len() ==> s[i + line_len(s, i)] == '\n',
    decreases s.len() - i,
{
    if i < s.len() && s[i] != '\n' {
        lemma_line_len(s, i + 1);
    }
}

/// A line is noise while the stripper is still before the content: blank, or
/// opened by the `>` marker.
pub open spec fn line_is_noise(line: Seq<char>) -> bool {
    line.len() == 0 || line[0] == '>'
}

/// What remains of `s` from position `i` on, given whether real content was
/// already seen (`past`). Every kept line is emitted with a closing line
/// break.
pub open spec fn strip_from(s: Seq<char>, i: int, past: bool) -> Seq<char>
    decreases s.len() - i,
{
    if i < 0 || i >= s.len() {
        Seq::<char>::empty()
    } else {
        let j = i + line_len(s, i) as int;
        let line = s.subrange(i, j);
        let keep = past || !line_is_noise(line);
        let rest = if j >= s.len() {
            Seq::<char>::empty()
        } else {
            strip_from(s, j + 1, keep)
        };
        if keep {
            line + seq!['\n'] + rest
        } else {
            rest
        }
    }
}

/// The whole stripped document: `s` with its leading noise lines removed and
/// every remaining line closed by a line break.
pub open spec fn strip_noise_spec(s: Seq<char>) -> Seq<char> {
    strip_from(s, 0, false)
}

/// Connects an exec scan that found no newline in `[i, j)` to `line_len`.
proof fn lemma_line_len_at(s: Seq<char>, i: int, j: int)
    requires
        0 <= i <= j <= s.len(),
        forall|k: int| i <= k < j ==> s[k] != '\n',
        j == s.len() || s[j] == '\n',
    ensures
        line_len(s, i) == j - i,
    decreases j - i,
{
    if i < j {
        lemma_line_len_at(s, i + 1, j);
    }
}

/// Discards the leading noise prologue of the subprocess output and returns
/// the content, each line closed by a line break.
pub fn strip_noise(s: &str) -> (r: String)
    ensures
        r@ == strip_noise_spec(s@),
{
    let n = s.unicode_len();
    let mut out = String::new();
    let mut past = false;
    let mut i: usize = 0;
    while i < n
        invariant
            n == s@.len(),
            i <= n,
            out@ + strip_from(s@, i as int, past) == strip_noise_spec(s@),
        decreases n - i,
    {
        let mut j = i;
        while j < n && s.get_char(j) != '\n'
            invariant
                n == s@.len(),
                i <= j <= n,
                forall|k: int| i <= k < j ==> s@[k] != '\n',
            decreases n - j,
        {
            j += 1;
        }
        proof {
            lemma_line_len_at(s@, i as int, j as int);
        }
        let ghost line = s@.subrange(i as int, j as int);
        let noise = j == i || s.get_char(i) == '>';
        proof {
            assert(noise == line_is_noise(line));
        }
        if past || !noise {
            let piece = s.substring_char(i, j);
            out.append(piece);
            out.append("\n");
            proof {
                reveal_strlit("\n");
                assert("\n"@ =~= seq!['\n']);
                assert(strip_from(s@, i as int, past) =~= line + seq!['\n'] + strip_from(
                    s@,
                    j + 1 as int,
                    true,
                ));
            }
            past = true;
        } else {
            proof {
                assert(strip_from(s@, i as int, past) =~= strip_from(s@, j + 1 as int, false));
            }
        }
        i = if j < n {
            j + 1
        } else {
            n
        };
    }
    proof {
        assert(strip_from(s@, i as int, past) =~= Seq::<char>::empty());
        assert(out@ =~= strip_noise_spec(s@));
    }
    out
}

} // verus!
