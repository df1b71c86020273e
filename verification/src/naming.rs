//! File-name handling: extension filtering, the trailing extension token,
//! and output-name derivation.
//!
//! The output name replaces only the trailing extension token of the source
//! name (a final dot followed by ASCII letters and digits); any other dot
//! segment in the name is left alone.

use vstd::prelude::*;
use vstd::string::*;
use crate::text::{is_ascii_alnum, spec_is_ascii_alnum, str_eq};

verus! {

/// The index of the last `'.'` in `s`, or `-1` if there is none.
pub open spec fn spec_last_dot(s: Seq<char>) -> int
    decreases s.len(),
{
    if s.len() == 0 {
        -1
    } else if s[s.len() - 1] == '.' {
        s.len() - 1
    } else {
        spec_last_dot(s.drop_last())
    }
}

/// Characters at or beyond `i` hold no dot, so the last dot lies in the
/// prefix before `i`.
proof fn lemma_last_dot_take(s: Seq<char>, i: int)
    requires
        0 <= i <= s.len(),
        forall|j: int| i <= j < s.len() ==> s[j] != '.',
    ensures
        spec_last_dot(s) == spec_last_dot(s.take(i)),
    decreases s.len() - i,
{
    if i == s.len() {
        assert(s.take(i) =~= s);
    } else {
        assert(s[s.len() - 1] != '.');
        assert(s.drop_last() =~= s.take(s.len() - 1));
        if i < s.len() - 1 {
            lemma_last_dot_take(s.take(s.len() - 1), i);
            assert(s.take(s.len() - 1).take(i) =~= s.take(i));
        }
    }
}

/// The last dot lies before the length of the sequence.
proof fn lemma_last_dot_range(s: Seq<char>)
    ensures
        -1 <= spec_last_dot(s) < s.len(),
        spec_last_dot(s) >= 0 ==> s[spec_last_dot(s)] == '.',
    decreases s.len(),
{
    if s.len() > 0 && s[s.len() - 1] != '.' {
        lemma_last_dot_range(s.drop_last());
    }
}

/// Finds the index of the last `'.'` in `s`, if any.
pub fn last_dot_index(s: &str) -> (r: Option<usize>)
    ensures
        match r {
            Some(i) => spec_last_dot(s@) == i && i < s@.len(),
            None => spec_last_dot(s@) == -1,
        },
{
    let n = s.unicode_len();
    let mut i: usize = n;
    while i > 0
        invariant
            n == s@.len(),
            i <= n,
            forall|j: int| i <= j < n ==> s@[j] != '.',
        decreases i,
    {
        let c = s.get_char(i - 1);
        if c == '.' {
            proof {
                lemma_last_dot_take(s@, i as int);
                assert(s@.take(i as int).last() == '.');
            }
            return Some(i - 1);
        }
        i = i - 1;
    }
    proof {
        lemma_last_dot_take(s@, 0);
        assert(s@.take(0) =~= Seq::<char>::empty());
    }
    None
}

/// The segment after the last dot; the whole name when it has no dot. This
/// is the token the extension filter compares.
pub open spec fn spec_last_segment(s: Seq<char>) -> Seq<char> {
    if spec_last_dot(s) >= 0 {
        s.skip(spec_last_dot(s) + 1)
    } else {
        s
    }
}

/// Returns the segment of `file_name` after its last dot, or the whole name
/// when it has no dot.
pub fn last_dot_segment(file_name: &str) -> (r: &str)
    ensures
        r@ == spec_last_segment(file_name@),
{
    proof {
        lemma_last_dot_range(file_name@);
    }
    match last_dot_index(file_name) {
        Some(p) => {
            let n = file_name.unicode_len();
            let seg = file_name.substring_char(p + 1, n);
            proof {
                assert(seg@ =~= spec_last_segment(file_name@));
            }
            seg
        },
        None => file_name,
    }
}

/// Does the file name end in one of the accepted extensions? The comparison
/// is exact (case-sensitive) against the configured extension list.
pub fn file_extension_filter(file_name: &str, extensions: &Vec<String>) -> (r: bool)
    ensures
        r == exists|i: int|
            0 <= i < extensions@.len() && extensions@[i]@ == spec_last_segment(file_name@),
{
    let seg = last_dot_segment(file_name);
    let mut k: usize = 0;
    while k < extensions.len()
        invariant
            seg@ == spec_last_segment(file_name@),
            k <= extensions@.len(),
            forall|i: int| 0 <= i < k ==> extensions@[i]@ != spec_last_segment(file_name@),
        decreases extensions@.len() - k,
    {
        if str_eq(extensions[k].as_str(), seg) {
            return true;
        }
        k += 1;
    }
    false
}

/// Does `s` end in a replaceable extension token: a dot followed only by
/// ASCII letters and digits?
pub open spec fn spec_has_ext_token(s: Seq<char>) -> bool {
    spec_last_dot(s) >= 0 && (forall|j: int|
        spec_last_dot(s) < j < s.len() ==> spec_is_ascii_alnum(s[j]))
}

/// The file name with its trailing extension token replaced by `e`; a name
/// without such a token is returned unchanged.
pub open spec fn spec_replace_extension(s: Seq<char>, e: Seq<char>) -> Seq<char> {
    if spec_has_ext_token(s) {
        s.take(spec_last_dot(s) + 1) + e
    } else {
        s
    }
}

/// Replaces the trailing extension token of `file_name` with
/// `new_extension`. Only the token after the final dot is replaced; a name
/// without a trailing alphanumeric extension is kept unchanged.
pub fn replace_extension(file_name: &str, new_extension: &str) -> (r: String)
    ensures
        r@ == spec_replace_extension(file_name@, new_extension@),
{
    proof {
        lemma_last_dot_range(file_name@);
    }
    match last_dot_index(file_name) {
        Some(p) => {
            let n = file_name.unicode_len();
            let mut k: usize = p + 1;
            while k < n
                invariant
                    n == file_name@.len(),
                    p < k <= n,
                    spec_last_dot(file_name@) == p,
                    forall|j: int| p < j < k ==> spec_is_ascii_alnum(file_name@[j]),
                decreases n - k,
            {
                let c = file_name.get_char(k);
                if !is_ascii_alnum(c) {
                    return String::from_str(file_name);
                }
                k += 1;
            }
            let prefix = file_name.substring_char(0, p + 1);
            let out = String::from_str(prefix).concat(new_extension);
            proof {
                assert(prefix@ =~= file_name@.take(p + 1));
            }
            out
        },
        None => String::from_str(file_name),
    }
}

/// The output path of one file: the output directory (with its trailing
/// separator) followed by the output file name.
pub fn output_path(output_dir: &str, file_name: &str) -> (r: String)
    ensures
        r@ == output_dir@ + file_name@,
{
    String::from_str(output_dir).concat(file_name)
}

} // verus!
