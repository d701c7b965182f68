//! Interpreting the answer of the catbox.moe file host after an upload.

use vstd::prelude::*;
use crate::error::AppError;
use crate::text::{starts_with, str_chars, string_of_chars};

verus! {

/// `char::is_whitespace`: the Unicode `White_Space` characters.
pub open spec fn is_space(c: char) -> bool {
    ('\u{9}' <= c && c <= '\u{d}') || c == ' ' || c == '\u{85}' || c == '\u{a0}' || c == '\u{1680}'
        || ('\u{2000}' <= c && c <= '\u{200a}') || c == '\u{2028}' || c == '\u{2029}' || c
        == '\u{202f}' || c == '\u{205f}' || c == '\u{3000}'
}

fn space(c: char) -> (r: bool)
    ensures
        r == is_space(c),
{
    ('\u{9}' <= c && c <= '\u{d}') || c == ' ' || c == '\u{85}' || c == '\u{a0}' || c == '\u{1680}'
        || ('\u{2000}' <= c && c <= '\u{200a}') || c == '\u{2028}' || c == '\u{2029}' || c
        == '\u{202f}' || c == '\u{205f}' || c == '\u{3000}'
}

/// `s` without leading and trailing whitespace (`str::trim`): the text
/// from the first to the last non-space character.
pub open spec fn spec_trim(s: Seq<char>, a: int, b: int) -> bool {
    &&& 0 <= a <= b <= s.len()
    &&& forall|i: int| 0 <= i < a ==> is_space(#[trigger] s[i])
    &&& forall|i: int| b <= i < s.len() ==> is_space(#[trigger] s[i])
    &&& a < b ==> !is_space(s[a]) && !is_space(s[b - 1])
}

/// Removes leading and trailing whitespace.
pub fn trim(s: &str) -> (r: String)
    ensures
        exists|a: int, b: int| spec_trim(s@, a, b) && r@ == s@.subrange(a, b),
{
    let cs = str_chars(s);
    let n = cs.len();
    let mut a: usize = 0;
    while a < n && space(cs[a])
        invariant
            cs@ == s@,
            n == cs@.len(),
            a <= n,
            forall|i: int| 0 <= i < a ==> is_space(#[trigger] s@[i]),
        decreases n - a,
    {
        a += 1;
    }
    let mut b: usize = n;
    while b > a && space(cs[b - 1])
        invariant
            cs@ == s@,
            n == cs@.len(),
            a <= b <= n,
            a < n ==> !is_space(s@[a as int]),
            forall|i: int| b <= i < n ==> is_space(#[trigger] s@[i]),
        decreases b - a,
    {
        b -= 1;
    }
    let mut out: Vec<char> = Vec::new();
    let mut k: usize = a;
    while k < b
        invariant
            cs@ == s@,
            a <= k <= b <= n,
            n == cs@.len(),
            out@ == s@.subrange(a as int, k as int),
        decreases b - k,
    {
        out.push(cs[k]);
        k += 1;
        assert(out@ =~= s@.subrange(a as int, k as int));
    }
    assert(spec_trim(s@, a as int, b as int));
    string_of_chars(out.as_slice())
}

/// The upload result from curl's exit status and output: the file URL
/// (trimmed output starting with `https://`), or an upload error.
pub fn catbox_result(success: bool, stdout: &str, stderr: &str) -> (r: Result<String, AppError>)
    ensures
        !success ==> (r matches Err(e) && e is Upload && e.message() == "curl failed: "@ + stderr@),
        success ==> exists|a: int, b: int|
            spec_trim(stdout@, a, b) && {
                let url = stdout@.subrange(a, b);
                if url.len() >= 8 && url.take(8) == "https://"@ {
                    r matches Ok(u) && u@ == url
                } else {
                    r matches Err(e) && e is Upload && e.message() == "Unexpected catbox response: "@
                        + url
                }
            },
{
    if !success {
        let mut m = String::from_str("curl failed: ");
        m.append(stderr);
        return Err(AppError::Upload(m));
    }
    let url = trim(stdout);
    proof {
        reveal_strlit("https://");
    }
    if starts_with(url.as_str(), "https://") {
        Ok(url)
    } else {
        let mut m = String::from_str("Unexpected catbox response: ");
        m.append(url.as_str());
        Err(AppError::Upload(m))
    }
}

} // verus!
