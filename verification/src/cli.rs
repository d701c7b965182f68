//! Command-line arguments: `--annotate <file>` (Explorer context menu) or a
//! bare image path (open-with, drag and drop) opens the annotation editor.

use vstd::prelude::*;
use crate::text::{str_chars, str_eq};

verus! {

/// ASCII letters lowered; other characters kept.
pub open spec fn ascii_lower(c: char) -> char {
    if 'A' <= c && c <= 'Z' {
        ((c as u32) + 32) as char
    } else {
        c
    }
}

/// The extensions of the image files the editor opens, compared without
/// regard to ASCII case.
pub open spec fn is_image_extension(e: Seq<char>) -> bool {
    let l = e.map_values(|c: char| ascii_lower(c));
    l == "png"@ || l == "jpg"@ || l == "jpeg"@ || l == "webp"@ || l == "bmp"@
}

fn lower_char(c: char) -> (r: char)
    ensures
        r == ascii_lower(c),
{
    if 'A' <= c && c <= 'Z' {
        ((c as u8) + 32) as char
    } else {
        c
    }
}

fn lowered(s: &str) -> (r: Vec<char>)
    ensures
        r@ == s@.map_values(|c: char| ascii_lower(c)),
{
    let cs = str_chars(s);
    let mut out: Vec<char> = Vec::new();
    let mut i: usize = 0;
    while i < cs.len()
        invariant
            cs@ == s@,
            i <= cs@.len(),
            out@ == s@.map_values(|c: char| ascii_lower(c)).take(i as int),
        decreases cs@.len() - i,
    {
        out.push(lower_char(cs[i]));
        i += 1;
        assert(out@ =~= s@.map_values(|c: char| ascii_lower(c)).take(i as int));
    }
    assert(out@ =~= s@.map_values(|c: char| ascii_lower(c)));
    out
}

fn chars_eq(a: &Vec<char>, b: &str) -> (r: bool)
    ensures
        r == (a@ == b@),
{
    let y = str_chars(b);
    if a.len() != y.len() {
        return false;
    }
    let mut i: usize = 0;
    while i < a.len()
        invariant
            y@ == b@,
            a@.len() == y@.len(),
            i <= a@.len(),
            forall|k: int| 0 <= k < i ==> a@[k] == y@[k],
        decreases a@.len() - i,
    {
        if a[i] != y[i] {
            return false;
        }
        i += 1;
    }
    assert(a@ =~= y@);
    true
}

/// Whether a file extension names an image the editor opens.
pub fn image_extension(ext: &str) -> (r: bool)
    ensures
        r == is_image_extension(ext@),
{
    let l = lowered(ext);
    chars_eq(&l, "png") || chars_eq(&l, "jpg") || chars_eq(&l, "jpeg") || chars_eq(&l, "webp")
        || chars_eq(&l, "bmp")
}

/// What the command line asks for.
#[derive(Debug, PartialEq, Eq)]
pub enum CliAction {
    /// Open the editor on the file given by argument `index`.
    AnnotateFile(usize),
    /// `--annotate` named argument `index`, which does not exist.
    FileNotFound(usize),
    /// Nothing to do.
    Nothing,
}

/// The action for the arguments from position `i` on. `exts[k]` is the
/// extension of argument `k` read as a path, `exists[k]` whether that path
/// exists. The first `--annotate` decides (with the argument after it, if
/// any); before it, the first existing path with an image extension does.
pub open spec fn cli_action_from(
    args: Seq<Seq<char>>,
    exts: Seq<Option<Seq<char>>>,
    exists: Seq<bool>,
    i: int,
) -> CliAction
    decreases args.len() - i,
{
    if i < 0 || i >= args.len() {
        CliAction::Nothing
    } else if args[i] == "--annotate"@ {
        if i + 1 < args.len() {
            if exists[i + 1] {
                CliAction::AnnotateFile((i + 1) as usize)
            } else {
                CliAction::FileNotFound((i + 1) as usize)
            }
        } else {
            CliAction::Nothing
        }
    } else if exts[i] matches Some(e) && is_image_extension(e) && exists[i] {
        CliAction::AnnotateFile(i as usize)
    } else {
        cli_action_from(args, exts, exists, i + 1)
    }
}

/// Decides what the command line asks for (see `cli_action_from`).
pub fn cli_action(args: &[String], exts: &[Option<String>], exists: &[bool]) -> (r: CliAction)
    requires
        exts@.len() == args@.len(),
        exists@.len() == args@.len(),
    ensures
        r == cli_action_from(
            args@.map_values(|a: String| a@),
            exts@.map_values(
                |e: Option<String>|
                    match e {
                        Some(s) => Some(s@),
                        None => None,
                    },
            ),
            exists@,
            0,
        ),
{
    let ghost a = args@.map_values(|a: String| a@);
    let ghost x = exts@.map_values(
        |e: Option<String>|
            match e {
                Some(s) => Some(s@),
                None => None,
            },
    );
    let mut i: usize = 0;
    while i < args.len()
        invariant
            exts@.len() == args@.len(),
            exists@.len() == args@.len(),
            a == args@.map_values(|a: String| a@),
            x == exts@.map_values(
                |e: Option<String>|
                    match e {
                        Some(s) => Some(s@),
                        None => None,
                    },
            ),
            i <= args@.len(),
            cli_action_from(a, x, exists@, i as int) == cli_action_from(a, x, exists@, 0),
        decreases args@.len() - i,
    {
        if str_eq(args[i].as_str(), "--annotate") {
            if i + 1 < args.len() {
                if exists[i + 1] {
                    return CliAction::AnnotateFile(i + 1);
                } else {
                    return CliAction::FileNotFound(i + 1);
                }
            }
            return CliAction::Nothing;
        }
        let is_image = match &exts[i] {
            Some(e) => image_extension(e.as_str()),
            None => false,
        };
        if is_image && exists[i] {
            return CliAction::AnnotateFile(i);
        }
        i += 1;
    }
    CliAction::Nothing
}

} // verus!
