//! The Explorer context-menu entry "Annotate with QuickShotter" for image
//! files: the registry changes that add or remove it. The caller applies
//! them under `HKEY_CURRENT_USER` (Windows only).

use vstd::prelude::*;

verus! {

/// One change to the registry.
#[derive(Debug, PartialEq, Eq)]
pub enum RegistryOp {
    /// Create `subkey` if needed and set its value `name` (empty: the
    /// default value) to the string `value`.
    SetValue { subkey: String, name: String, value: String },
    /// Delete `subkey` with everything below it.
    DeleteTree { subkey: String },
}

/// A registry change as text.
pub enum RegistryOpView {
    SetValue(Seq<char>, Seq<char>, Seq<char>),
    DeleteTree(Seq<char>),
}

impl RegistryOp {
    pub open spec fn view_op(&self) -> RegistryOpView {
        match self {
            RegistryOp::SetValue { subkey, name, value } => RegistryOpView::SetValue(
                subkey@,
                name@,
                value@,
            ),
            RegistryOp::DeleteTree { subkey } => RegistryOpView::DeleteTree(subkey@),
        }
    }
}

/// The image file extensions that get the entry.
pub open spec fn image_extensions() -> Seq<Seq<char>> {
    seq![".png"@, ".jpg"@, ".jpeg"@, ".webp"@, ".bmp"@]
}

/// The shell key of the entry for one extension.
pub open spec fn shell_key(ext: Seq<char>) -> Seq<char> {
    "Software\\Classes\\SystemFileAssociations\\"@ + ext + "\\shell\\QuickShotter"@
}

/// The command line Explorer runs: the executable, `--annotate`, and the
/// clicked file, each quoted.
pub open spec fn annotate_command(exe: Seq<char>) -> Seq<char> {
    "\""@ + exe + "\" \"--annotate\" \"%1\""@
}

/// The changes for one extension.
pub open spec fn ops_for(ext: Seq<char>, exe: Seq<char>, enabled: bool) -> Seq<RegistryOpView> {
    let base = shell_key(ext);
    if enabled {
        seq![
            RegistryOpView::SetValue(base, ""@, "Annotate with QuickShotter"@),
            RegistryOpView::SetValue(base, "Icon"@, exe),
            RegistryOpView::SetValue(base + "\\command"@, ""@, annotate_command(exe)),
        ]
    } else {
        seq![RegistryOpView::DeleteTree(base)]
    }
}

/// The changes for the first `k` extensions, in order.
pub open spec fn ops_upto(exts: Seq<Seq<char>>, exe: Seq<char>, enabled: bool, k: nat) -> Seq<RegistryOpView>
    decreases k,
{
    if k == 0 || k > exts.len() {
        Seq::empty()
    } else {
        ops_upto(exts, exe, enabled, (k - 1) as nat) + ops_for(exts[k - 1], exe, enabled)
    }
}

fn push_ops_for(out: &mut Vec<RegistryOp>, ext: &str, exe: &str, enabled: bool)
    ensures
        final(out)@.map_values(|o: RegistryOp| o.view_op()) == old(out)@.map_values(
            |o: RegistryOp| o.view_op(),
        ) + ops_for(ext@, exe@, enabled),
{
    let mut base = String::from_str("Software\\Classes\\SystemFileAssociations\\");
    base.append(ext);
    base.append("\\shell\\QuickShotter");
    if enabled {
        let mut cmd_key = base.clone();
        cmd_key.append("\\command");
        let mut cmd = String::from_str("\"");
        cmd.append(exe);
        cmd.append("\" \"--annotate\" \"%1\"");
        out.push(
            RegistryOp::SetValue {
                subkey: base.clone(),
                name: String::new(),
                value: String::from_str("Annotate with QuickShotter"),
            },
        );
        out.push(
            RegistryOp::SetValue {
                subkey: base,
                name: String::from_str("Icon"),
                value: String::from_str(exe),
            },
        );
        out.push(RegistryOp::SetValue { subkey: cmd_key, name: String::new(), value: cmd });
        proof {
            reveal_strlit("");
            assert(Seq::<char>::empty() =~= ""@);
        }
    } else {
        out.push(RegistryOp::DeleteTree { subkey: base });
    }
    assert(final(out)@.map_values(|o: RegistryOp| o.view_op()) =~= old(out)@.map_values(
        |o: RegistryOp| o.view_op(),
    ) + ops_for(ext@, exe@, enabled));
}

/// The registry changes that add (`enabled`) or remove the context-menu
/// entry for every image extension, for the executable at `exe`.
pub fn set_context_menu(exe: &str, enabled: bool) -> (ops: Vec<RegistryOp>)
    ensures
        ops@.map_values(|o: RegistryOp| o.view_op()) == ops_upto(image_extensions(), exe@, enabled, 5),
{
    let exts: [&str; 5] = [".png", ".jpg", ".jpeg", ".webp", ".bmp"];
    let mut out: Vec<RegistryOp> = Vec::new();
    let mut i: usize = 0;
    while i < 5
        invariant
            i <= 5,
            forall|k: int| 0 <= k < 5 ==> #[trigger] exts@[k]@ == image_extensions()[k],
            out@.map_values(|o: RegistryOp| o.view_op()) == ops_upto(
                image_extensions(),
                exe@,
                enabled,
                i as nat,
            ),
        decreases 5 - i,
    {
        push_ops_for(&mut out, exts[i], exe, enabled);
        i += 1;
    }
    out
}

} // verus!
