//! Shell integration text: the snippet the `shell` command prints for a
//! given shell, and the contents of the two generated configuration files.
//! All of it is plain text generation; writing the files and reading the
//! environment stay outside the library.

use vstd::prelude::*;
use vstd::string::StrSliceExecFns;
use vstd::string::StringExecFns;

use crate::error::Error;

verus! {

// ---------------------------------------------------------------------------
// The shell's name: the final component of the shell path.
// ---------------------------------------------------------------------------

/// `s` without trailing slashes.
pub open spec fn spec_strip_trailing_slashes(s: Seq<char>) -> Seq<char>
    decreases s.len(),
{
    if s.len() > 0 && s.last() == '/' {
        spec_strip_trailing_slashes(s.drop_last())
    } else {
        s
    }
}

/// The suffix of `s` after its last slash (`s` itself when it has none).
pub open spec fn spec_suffix_after_slash(s: Seq<char>) -> Seq<char>
    decreases s.len(),
{
    if s.len() == 0 {
        s
    } else if s.last() == '/' {
        Seq::empty()
    } else {
        spec_suffix_after_slash(s.drop_last()).push(s.last())
    }
}

/// The shell's name in a shell path: the final path component, ignoring
/// trailing slashes — `/usr/bin/zsh` names `zsh`.
pub open spec fn spec_shell_name(path: Seq<char>) -> Seq<char> {
    spec_suffix_after_slash(spec_strip_trailing_slashes(path))
}

/// The final component of the shell path, ignoring trailing slashes.
pub fn shell_name_of(path: &str) -> (r: String)
    ensures
        r@ == spec_shell_name(path@),
{
    let n = path.unicode_len();
    let mut end: usize = n;
    proof {
        assert(path@.subrange(0, n as int) =~= path@);
    }
    while end > 0 && path.get_char(end - 1) == '/'
        invariant
            0 <= end <= n,
            n == path@.len(),
            spec_strip_trailing_slashes(path@) == spec_strip_trailing_slashes(
                path@.subrange(0, end as int),
            ),
        decreases end,
    {
        proof {
            assert(path@.subrange(0, end as int).drop_last() =~= path@.subrange(0, end - 1));
        }
        end -= 1;
    }
    let ghost stripped = path@.subrange(0, end as int);
    proof {
        assert(spec_strip_trailing_slashes(stripped) == stripped);
        assert(stripped.skip(end as int) =~= Seq::<char>::empty());
        assert(stripped.subrange(0, end as int) =~= stripped);
        assert(spec_suffix_after_slash(stripped.subrange(0, end as int)) + stripped.skip(
            end as int,
        ) =~= spec_suffix_after_slash(stripped));
    }
    let mut start: usize = end;
    while start > 0 && path.get_char(start - 1) != '/'
        invariant
            0 <= start <= end <= n,
            n == path@.len(),
            stripped == path@.subrange(0, end as int),
            spec_suffix_after_slash(stripped) == spec_suffix_after_slash(
                stripped.subrange(0, start as int),
            ) + stripped.skip(start as int),
        decreases start,
    {
        proof {
            let pre = stripped.subrange(0, start as int);
            assert(pre.last() == path@[start - 1]);
            assert(pre.drop_last() =~= stripped.subrange(0, start - 1));
            assert(spec_suffix_after_slash(pre) == spec_suffix_after_slash(pre.drop_last()).push(
                pre.last(),
            ));
            assert(spec_suffix_after_slash(pre.drop_last()).push(pre.last()) + stripped.skip(
                start as int,
            ) =~= spec_suffix_after_slash(pre.drop_last()) + stripped.skip(start - 1));
        }
        start -= 1;
    }
    proof {
        let pre = stripped.subrange(0, start as int);
        if start > 0 {
            assert(pre.last() == path@[start - 1]);
            assert(spec_suffix_after_slash(pre) =~= Seq::<char>::empty());
        } else {
            assert(pre =~= Seq::<char>::empty());
            assert(spec_suffix_after_slash(pre) =~= Seq::<char>::empty());
        }
        assert(spec_shell_name(path@) == stripped.skip(start as int));
        assert(stripped.skip(start as int) =~= path@.subrange(start as int, end as int));
    }
    path.substring_char(start, end).to_owned()
}

// ---------------------------------------------------------------------------
// The snippet the `shell` command prints.
// ---------------------------------------------------------------------------

/// The snippet for `bash` and `zsh`: exports the configuration directory
/// and sources the generated `wasmerenv.sh` from it.
pub open spec fn spec_sh_snippet(shell: Seq<char>, dir: Seq<char>) -> Seq<char> {
    "\n# "@ + shell + " config for wasmerenv\n# copy this to ~/."@ + shell
        + "rc\nexport WASMERENV_DIR=\""@ + dir + "\"\n[ -s \""@ + dir
        + "/wasmerenv.sh\" ] && source \""@ + dir + "/wasmerenv.sh\"\n"@
}

/// The snippet for `fish`.
pub open spec fn spec_fish_snippet(shell: Seq<char>, dir: Seq<char>) -> Seq<char> {
    "\n# "@ + shell + " config for wasmerenv\n# Copy this to ~/.config/fish/config.fish\nset -x WASMER_DIR \""@
        + dir + "\"\nset -x PATH $WASMER_DIR/bin $PATH\n"@
}

/// The snippet for the named shell, or `None` for a shell the command does
/// not know.
pub open spec fn spec_shell_snippet(name: Seq<char>, dir: Seq<char>) -> Option<Seq<char>> {
    if name == "bash"@ || name == "zsh"@ {
        Some(spec_sh_snippet(name, dir))
    } else if name == "fish"@ {
        Some(spec_fish_snippet(name, dir))
    } else {
        None
    }
}

/// The integration snippet the `shell` command prints: the shell is named
/// by the final component of `shell_path`, and the snippet points it at the
/// configuration directory. An empty name is refused as an invalid path; a
/// shell without a snippet is refused by name.
pub fn shell_code(shell_path: &str, config_dir: &str) -> (r: Result<String, Error>)
    ensures
        ({
            let name = spec_shell_name(shell_path@);
            match r {
                Ok(code) => spec_shell_snippet(name, config_dir@) == Some(code@),
                Err(e) => {
                    &&& spec_shell_snippet(name, config_dir@) is None
                    &&& (if name.len() == 0 {
                        e is InvalidShellPath
                    } else {
                        e matches Error::ShellNotRecognized { name: n } && n@ == name
                    })
                },
            }
        }),
{
    let name = shell_name_of(shell_path);
    if name.as_str().is_empty() {
        proof {
            reveal_strlit("bash");
            reveal_strlit("zsh");
            reveal_strlit("fish");
        }
        return Err(Error::InvalidShellPath);
    }
    if crate::text::str_eq(name.as_str(), "bash") || crate::text::str_eq(name.as_str(), "zsh") {
        let mut code = String::from_str("\n# ");
        code.append(name.as_str());
        code.append(" config for wasmerenv\n# copy this to ~/.");
        code.append(name.as_str());
        code.append("rc\nexport WASMERENV_DIR=\"");
        code.append(config_dir);
        code.append("\"\n[ -s \"");
        code.append(config_dir);
        code.append("/wasmerenv.sh\" ] && source \"");
        code.append(config_dir);
        code.append("/wasmerenv.sh\"\n");
        Ok(code)
    } else if crate::text::str_eq(name.as_str(), "fish") {
        let mut code = String::from_str("\n# ");
        code.append(name.as_str());
        code.append(" config for wasmerenv\n# Copy this to ~/.config/fish/config.fish\nset -x WASMER_DIR \"");
        code.append(config_dir);
        code.append("\"\nset -x PATH $WASMER_DIR/bin $PATH\n");
        Ok(code)
    } else {
        Err(Error::ShellNotRecognized { name })
    }
}

// ---------------------------------------------------------------------------
// The generated configuration files.
// ---------------------------------------------------------------------------

/// The contents of the generated `wasmerenv.sh`: points `WASMER_DIR` at
/// the active installation and puts its binaries on the path.
pub open spec fn spec_sh_config(current_dir: Seq<char>) -> Seq<char> {
    "# wasmer config\nexport WASMER_DIR=\""@ + current_dir
        + "\"\nexport PATH=\"$WASMER_DIR/bin\":$PATH\n"@
}

/// The contents of the generated `wasmerenv.fish`.
pub open spec fn spec_fish_config(current_dir: Seq<char>) -> Seq<char> {
    "# wasmer config for fish\nset -x WASMER_DIR \""@ + current_dir
        + "\"\nset -x PATH $WASMER_DIR/bin $PATH\n"@
}

/// The contents of the generated `wasmerenv.sh`.
pub fn sh_config_contents(current_dir: &str) -> (r: String)
    ensures
        r@ == spec_sh_config(current_dir@),
{
    let mut s = String::from_str("# wasmer config\nexport WASMER_DIR=\"");
    s.append(current_dir);
    s.append("\"\nexport PATH=\"$WASMER_DIR/bin\":$PATH\n");
    s
}

/// The contents of the generated `wasmerenv.fish`.
pub fn fish_config_contents(current_dir: &str) -> (r: String)
    ensures
        r@ == spec_fish_config(current_dir@),
{
    let mut s = String::from_str("# wasmer config for fish\nset -x WASMER_DIR \"");
    s.append(current_dir);
    s.append("\"\nset -x PATH $WASMER_DIR/bin $PATH\n");
    s
}

} // verus!
