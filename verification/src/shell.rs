//! Shell commands that hand the project root to the operator.
//!
//! A child process cannot change its parent shell's environment, so after a
//! successful run the tool prints a command the operator can paste.  The
//! project-root path goes into that command quoted; the quote-escaping rules
//! differ per shell family and are verified here character by character.

use vstd::prelude::*;

verus! {

/// Name of the environment variable that carries the project root.
pub open spec fn spec_env_var_name() -> Seq<char> {
    "C2RUST_PROJECT_ROOT"@
}

/// Name of the environment variable that carries the project root.
pub fn env_var_name() -> (r: &'static str)
    ensures
        r@ == spec_env_var_name(),
{
    "C2RUST_PROJECT_ROOT"
}

/// POSIX single-quoting of one character: a quote closes the quoted span,
/// stands escaped on its own, and reopens the span; everything else is
/// literal inside single quotes.
pub open spec fn spec_posix_escape_char(c: char) -> Seq<char> {
    if c == '\'' {
        seq!['\'', '\\', '\'', '\'']
    } else {
        seq![c]
    }
}

/// A string made safe for a POSIX single-quoted context.
pub open spec fn spec_posix_escaped(s: Seq<char>) -> Seq<char>
    decreases s.len(),
{
    if s.len() == 0 {
        Seq::empty()
    } else {
        spec_posix_escaped(s.drop_last()) + spec_posix_escape_char(s.last())
    }
}

/// PowerShell single-quoting of one character: a quote is doubled;
/// everything else is literal inside single quotes.
pub open spec fn spec_powershell_escape_char(c: char) -> Seq<char> {
    if c == '\'' {
        seq!['\'', '\'']
    } else {
        seq![c]
    }
}

/// A string made safe for a PowerShell single-quoted context.
pub open spec fn spec_powershell_escaped(s: Seq<char>) -> Seq<char>
    decreases s.len(),
{
    if s.len() == 0 {
        Seq::empty()
    } else {
        spec_powershell_escaped(s.drop_last()) + spec_powershell_escape_char(s.last())
    }
}

/// Escape a string for a POSIX single-quoted context.
pub fn posix_escape(s: &str) -> (r: String)
    ensures
        r@ == spec_posix_escaped(s@),
{
    let n = s.unicode_len();
    let mut out = String::new();
    let mut i: usize = 0;
    while i < n
        invariant
            i <= n,
            n == s@.len(),
            out@ == spec_posix_escaped(s@.take(i as int)),
        decreases n - i,
    {
        let c = s.get_char(i);
        if c == '\'' {
            out.append("'\\''");
            proof {
                reveal_strlit("'\\''");
                assert("'\\''"@ =~= seq!['\'', '\\', '\'', '\'']);
            }
        } else {
            let piece = s.substring_char(i, i + 1);
            out.append(piece);
            proof {
                assert(piece@ =~= seq![s@[i as int]]);
            }
        }
        proof {
            assert(s@.take(i + 1 as int).drop_last() =~= s@.take(i as int));
            assert(s@.take(i + 1 as int).last() == s@[i as int]);
        }
        i = i + 1;
    }
    proof {
        assert(s@.take(n as int) =~= s@);
    }
    out
}

/// Escape a string for a PowerShell single-quoted context.
pub fn powershell_escape(s: &str) -> (r: String)
    ensures
        r@ == spec_powershell_escaped(s@),
{
    let n = s.unicode_len();
    let mut out = String::new();
    let mut i: usize = 0;
    while i < n
        invariant
            i <= n,
            n == s@.len(),
            out@ == spec_powershell_escaped(s@.take(i as int)),
        decreases n - i,
    {
        let c = s.get_char(i);
        if c == '\'' {
            out.append("''");
            proof {
                reveal_strlit("''");
                assert("''"@ =~= seq!['\'', '\'']);
            }
        } else {
            let piece = s.substring_char(i, i + 1);
            out.append(piece);
            proof {
                assert(piece@ =~= seq![s@[i as int]]);
            }
        }
        proof {
            assert(s@.take(i + 1 as int).drop_last() =~= s@.take(i as int));
            assert(s@.take(i + 1 as int).last() == s@[i as int]);
        }
        i = i + 1;
    }
    proof {
        assert(s@.take(n as int) =~= s@);
    }
    out
}

/// The `export` command for POSIX shells, with the project root
/// single-quoted and escaped.
pub fn posix_export_command(dir: &str) -> (r: String)
    ensures
        r@ == "export C2RUST_PROJECT_ROOT='"@ + spec_posix_escaped(dir@) + "'"@,
{
    let escaped = posix_escape(dir);
    String::from_str("export C2RUST_PROJECT_ROOT='").concat(escaped.as_str()).concat("'")
}

/// The assignment for PowerShell, with the project root single-quoted and
/// escaped.
pub fn powershell_export_command(dir: &str) -> (r: String)
    ensures
        r@ == "$env:C2RUST_PROJECT_ROOT = '"@ + spec_powershell_escaped(dir@) + "'"@,
{
    let escaped = powershell_escape(dir);
    String::from_str("$env:C2RUST_PROJECT_ROOT = '").concat(escaped.as_str()).concat("'")
}

/// The `set` command for `cmd.exe`, with the assignment double-quoted; the
/// path goes in verbatim.
pub fn cmd_export_command(dir: &str) -> (r: String)
    ensures
        r@ == "set \"C2RUST_PROJECT_ROOT="@ + dir@ + "\""@,
{
    String::from_str("set \"C2RUST_PROJECT_ROOT=").concat(dir).concat("\"")
}

} // verus!
