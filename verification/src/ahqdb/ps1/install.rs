//! Escaping of values for PowerShell and the install command line.
use vstd::prelude::*;
use vstd::string::StringExecFns;

use crate::text::{chars_of, push_char};
use crate::zip::link::Type;

verus! {

/// How one character is written in a PowerShell string: `"`, `$` and the
/// backtick are escaped with a backtick, newline, carriage return and tab
/// become `` `n ``, `` `r `` and `` `t ``; everything else stays.
pub open spec fn pwsh_escape_char(c: char) -> Seq<char> {
    if c == '"' {
        seq!['`', '"']
    } else if c == '$' {
        seq!['`', '$']
    } else if c == '`' {
        seq!['`', '`']
    } else if c == '\n' {
        seq!['`', 'n']
    } else if c == '\r' {
        seq!['`', 'r']
    } else if c == '\t' {
        seq!['`', 't']
    } else {
        seq![c]
    }
}

/// The escaped form of a whole string: each character escaped in turn.
pub open spec fn pwsh_escaped(s: Seq<char>) -> Seq<char>
    decreases s.len(),
{
    if s.len() == 0 {
        Seq::empty()
    } else {
        pwsh_escape_char(s[0]) + pwsh_escaped(s.drop_first())
    }
}

/// The character that an escape sequence `` `d `` stands for.
pub open spec fn pwsh_unescape_char(d: char) -> char {
    if d == 'n' {
        '\n'
    } else if d == 'r' {
        '\r'
    } else if d == 't' {
        '\t'
    } else {
        d
    }
}

/// Reads an escaped string back: a backtick and the character after it stand
/// for one character.
pub open spec fn pwsh_unescaped(t: Seq<char>) -> Seq<char>
    decreases t.len(),
{
    if t.len() == 0 {
        Seq::empty()
    } else if t[0] == '`' && t.len() >= 2 {
        seq![pwsh_unescape_char(t[1])] + pwsh_unescaped(t.skip(2))
    } else {
        seq![t[0]] + pwsh_unescaped(t.drop_first())
    }
}

proof fn lemma_pwsh_escaped_append(a: Seq<char>, b: Seq<char>)
    ensures
        pwsh_escaped(a + b) == pwsh_escaped(a) + pwsh_escaped(b),
    decreases a.len(),
{
    if a.len() == 0 {
        assert(a + b =~= b);
    } else {
        assert((a + b).drop_first() =~= a.drop_first() + b);
        lemma_pwsh_escaped_append(a.drop_first(), b);
        assert((a + b)[0] == a[0]);
    }
}

proof fn lemma_pwsh_escaped_single(c: char)
    ensures
        pwsh_escaped(seq![c]) == pwsh_escape_char(c),
{
    assert(seq![c].drop_first() =~= Seq::<char>::empty());
    assert(pwsh_escaped(Seq::<char>::empty()) == Seq::<char>::empty());
    assert(pwsh_escape_char(c) + Seq::<char>::empty() =~= pwsh_escape_char(c));
}

/// Escapes `"`, `$`, `` ` ``, newline, carriage return and tab for use inside
/// a PowerShell command line.
pub fn to_pwsh_string(dat: &str) -> (data: String)
    ensures
        data@ == pwsh_escaped(dat@),
        (forall|i: int| 0 <= i < dat@.len() ==> !is_pwsh_special(#[trigger] dat@[i])) ==> data@ == dat@,
{
    proof {
        lemma_pwsh_escape_only_specials(dat@);
    }
    let chars = chars_of(dat);
    let mut data = String::new();
    let mut i: usize = 0;
    while i < chars.len()
        invariant
            i <= chars.len(),
            chars@ == dat@,
            data@ == pwsh_escaped(chars@.take(i as int)),
        decreases chars.len() - i,
    {
        let c = chars[i];
        proof {
            assert(chars@.take(i + 1) =~= chars@.take(i as int) + seq![c]);
            lemma_pwsh_escaped_append(chars@.take(i as int), seq![c]);
            lemma_pwsh_escaped_single(c);
        }
        if c == '"' {
            push_char(&mut data, '`');
            push_char(&mut data, '"');
        } else if c == '$' {
            push_char(&mut data, '`');
            push_char(&mut data, '$');
        } else if c == '`' {
            push_char(&mut data, '`');
            push_char(&mut data, '`');
        } else if c == '\n' {
            push_char(&mut data, '`');
            push_char(&mut data, 'n');
        } else if c == '\r' {
            push_char(&mut data, '`');
            push_char(&mut data, 'r');
        } else if c == '\t' {
            push_char(&mut data, '`');
            push_char(&mut data, 't');
        } else {
            push_char(&mut data, c);
        }
        assert(data@ =~= pwsh_escaped(chars@.take(i + 1)));
        i = i + 1;
    }
    assert(chars@.take(chars.len() as int) =~= chars@);
    data
}

/// One of the six characters that PowerShell escaping touches: `"`, `$`,
/// the backtick, newline, carriage return and tab.
pub open spec fn is_pwsh_special(c: char) -> bool {
    c == '"' || c == '$' || c == '`' || c == '\n' || c == '\r' || c == '\t'
}

/// Escaping touches only the six special characters: any other character
/// (a letter, a space, a parenthesis, a backslash, ...) is written as it is,
/// and a text without special characters escapes to itself. Each special
/// character becomes a backtick followed by one character.
pub proof fn lemma_pwsh_escape_only_specials(s: Seq<char>)
    ensures
        forall|c: char| !is_pwsh_special(c) ==> #[trigger] pwsh_escape_char(c) == seq![c],
        forall|c: char| is_pwsh_special(c) ==> (#[trigger] pwsh_escape_char(c)).len() == 2
            && pwsh_escape_char(c)[0] == '`',
        (forall|i: int| 0 <= i < s.len() ==> !is_pwsh_special(#[trigger] s[i])) ==> pwsh_escaped(s) == s,
    decreases s.len(),
{
    if s.len() > 0 {
        lemma_pwsh_escape_only_specials(s.drop_first());
        if forall|i: int| 0 <= i < s.len() ==> !is_pwsh_special(#[trigger] s[i]) {
            let tail = s.drop_first();
            assert forall|i: int| 0 <= i < tail.len() implies !is_pwsh_special(#[trigger] tail[i]) by {
                assert(tail[i] == s[i + 1]);
            }
            assert(!is_pwsh_special(s[0]));
            assert(seq![s[0]] + tail =~= s);
        }
    }
}

/// Escaping loses nothing: reading the escaped string back gives the
/// original, so two different values never escape to the same text.
pub proof fn lemma_pwsh_escape_roundtrip(s: Seq<char>)
    ensures
        pwsh_unescaped(pwsh_escaped(s)) == s,
    decreases s.len(),
{
    if s.len() > 0 {
        let c = s[0];
        let rest = pwsh_escaped(s.drop_first());
        lemma_pwsh_escape_roundtrip(s.drop_first());
        let t = pwsh_escape_char(c) + rest;
        if pwsh_escape_char(c).len() == 2 {
            assert(t.skip(2) =~= rest);
        } else {
            assert(t.drop_first() =~= rest);
        }
        assert(seq![c] + s.drop_first() =~= s);
    }
}

/// The escaped form holds no raw newline, carriage return or tab.
pub proof fn lemma_pwsh_escaped_single_line(s: Seq<char>)
    ensures
        forall|i: int|
            0 <= i < pwsh_escaped(s).len() ==> {
                let c = #[trigger] pwsh_escaped(s)[i];
                c != '\n' && c != '\r' && c != '\t'
            },
    decreases s.len(),
{
    if s.len() > 0 {
        lemma_pwsh_escaped_single_line(s.drop_first());
        let head = pwsh_escape_char(s[0]);
        let rest = pwsh_escaped(s.drop_first());
        assert forall|i: int| 0 <= i < pwsh_escaped(s).len() implies {
            let c = #[trigger] pwsh_escaped(s)[i];
            c != '\n' && c != '\r' && c != '\t'
        } by {
            if i >= head.len() {
                assert(pwsh_escaped(s)[i] == rest[i - head.len()]);
            }
        }
    }
}

/// The execution mode that a script is told about.
pub open spec fn execution_mode(ty: Type) -> Seq<char> {
    match ty {
        Type::AllUsers => "AdminMode"@,
        Type::CurrentUser => "UserMode"@,
    }
}

pub fn execution_mode_str(ty: &Type) -> (s: &'static str)
    ensures
        s@ == execution_mode(*ty),
{
    match ty {
        Type::AllUsers => "AdminMode",
        Type::CurrentUser => "UserMode",
    }
}

/// The PowerShell arguments that run an install or uninstall script with
/// the install directory and the execution mode in its environment.
pub open spec fn install_command(script: Seq<char>, ahqdb_dir: Seq<char>, ty: Type) -> Seq<char> {
    "-ExecutionPolicy Bypass -Command \"& {$env:AHQDB_INSTALL_DIR='"@ + pwsh_escaped(ahqdb_dir)
        + "'; $env:EXECUTION_MODE='"@ + execution_mode(ty) + "'; (cat '"@ + pwsh_escaped(script)
        + "' | iex)}\""@
}

/// Builds the arguments with which `powershell.exe` runs an install or an
/// uninstall script; the launch itself is the caller's.
pub fn install_script_arguments(script: &str, ahqdb_dir: &str, ty: &Type) -> (command: String)
    ensures
        command@ == install_command(script@, ahqdb_dir@, *ty),
{
    let parsed_path = to_pwsh_string(ahqdb_dir);
    let script_path = to_pwsh_string(script);
    let mut command = String::new();
    command.append("-ExecutionPolicy Bypass -Command \"& {$env:AHQDB_INSTALL_DIR='");
    command.append(parsed_path.as_str());
    command.append("'; $env:EXECUTION_MODE='");
    command.append(execution_mode_str(ty));
    command.append("'; (cat '");
    command.append(script_path.as_str());
    command.append("' | iex)}\"");
    command
}

} // verus!
