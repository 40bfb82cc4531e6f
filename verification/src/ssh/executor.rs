use vstd::prelude::*;

use crate::text::{chars_of, skip_spaces_forward, trim_start_spaces};

verus! {

/// The four characters that stand for one single quote inside a single-quoted shell word:
/// close the quote, an escaped quote, open the quote again.
pub open spec fn quote_escape() -> Seq<char> {
    "'\\''"@
}

/// `s` with every single quote replaced by `'\''`, so that `'` + result + `'` is one shell
/// word whose value is `s` (`str::replace('\'', "'\\''")`).
pub open spec fn escape_quotes(s: Seq<char>) -> Seq<char>
    decreases s.len(),
{
    if s.len() == 0 {
        Seq::empty()
    } else if s.last() == '\'' {
        escape_quotes(s.drop_last()) + quote_escape()
    } else {
        escape_quotes(s.drop_last()).push(s.last())
    }
}

/// Reads back a text made by `escape_quotes`: each `'\''` stands for one quote.
pub open spec fn unescape_quotes(t: Seq<char>) -> Seq<char>
    decreases t.len(),
{
    if t.len() >= 4 && t.subrange(t.len() - 4, t.len() as int) == quote_escape() {
        unescape_quotes(t.subrange(0, t.len() - 4)).push('\'')
    } else if t.len() > 0 {
        unescape_quotes(t.drop_last()).push(t.last())
    } else {
        Seq::empty()
    }
}

pub proof fn lemma_escape_concat(a: Seq<char>, b: Seq<char>)
    ensures
        escape_quotes(a + b) == escape_quotes(a) + escape_quotes(b),
    decreases b.len(),
{
    if b.len() == 0 {
        assert(a + b =~= a);
        assert(escape_quotes(a) + escape_quotes(b) =~= escape_quotes(a));
    } else {
        lemma_escape_concat(a, b.drop_last());
        assert((a + b).drop_last() =~= a + b.drop_last());
        assert((a + b).last() == b.last());
        if b.last() == '\'' {
            assert(escape_quotes(a) + escape_quotes(b) =~= escape_quotes(a) + escape_quotes(
                b.drop_last(),
            ) + quote_escape());
        } else {
            assert(escape_quotes(a) + escape_quotes(b) =~= (escape_quotes(a) + escape_quotes(
                b.drop_last(),
            )).push(b.last()));
        }
    }
}

pub proof fn lemma_escape_plain(b: Seq<char>)
    requires
        forall|k: int| 0 <= k < b.len() ==> b[k] != '\'',
    ensures
        escape_quotes(b) == b,
    decreases b.len(),
{
    if b.len() > 0 {
        lemma_escape_plain(b.drop_last());
        assert(b.drop_last().push(b.last()) =~= b);
    }
}

/// Escaping a password for a single-quoted shell word loses nothing: reading the escaped
/// text back gives the password again.
pub proof fn escape_quotes_round_trip(s: Seq<char>)
    ensures
        unescape_quotes(escape_quotes(s)) == s,
    decreases s.len(),
{
    reveal_strlit("'\\''");
    if s.len() > 0 {
        escape_quotes_round_trip(s.drop_last());
        let e = escape_quotes(s);
        let prev = escape_quotes(s.drop_last());
        if s.last() == '\'' {
            assert(e.subrange(e.len() - 4, e.len() as int) =~= quote_escape());
            assert(e.subrange(0, e.len() - 4) =~= prev);
        } else {
            assert(e == prev.push(s.last()));
            if e.len() >= 4 {
                assert(e.subrange(e.len() - 4, e.len() as int)[3] == s.last());
                assert(quote_escape()[3] == '\'');
            }
            assert(e.drop_last() =~= prev);
        }
        assert(s.drop_last().push(s.last()) =~= s);
    }
}

/// `s` with every single quote replaced by `'\''`.
pub fn escape_single_quotes(s: &str) -> (r: String)
    ensures
        r@ == escape_quotes(s@),
{
    let cs = chars_of(s);
    let n = cs.len();
    let mut r = String::new();
    let mut seg: usize = 0;
    let mut i: usize = 0;
    assert(s@.take(0) =~= Seq::<char>::empty());
    while i < n
        invariant
            n == cs@.len(),
            cs@ == s@,
            seg <= i <= n,
            r@ == escape_quotes(s@.take(seg as int)),
            forall|k: int| seg <= k < i ==> s@[k] != '\'',
        decreases n - i,
    {
        if cs[i] == '\'' {
            let piece = s.substring_char(seg, i);
            r.append(piece);
            r.append("'\\''");
            proof {
                let mid = s@.subrange(seg as int, i as int);
                lemma_escape_plain(mid);
                assert(s@.take(i as int) =~= s@.take(seg as int) + mid);
                lemma_escape_concat(s@.take(seg as int), mid);
                assert(s@.take(i + 1).drop_last() =~= s@.take(i as int));
                assert(s@.take(i + 1).last() == '\'');
            }
            seg = i + 1;
        }
        i = i + 1;
    }
    let tail = s.substring_char(seg, n);
    r.append(tail);
    proof {
        let mid = s@.subrange(seg as int, n as int);
        lemma_escape_plain(mid);
        assert(s@ =~= s@.take(seg as int) + mid);
        lemma_escape_concat(s@.take(seg as int), mid);
    }
    r
}

/// `s` without any number of leading `"sudo "` (`str::trim_start_matches("sudo ")`).
pub open spec fn strip_sudo(s: Seq<char>) -> Seq<char>
    decreases s.len(),
{
    if s.len() >= 5 && s.take(5) == "sudo "@ {
        strip_sudo(s.skip(5))
    } else {
        s
    }
}

/// Whether the command, once its leading white space is gone, starts with `"sudo "`.
pub open spec fn uses_sudo(command: Seq<char>) -> bool {
    let t = trim_start_spaces(command);
    t.len() >= 5 && t.take(5) == "sudo "@
}

/// The command that is sent to the host for `command`: when a sudo password is known and
/// the command starts with `sudo `, the password is fed to `sudo -S` on its standard input.
pub open spec fn prepared_command(sudo_password: Option<Seq<char>>, command: Seq<char>) -> Seq<
    char,
> {
    match sudo_password {
        Some(pw) => if uses_sudo(command) {
            "echo '"@ + escape_quotes(pw) + "' | sudo -S "@ + strip_sudo(
                trim_start_spaces(command),
            )
        } else {
            command
        },
        None => command,
    }
}

/// Only commands that start with `sudo ` are rewritten, and only when a sudo password is
/// known; every other command is sent as it is.
pub proof fn prepare_leaves_other_commands_alone(password: Option<Seq<char>>, command: Seq<char>)
    ensures
        password is None ==> prepared_command(password, command) == command,
        !uses_sudo(command) ==> prepared_command(password, command) == command,
{
}

/// Whether `cs[at..]` starts with `p`.
fn has_prefix_at(cs: &Vec<char>, at: usize, p: &Vec<char>) -> (b: bool)
    requires
        at <= cs@.len(),
    ensures
        b == (at + p@.len() <= cs@.len() && cs@.subrange(at as int, at + p@.len()) == p@),
{
    if p.len() > cs.len() - at {
        return false;
    }
    let mut k: usize = 0;
    while k < p.len()
        invariant
            at + p@.len() <= cs@.len(),
            cs@.len() == cs.len(),
            k <= p@.len(),
            forall|m: int| 0 <= m < k ==> cs@[at + m] == p@[m],
        decreases p@.len() - k,
    {
        if cs[at + k] != p[k] {
            assert(cs@.subrange(at as int, at + p@.len())[k as int] != p@[k as int]);
            return false;
        }
        k = k + 1;
    }
    assert(cs@.subrange(at as int, at + p@.len()) =~= p@);
    true
}

/// The text that is sent for `command` (see `prepared_command`).
pub fn prepare(sudo_password: Option<&str>, command: &str) -> (cmd: String)
    ensures
        cmd@ == prepared_command(
            match sudo_password {
                Some(pw) => Some(pw@),
                None => None,
            },
            command@,
        ),
{
    let pw = match sudo_password {
        Some(pw) => pw,
        None => {
            return String::from_str(command);
        },
    };
    let cs = chars_of(command);
    let n = cs.len();
    let sudo = chars_of("sudo ");
    let start = skip_spaces_forward(&cs, 0, n);
    assert(cs@.subrange(0, n as int) =~= cs@);
    proof {
        reveal_strlit("sudo ");
    }
    let starts = has_prefix_at(&cs, start, &sudo);
    assert(trim_start_spaces(command@) == cs@.subrange(start as int, n as int));
    assert(starts == uses_sudo(command@)) by {
        let t = cs@.subrange(start as int, n as int);
        if t.len() >= 5 {
            assert(t.take(5) =~= cs@.subrange(start as int, start + 5));
        }
    }
    if !starts {
        return String::from_str(command);
    }
    let mut j = start;
    while has_prefix_at(&cs, j, &sudo)
        invariant
            start <= j <= n,
            n == cs@.len(),
            sudo@ == "sudo "@,
            sudo@.len() == 5,
            strip_sudo(cs@.subrange(start as int, n as int)) == strip_sudo(
                cs@.subrange(j as int, n as int),
            ),
        decreases n - j,
    {
        proof {
            let t = cs@.subrange(j as int, n as int);
            assert(t.take(5) =~= cs@.subrange(j as int, j + 5));
            assert(t.skip(5) =~= cs@.subrange(j + 5, n as int));
        }
        j = j + 5;
    }
    proof {
        let t = cs@.subrange(j as int, n as int);
        if t.len() >= 5 {
            assert(t.take(5) =~= cs@.subrange(j as int, j + 5));
        }
    }
    let mut out = String::from_str("echo '");
    let escaped = escape_single_quotes(pw);
    out.append(escaped.as_str());
    out.append("' | sudo -S ");
    out.append(command.substring_char(j, n));
    out
}

} // verus!
