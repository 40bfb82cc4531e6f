use vstd::prelude::*;

use crate::text::{chars_of, text_eq};

verus! {

/// The Linux distributions that the provisioning modules know.
#[derive(Debug, Clone, Copy, PartialEq, Eq, Structural)]
pub enum Distro {
    Debian,
    Ubuntu,
    RHEL,
    Fedora,
}

/// Why an `/etc/os-release` file could not be mapped to a `Distro`.
#[derive(Debug)]
pub enum OsReleaseError {
    /// No line of the file starts with `ID=`.
    MissingId,
    /// The `ID` value (quotes removed) names no supported distribution.
    UnsupportedDistro(String),
}

impl OsReleaseError {
    /// The message shown for the error.
    pub fn message(&self) -> (m: String)
        ensures
            m@ == match self {
                OsReleaseError::MissingId => "Could not find ID in os-release"@,
                OsReleaseError::UnsupportedDistro(id) => "Unsupported distro: "@ + id@,
            },
    {
        match self {
            OsReleaseError::MissingId => String::from_str("Could not find ID in os-release"),
            OsReleaseError::UnsupportedDistro(id) => {
                let mut m = String::from_str("Unsupported distro: ");
                m.append(id.as_str());
                m
            },
        }
    }
}

/// The command whose output `parse_os_release` reads on the remote host.
pub fn os_release_command() -> (cmd: &'static str)
    ensures
        cmd@ == "cat /etc/os-release"@,
{
    "cat /etc/os-release"
}

/// The index of the first line break at or after `i`, or `s.len()` when there is none.
pub open spec fn line_end(s: Seq<char>, i: int) -> int
    decreases s.len() - i,
{
    if i >= s.len() {
        s.len() as int
    } else if s[i] == '\n' {
        i
    } else {
        line_end(s, i + 1)
    }
}

pub proof fn lemma_line_end_bounds(s: Seq<char>, i: int)
    requires
        0 <= i <= s.len(),
    ensures
        i <= line_end(s, i) <= s.len(),
        line_end(s, i) < s.len() ==> s[line_end(s, i)] == '\n',
        forall|k: int| i <= k < line_end(s, i) ==> s[k] != '\n',
    decreases s.len() - i,
{
    if i < s.len() && s[i] != '\n' {
        lemma_line_end_bounds(s, i + 1);
    }
}

/// The text of the line that starts at `start`, as `str::lines` yields it: without
/// its line break, and without a carriage return that stands right before the break.
pub open spec fn line_at(s: Seq<char>, start: int) -> Seq<char> {
    let e = line_end(s, start);
    if e < s.len() && e > start && s[e - 1] == '\r' {
        s.subrange(start, e - 1)
    } else {
        s.subrange(start, e)
    }
}

/// The value of a line of the form `ID=value`.
pub open spec fn id_value(line: Seq<char>) -> Option<Seq<char>> {
    if line.len() >= 3 && line[0] == 'I' && line[1] == 'D' && line[2] == '=' {
        Some(line.skip(3))
    } else {
        None
    }
}

/// The value of the last `ID=` line among the lines that start at or after `start`.
pub open spec fn last_id_from(s: Seq<char>, start: int) -> Option<Seq<char>>
    decreases s.len() + 1 - start,
    via last_id_from_decreases
{
    if start < 0 || start >= s.len() {
        None
    } else {
        let e = line_end(s, start);
        let later = last_id_from(s, e + 1);
        if later is Some {
            later
        } else {
            id_value(line_at(s, start))
        }
    }
}

#[via_fn]
proof fn last_id_from_decreases(s: Seq<char>, start: int) {
    if 0 <= start < s.len() {
        lemma_line_end_bounds(s, start);
    }
}

/// The raw value of the `ID` field of an os-release text: that of its last `ID=` line.
pub open spec fn os_release_id(content: Seq<char>) -> Option<Seq<char>> {
    last_id_from(content, 0)
}

/// `v` without leading double quotes.
pub open spec fn trim_front_quotes(v: Seq<char>) -> Seq<char>
    decreases v.len(),
{
    if v.len() > 0 && v[0] == '"' {
        trim_front_quotes(v.drop_first())
    } else {
        v
    }
}

/// `v` without trailing double quotes.
pub open spec fn trim_back_quotes(v: Seq<char>) -> Seq<char>
    decreases v.len(),
{
    if v.len() > 0 && v.last() == '"' {
        trim_back_quotes(v.drop_last())
    } else {
        v
    }
}

/// `v` without double quotes at either end (`str::trim_matches('"')`).
pub open spec fn trim_quotes(v: Seq<char>) -> Seq<char> {
    trim_back_quotes(trim_front_quotes(v))
}

/// The distribution that an os-release `ID` names.
pub open spec fn distro_for_id(id: Seq<char>) -> Option<Distro> {
    if id == "ubuntu"@ {
        Some(Distro::Ubuntu)
    } else if id == "debian"@ {
        Some(Distro::Debian)
    } else if id == "rhel"@ || id == "centos"@ || id == "rocky"@ || id == "almalinux"@ {
        Some(Distro::RHEL)
    } else if id == "fedora"@ {
        Some(Distro::Fedora)
    } else {
        None
    }
}

/// The `ID` of an os-release text with its quotes removed.
pub open spec fn release_id(content: Seq<char>) -> Option<Seq<char>> {
    match os_release_id(content) {
        Some(v) => Some(trim_quotes(v)),
        None => None,
    }
}

/// Later finds take precedence over earlier ones.
pub open spec fn later_of(earlier: Option<Seq<char>>, later: Option<Seq<char>>) -> Option<
    Seq<char>,
> {
    if later is Some {
        later
    } else {
        earlier
    }
}

proof fn lemma_line_end_before_break(s: Seq<char>, i: int, k: int)
    requires
        0 <= i <= k < s.len(),
        s[k] == '\n',
    ensures
        line_end(s, i) <= k,
    decreases k - i,
{
    if s[i] != '\n' {
        lemma_line_end_before_break(s, i + 1, k);
    }
}

proof fn lemma_line_end_without_break(s: Seq<char>, i: int)
    requires
        0 <= i <= s.len(),
        forall|k: int| i <= k < s.len() ==> s[k] != '\n',
    ensures
        line_end(s, i) == s.len(),
    decreases s.len() - i,
{
    if i < s.len() {
        lemma_line_end_without_break(s, i + 1);
    }
}

/// When the last line of a text is an `ID=` line, its value is the text's `ID`, whatever
/// the lines before it say.
proof fn lemma_last_line_id(pre: Seq<char>, line: Seq<char>, start: int)
    requires
        pre.len() == 0 || pre.last() == '\n',
        forall|k: int| 0 <= k < line.len() ==> line[k] != '\n',
        id_value(line) is Some,
        0 <= start <= pre.len(),
    ensures
        last_id_from(pre + line, start) == id_value(line),
    decreases pre.len() - start,
{
    let s = pre + line;
    lemma_line_end_bounds(s, start);
    if start == pre.len() {
        assert forall|k: int| start <= k < s.len() implies s[k] != '\n' by {
            assert(s[k] == line[k - pre.len()]);
        }
        lemma_line_end_without_break(s, start);
        assert(line_end(s, start) == s.len());
        assert(line_at(s, start) =~= line);
        assert(last_id_from(s, s.len() + 1int) is None);
    } else {
        assert(s[pre.len() - 1] == pre.last());
        lemma_line_end_before_break(s, start, pre.len() - 1);
        let e = line_end(s, start);
        lemma_last_line_id(pre, line, e + 1);
        assert(last_id_from(s, e + 1) == id_value(line));
    }
}

/// Quoting the `ID` value does not change what is read from an os-release text: when the
/// last line is `ID=v` or `ID="v"` (with `v` free of quotes and line breaks), the `ID` is
/// `v` either way, so both texts give the same distribution or the same error.
pub proof fn quoting_the_id_keeps_the_distro(pre: Seq<char>, v: Seq<char>)
    requires
        pre.len() == 0 || pre.last() == '\n',
        forall|k: int| 0 <= k < v.len() ==> v[k] != '\n' && v[k] != '"',
    ensures
        release_id(pre + "ID="@ + v) == Some(v),
        release_id(pre + "ID=\""@ + v + "\""@) == Some(v),
{
    assert(release_id(pre + "ID="@ + v) == Some(v)) by {
        reveal_strlit("ID=");
        let plain = "ID="@ + v;
        assert forall|k: int| 0 <= k < plain.len() implies plain[k] != '\n' by {
            if k >= 3 {
                assert(plain[k] == v[k - 3]);
            }
        }
        assert(plain.skip(3) =~= v);
        assert(pre + "ID="@ + v =~= pre + plain);
        lemma_release_of_last_line(pre, plain, v);
        lemma_trim_unquoted(v);
    }
    assert(release_id(pre + "ID=\""@ + v + "\""@) == Some(v)) by {
        reveal_strlit("ID=\"");
        reveal_strlit("\"");
        let quoted = "ID=\""@ + v + "\""@;
        let value = seq!['"'] + v + seq!['"'];
        assert forall|k: int| 0 <= k < quoted.len() implies quoted[k] != '\n' by {
            if 4 <= k < 4 + v.len() {
                assert(quoted[k] == v[k - 4]);
            }
        }
        assert(quoted.skip(3) =~= value);
        assert(pre + "ID=\""@ + v + "\""@ =~= pre + quoted);
        lemma_release_of_last_line(pre, quoted, value);
        lemma_trim_quoted(v);
    }
}

proof fn lemma_line_end_shift(a: Seq<char>, b: Seq<char>, j: int)
    requires
        0 <= j <= b.len(),
    ensures
        line_end(a + b, a.len() + j) == a.len() + line_end(b, j),
    decreases b.len() - j,
{
    let s = a + b;
    if j < b.len() {
        assert(s[a.len() + j] == b[j]);
        if b[j] != '\n' {
            lemma_line_end_shift(a, b, j + 1);
        }
    }
}

/// The lines of `b` give the same `ID` whatever text stands before `b`.
proof fn lemma_last_id_shift(a: Seq<char>, b: Seq<char>, j: int)
    requires
        0 <= j,
    ensures
        last_id_from(a + b, a.len() + j) == last_id_from(b, j),
    decreases b.len() - j,
{
    let s = a + b;
    if j < b.len() {
        lemma_line_end_shift(a, b, j);
        lemma_line_end_bounds(b, j);
        let eb = line_end(b, j);
        let e = a.len() + eb;
        if eb > j {
            assert(s[e - 1] == b[eb - 1]);
            assert(s.subrange(a.len() + j, e - 1) =~= b.subrange(j, eb - 1));
        }
        assert(s.subrange(a.len() + j, e) =~= b.subrange(j, eb));
        assert(line_at(s, a.len() + j) == line_at(b, j));
        if eb < b.len() {
            lemma_last_id_shift(a, b, eb + 1);
        }
    }
}

proof fn lemma_line_end_prefix(a: Seq<char>, b: Seq<char>, i: int, k: int)
    requires
        0 <= i <= k < a.len(),
        a[k] == '\n',
    ensures
        line_end(a + b, i) == line_end(a, i),
    decreases k - i,
{
    assert((a + b)[i] == a[i]);
    if a[i] != '\n' {
        lemma_line_end_prefix(a, b, i + 1, k);
    }
}

/// The `ID` of `a + b`, where `a` ends with a line break, is that of `b` when `b` has
/// one, else that of `a`.
proof fn lemma_last_id_split(a: Seq<char>, b: Seq<char>, start: int)
    requires
        a.len() > 0,
        a.last() == '\n',
        0 <= start <= a.len(),
    ensures
        last_id_from(a + b, start) == later_of(last_id_from(a, start), last_id_from(b, 0)),
    decreases a.len() - start,
{
    let s = a + b;
    if start == a.len() {
        lemma_last_id_shift(a, b, 0);
    } else {
        lemma_line_end_prefix(a, b, start, a.len() - 1);
        lemma_line_end_bounds(a, start);
        let e = line_end(a, start);
        assert(e < a.len()) by {
            lemma_line_end_before_break(a, start, a.len() - 1);
        }
        if e > start {
            assert(s[e - 1] == a[e - 1]);
            assert(s.subrange(start, e - 1) =~= a.subrange(start, e - 1));
        }
        assert(s.subrange(start, e) =~= a.subrange(start, e));
        assert(line_at(s, start) == line_at(a, start));
        lemma_last_id_split(a, b, e + 1);
    }
}

/// The `ID` of a text made of the lines of `pre`, then `line`, then those of `rest`.
proof fn lemma_id_of_middle_line(pre: Seq<char>, line: Seq<char>, rest: Seq<char>)
    requires
        pre.len() == 0 || pre.last() == '\n',
        forall|k: int| 0 <= k < line.len() ==> line[k] != '\n',
        line.len() == 0 || line.last() != '\r',
        id_value(line) is Some,
    ensures
        last_id_from(pre + line + seq!['\n'] + rest, 0) == later_of(
            id_value(line),
            last_id_from(rest, 0),
        ),
{
    let own = line + seq!['\n'];
    lemma_line_end_bounds(own, 0);
    assert(own[line.len() as int] == '\n');
    lemma_line_end_before_break(own, 0, line.len() as int);
    assert(line_end(own, 0) == line.len());
    assert(own.subrange(0, line.len() as int) =~= line);
    if line.len() > 0 {
        assert(own[line.len() - 1] == line.last());
    }
    assert(line_at(own, 0) == line);
    assert(last_id_from(own, line.len() + 1int) is None);
    assert(last_id_from(own, 0) == id_value(line));
    assert(own.last() == '\n');
    lemma_last_id_split(own, rest, 0);
    assert(pre + line + seq!['\n'] + rest =~= pre + (own + rest));
    if pre.len() == 0 {
        assert(pre + (own + rest) =~= own + rest);
    } else {
        lemma_last_id_split(pre, own + rest, 0);
    }
}

proof fn lemma_id_of_crlf_line(pre: Seq<char>, line: Seq<char>, rest: Seq<char>)
    requires
        pre.len() == 0 || pre.last() == '\n',
        forall|k: int| 0 <= k < line.len() ==> line[k] != '\n',
        id_value(line) is Some,
    ensures
        last_id_from(pre + line + seq!['\r', '\n'] + rest, 0) == later_of(
            id_value(line),
            last_id_from(rest, 0),
        ),
{
    let own = line + seq!['\r', '\n'];
    let n = line.len() as int;
    lemma_line_end_bounds(own, 0);
    assert(own[n] == '\r');
    assert(own[n + 1] == '\n');
    assert forall|k: int| 0 <= k < n + 1 implies own[k] != '\n' by {
        if k < n {
            assert(own[k] == line[k]);
        }
    }
    lemma_line_end_before_break(own, 0, n + 1);
    assert(line_end(own, 0) == n + 1);
    assert(own.subrange(0, n) =~= line);
    assert(line_at(own, 0) == line);
    assert(last_id_from(own, n + 2) is None);
    assert(last_id_from(own, 0) == id_value(line));
    assert(own.last() == '\n');
    lemma_last_id_split(own, rest, 0);
    assert(pre + line + seq!['\r', '\n'] + rest =~= pre + (own + rest));
    if pre.len() == 0 {
        assert(pre + (own + rest) =~= own + rest);
    } else {
        lemma_last_id_split(pre, own + rest, 0);
    }
}

/// Quoting the value of one `ID` line does not change what is read from an os-release
/// text, wherever the line stands and whether the text ends its lines with `\n` or `\r\n`:
/// `ID=v` and `ID="v"` (with `v` free of quotes and line breaks) give the same `ID`, so both
/// texts give the same distribution or the same error. Quoting every `ID` line is this step
/// taken once per line. The one value left out is one that ends with a carriage return
/// before a line break: in `ID=v\r` the `\r` belongs to the line break and is dropped,
/// while in `ID="v\r"` it stands inside the quotes and stays.
pub proof fn quoting_an_id_line_keeps_the_distro(pre: Seq<char>, v: Seq<char>, post: Seq<char>)
    requires
        pre.len() == 0 || pre.last() == '\n',
        post.len() == 0 || post[0] == '\n' || (post.len() >= 2 && post[0] == '\r' && post[1]
            == '\n'),
        forall|k: int| 0 <= k < v.len() ==> v[k] != '\n' && v[k] != '"',
        v.len() == 0 || v.last() != '\r' || post.len() == 0,
    ensures
        release_id(pre + "ID="@ + v + post) == release_id(pre + "ID=\""@ + v + "\""@ + post),
{
    reveal_strlit("ID=");
    reveal_strlit("ID=\"");
    reveal_strlit("\"");
    let plain = "ID="@ + v;
    let quoted = "ID=\""@ + v + "\""@;
    assert forall|k: int| 0 <= k < plain.len() implies plain[k] != '\n' by {
        if k >= 3 {
            assert(plain[k] == v[k - 3]);
        }
    }
    assert forall|k: int| 0 <= k < quoted.len() implies quoted[k] != '\n' by {
        if 4 <= k < 4 + v.len() {
            assert(quoted[k] == v[k - 4]);
        }
    }
    assert(quoted.last() == '"');
    assert(plain.skip(3) =~= v);
    assert(quoted.skip(3) =~= seq!['"'] + v + seq!['"']);
    assert(pre + "ID="@ + v + post =~= pre + plain + post);
    assert(pre + "ID=\""@ + v + "\""@ + post =~= pre + quoted + post);
    lemma_trim_unquoted(v);
    lemma_trim_quoted(v);
    if post.len() == 0 {
        assert(pre + plain + post =~= pre + plain);
        assert(pre + quoted + post =~= pre + quoted);
        lemma_release_of_last_line(pre, plain, v);
        lemma_release_of_last_line(pre, quoted, seq!['"'] + v + seq!['"']);
    } else if post[0] == '\n' {
        let rest = post.drop_first();
        assert(post =~= seq!['\n'] + rest);
        if v.len() > 0 {
            assert(plain.last() == v.last());
        }
        assert(pre + plain + post =~= pre + plain + seq!['\n'] + rest);
        assert(pre + quoted + post =~= pre + quoted + seq!['\n'] + rest);
        lemma_id_of_middle_line(pre, plain, rest);
        lemma_id_of_middle_line(pre, quoted, rest);
    } else {
        let rest = post.subrange(2, post.len() as int);
        assert(post =~= seq!['\r', '\n'] + rest);
        assert(pre + plain + post =~= pre + plain + seq!['\r', '\n'] + rest);
        assert(pre + quoted + post =~= pre + quoted + seq!['\r', '\n'] + rest);
        lemma_id_of_crlf_line(pre, plain, rest);
        lemma_id_of_crlf_line(pre, quoted, rest);
    }
}

proof fn lemma_release_of_last_line(pre: Seq<char>, line: Seq<char>, value: Seq<char>)
    requires
        pre.len() == 0 || pre.last() == '\n',
        forall|k: int| 0 <= k < line.len() ==> line[k] != '\n',
        id_value(line) == Some(value),
    ensures
        release_id(pre + line) == Some(trim_quotes(value)),
{
    lemma_last_line_id(pre, line, 0);
}

proof fn lemma_trim_unquoted(v: Seq<char>)
    requires
        forall|k: int| 0 <= k < v.len() ==> v[k] != '"',
    ensures
        trim_quotes(v) == v,
{
    if v.len() > 0 {
        assert(v[0] != '"');
        assert(v.last() == v[v.len() - 1]);
    }
    assert(trim_front_quotes(v) == v);
    assert(trim_back_quotes(v) == v);
}

proof fn lemma_trim_quoted(v: Seq<char>)
    requires
        forall|k: int| 0 <= k < v.len() ==> v[k] != '"',
    ensures
        trim_quotes(seq!['"'] + v + seq!['"']) == v,
{
    let q = seq!['"'] + v + seq!['"'];
    let tail = v + seq!['"'];
    assert(q[0] == '"');
    assert(q.drop_first() =~= tail);
    if v.len() == 0 {
        assert(tail[0] == '"');
        assert(tail.drop_first() =~= Seq::<char>::empty());
        assert(trim_front_quotes(Seq::<char>::empty()) == Seq::<char>::empty());
        assert(trim_front_quotes(tail) == Seq::<char>::empty());
        assert(trim_front_quotes(q) == Seq::<char>::empty());
        assert(trim_back_quotes(Seq::<char>::empty()) == Seq::<char>::empty());
        assert(v =~= Seq::<char>::empty());
    } else {
        assert(tail[0] == v[0]);
        assert(trim_front_quotes(tail) == tail);
        assert(trim_front_quotes(q) == tail);
        assert(tail.last() == '"');
        assert(tail.drop_last() =~= v);
        assert(v.last() == v[v.len() - 1]);
        assert(trim_back_quotes(v) == v);
        assert(trim_back_quotes(tail) == v);
    }
}

/// The index of the first line break in `cs` at or after `from`, or `cs.len()`.
fn find_line_end(cs: &Vec<char>, from: usize) -> (e: usize)
    requires
        from <= cs@.len(),
    ensures
        e as int == line_end(cs@, from as int),
{
    let mut e = from;
    while e < cs.len() && cs[e] != '\n'
        invariant
            from <= e <= cs@.len(),
            line_end(cs@, from as int) == line_end(cs@, e as int),
        decreases cs@.len() - e,
    {
        e = e + 1;
    }
    e
}

/// Reads the distribution from the text of `/etc/os-release`.
///
/// The value of the last line that starts with `ID=` is taken, double quotes are
/// removed from both of its ends, and the result is looked up: `ubuntu`, `debian`,
/// `fedora`, and `rhel`, `centos`, `rocky` or `almalinux` (all three RHEL).
pub fn parse_os_release(content: &str) -> (r: Result<Distro, OsReleaseError>)
    ensures
        release_id(content@) is None <==> r matches Err(OsReleaseError::MissingId),
        release_id(content@) matches Some(id) ==> match distro_for_id(id) {
            Some(d) => r == Ok::<Distro, OsReleaseError>(d),
            None => r matches Err(OsReleaseError::UnsupportedDistro(name)) && name@ == id,
        },
{
    let cs = chars_of(content);
    let n = cs.len();
    let mut start: usize = 0;
    let mut found: Option<(usize, usize)> = None;
    while start < n
        invariant
            n == cs@.len(),
            cs@ == content@,
            start <= n,
            found matches Some((a, b)) ==> a <= b <= n,
            os_release_id(cs@) == later_of(
                match found {
                    Some((a, b)) => Some(cs@.subrange(a as int, b as int)),
                    None => None,
                },
                last_id_from(cs@, start as int),
            ),
        decreases n - start,
    {
        let e = find_line_end(&cs, start);
        proof {
            lemma_line_end_bounds(cs@, start as int);
        }
        let line_stop = if e < n && e > start && cs[e - 1] == '\r' {
            e - 1
        } else {
            e
        };
        assert(line_at(cs@, start as int) == cs@.subrange(start as int, line_stop as int));
        let ghost here = id_value(line_at(cs@, start as int));
        let ghost next: int = if e < n { e + 1 } else { n as int };
        assert(last_id_from(cs@, start as int) == later_of(here, last_id_from(cs@, next))) by {
            if e == n {
                assert(last_id_from(cs@, (e + 1) as int) is None);
                assert(last_id_from(cs@, n as int) is None);
            }
        }
        let ghost before = match found {
            Some((a, b)) => Some(cs@.subrange(a as int, b as int)),
            None => None,
        };
        if line_stop - start >= 3 && cs[start] == 'I' && cs[start + 1] == 'D' && cs[start + 2]
            == '=' {
            assert(cs@.subrange(start as int, line_stop as int).skip(3) =~= cs@.subrange(
                start + 3,
                line_stop as int,
            ));
            found = Some((start + 3, line_stop));
            assert(here == Some(cs@.subrange(start + 3, line_stop as int)));
        } else {
            assert(here is None);
        }
        if e < n {
            start = e + 1;
        } else {
            start = n;
        }
    }
    let (a, b) = match found {
        Some(range) => range,
        None => {
            return Err(OsReleaseError::MissingId);
        },
    };
    let ghost raw = cs@.subrange(a as int, b as int);
    let mut lo = a;
    while lo < b && cs[lo] == '"'
        invariant
            a <= lo <= b,
            b <= cs@.len(),
            trim_front_quotes(raw) == trim_front_quotes(cs@.subrange(lo as int, b as int)),
        decreases b - lo,
    {
        assert(cs@.subrange(lo as int, b as int).drop_first() =~= cs@.subrange(lo + 1, b as int));
        lo = lo + 1;
    }
    let mut hi = b;
    while hi > lo && cs[hi - 1] == '"'
        invariant
            lo <= hi <= b,
            b <= cs@.len(),
            trim_back_quotes(cs@.subrange(lo as int, b as int)) == trim_back_quotes(
                cs@.subrange(lo as int, hi as int),
            ),
        decreases hi - lo,
    {
        assert(cs@.subrange(lo as int, hi as int).drop_last() =~= cs@.subrange(lo as int, hi - 1));
        hi = hi - 1;
    }
    let id = String::from_str(content.substring_char(lo, hi));
    let s = id.as_str();
    if text_eq(s, "ubuntu") {
        Ok(Distro::Ubuntu)
    } else if text_eq(s, "debian") {
        Ok(Distro::Debian)
    } else if text_eq(s, "rhel") || text_eq(s, "centos") || text_eq(s, "rocky") || text_eq(
        s,
        "almalinux",
    ) {
        Ok(Distro::RHEL)
    } else if text_eq(s, "fedora") {
        Ok(Distro::Fedora)
    } else {
        Err(OsReleaseError::UnsupportedDistro(id))
    }
}

} // verus!
