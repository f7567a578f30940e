//! Agent task files in a repository: where the file of a new task goes, the
//! commit messages that record tasks, how a follow-up task is appended, and
//! how the task branch's first commit is read back. Reading the repository,
//! writing files and committing are the caller's part.

use vstd::prelude::*;

use crate::text::{
    decimal, decimal_string, digit_char, owned, signed_decimal, signed_decimal_string, split_fields, split_on,
    str_starts_with, strings, suffix_from, trim, trimmed,
};

verus! {

/// `n` written with at least two digits (`{:02}`).
pub open spec fn two_digits(n: nat) -> Seq<char> {
    if n < 10 {
        seq!['0', digit_char(n)]
    } else {
        decimal(n)
    }
}

/// `n` written with at least two digits.
pub fn two_digit_string(n: u32) -> (s: String)
    ensures
        s@ == two_digits(n as nat),
{
    if n < 10 {
        let mut s = owned("0");
        proof {
            reveal_strlit("0");
        }
        crate::text::push_char(&mut s, crate::text::digit(n as u64));
        assert(s@ =~= seq!['0', digit_char(n as nat)]);
        s
    } else {
        decimal_string(n as u64)
    }
}

/// Directories, from the repository root, that hold the tasks started in
/// month `month` of year `year`: `.agents/tasks/YYYY/MM`.
pub open spec fn task_dir_names(year: i32, month: u32) -> Seq<Seq<char>> {
    seq![".agents"@, "tasks"@, signed_decimal(year as int), two_digits(month as nat)]
}

/// Name of the file of a task started on `day` at `hour`:`minute` in branch
/// `branch`: `DD-HHMM-branch`.
pub open spec fn task_file_name(day: u32, hour: u32, minute: u32, branch: Seq<char>) -> Seq<char> {
    two_digits(day as nat) + "-"@ + two_digits(hour as nat) + two_digits(minute as nat) + "-"@ + branch
}

/// Where the file of a task started at the given UTC date and time in branch
/// `branch` goes: the directories under the repository root, and the name.
pub fn task_location(year: i32, month: u32, day: u32, hour: u32, minute: u32, branch: &str) -> (r: (Vec<String>, String))
    ensures
        strings(r.0@) == task_dir_names(year, month),
        r.1@ == task_file_name(day, hour, minute, branch@),
{
    let mut dirs: Vec<String> = Vec::new();
    dirs.push(owned(".agents"));
    dirs.push(owned("tasks"));
    dirs.push(signed_decimal_string(year as i64));
    dirs.push(two_digit_string(month));
    assert(strings(dirs@) =~= task_dir_names(year, month));
    let name = two_digit_string(day).concat("-").concat(two_digit_string(hour).as_str()).concat(
        two_digit_string(minute).as_str(),
    ).concat("-").concat(branch);
    (dirs, name)
}

/// Message of the commit that starts task branch `branch`: its name, then
/// the remote it targets and the development shell, when known.
pub open spec fn initial_commit_text(branch: Seq<char>, remote: Option<Seq<char>>, devshell: Option<Seq<char>>) -> Seq<
    char,
> {
    let base = "Start-Agent-Branch: "@ + branch;
    let with_remote = match remote {
        Some(r) => base + "\nTarget-Remote: "@ + r,
        None => base,
    };
    match devshell {
        Some(d) => with_remote + "\nDev-Shell: "@ + d,
        None => with_remote,
    }
}

/// Message of the commit that starts task branch `branch`.
pub fn initial_commit_message(branch: &str, remote: Option<&str>, devshell: Option<&str>) -> (m: String)
    ensures
        m@ == initial_commit_text(
            branch@,
            match remote {
                Some(r) => Some(r@),
                None => None,
            },
            match devshell {
                Some(d) => Some(d@),
                None => None,
            },
        ),
{
    let mut m = owned("Start-Agent-Branch: ").concat(branch);
    match remote {
        Some(r) => {
            m = m.concat("\nTarget-Remote: ").concat(r);
        },
        None => {},
    }
    match devshell {
        Some(d) => {
            m = m.concat("\nDev-Shell: ").concat(d);
        },
        None => {},
    }
    m
}

/// Text appended to the task file for follow-up task `content`.
pub open spec fn follow_up_text(content: Seq<char>) -> Seq<char> {
    "\n--- FOLLOW UP TASK ---\n"@ + content
}

/// Text appended to the task file for follow-up task `content`.
pub fn follow_up(content: &str) -> (t: String)
    ensures
        t@ == follow_up_text(content@),
{
    owned("\n--- FOLLOW UP TASK ---\n").concat(content)
}

/// Message of the commit that records a follow-up task.
pub fn follow_up_commit_message() -> (m: String)
    ensures
        m@ == "Follow-up task"@,
{
    owned("Follow-up task")
}

/// Whether the current branch is a task branch, given the first commit of
/// the latest task branch (`None` when it could not be read).
pub fn on_task_branch(latest_start_commit: Option<&str>) -> (r: bool)
    ensures
        r == (latest_start_commit matches Some(c) && c@.len() > 0),
{
    match latest_start_commit {
        Some(c) => c.unicode_len() > 0,
        None => false,
    }
}

/// The file of the current task, relative to the repository root, given
/// the task branch's start commit and the files that commit introduced.
pub fn task_file_in_commit(start_commit: &str, files: &Vec<String>) -> (r: Result<String, String>)
    ensures
        if start_commit@.len() == 0 {
            r matches Err(m) && m@ == "You are not currently on an agent task branch"@
        } else if files@.len() == 0 {
            r matches Err(m) && m@ == "Error: No files found in the task start commit ('"@ + start_commit@ + "')."@
        } else {
            r matches Ok(f) && f@ == files@[0]@
        },
{
    if start_commit.unicode_len() == 0 {
        return Err(owned("You are not currently on an agent task branch"));
    }
    if files.len() == 0 {
        return Err(owned("Error: No files found in the task start commit ('").concat(start_commit).concat("')."));
    }
    Ok(files[0].clone())
}

/// The task file a follow-up task is appended to, relative to the
/// repository root: the one file the start commit introduced.
pub fn follow_up_file(start_commit: &str, files: &Vec<String>) -> (r: Result<String, String>)
    ensures
        if start_commit@.len() == 0 {
            r matches Err(m) && m@ == "Error: Could not locate task start commit"@
        } else if files@.len() != 1 {
            r matches Err(m) && m@ == "Error: Task start commit should introduce exactly one file"@
        } else {
            r matches Ok(f) && f@ == files@[0]@
        },
{
    if start_commit.unicode_len() == 0 {
        return Err(owned("Error: Could not locate task start commit"));
    }
    if files.len() != 1 {
        return Err(owned("Error: Task start commit should introduce exactly one file"));
    }
    Ok(files[0].clone())
}

/// `s` without a final carriage return.
pub open spec fn without_cr(s: Seq<char>) -> Seq<char> {
    if s.len() > 0 && s.last() == '\r' {
        s.drop_last()
    } else {
        s
    }
}

/// The lines of `s` (std `str::lines`): the pieces between line feeds, a
/// carriage return before a line feed dropped, and no empty last line after
/// a final line feed.
pub open spec fn text_lines(s: Seq<char>) -> Seq<Seq<char>> {
    let p = split_on(s, '\n');
    let inner = p.drop_last().map_values(|l: Seq<char>| without_cr(l));
    if p.last().len() == 0 {
        inner
    } else {
        inner.push(p.last())
    }
}

/// The value of the first line of `message` that starts with `key`: the
/// rest of that line, trimmed, when there is such a line.
pub open spec fn field_value(message: Seq<char>, key: Seq<char>) -> Option<Seq<char>> {
    let ls = text_lines(message);
    if exists|i: int| 0 <= i < ls.len() && key.is_prefix_of(ls[i]) {
        let i = choose|i: int|
            0 <= i < ls.len() && key.is_prefix_of(ls[i]) && forall|j: int| 0 <= j < i ==> !key.is_prefix_of(ls[j]);
        Some(trimmed(ls[i].skip(key.len() as int)))
    } else {
        None
    }
}

fn line_without_cr(l: &String) -> (r: String)
    ensures
        r@ == without_cr(l@),
{
    let n = l.as_str().unicode_len();
    if n > 0 && l.as_str().get_char(n - 1) == '\r' {
        let cs = crate::text::chars_of(l.as_str());
        crate::text::string_from_chars(&cs, 0, n - 1)
    } else {
        l.clone()
    }
}

/// The lines of `s` (std `str::lines`).
pub fn lines_of(s: &str) -> (r: Vec<String>)
    ensures
        strings(r@) == text_lines(s@),
{
    let pieces = split_fields(s, '\n');
    proof {
        crate::text::lemma_split_on_nonempty(s@, '\n');
    }
    let n = pieces.len();
    let ghost p = strings(pieces@);
    let mut out: Vec<String> = Vec::new();
    let mut i: usize = 0;
    while i + 1 < n
        invariant
            n == pieces@.len(),
            n >= 1,
            i + 1 <= n,
            p == strings(pieces@),
            strings(out@) == p.subrange(0, i as int).map_values(|l: Seq<char>| without_cr(l)),
        decreases n - i,
    {
        let l = line_without_cr(&pieces[i]);
        let ghost before = strings(out@);
        assert(pieces@[i as int]@ == p[i as int]);
        out.push(l);
        assert(strings(out@) =~= before.push(without_cr(p[i as int])));
        assert(p.subrange(0, i + 1) =~= p.subrange(0, i as int).push(p[i as int]));
        assert(strings(out@) =~= p.subrange(0, i + 1).map_values(|l: Seq<char>| without_cr(l)));
        i = i + 1;
    }
    assert(p.subrange(0, i as int) =~= p.drop_last());
    if pieces[n - 1].as_str().unicode_len() > 0 {
        let ghost before = strings(out@);
        out.push(pieces[n - 1].clone());
        assert(strings(out@) =~= before.push(p.last()));
    }
    out
}

/// The value of the first line of `message` that starts with `key` (see
/// [`field_value`]).
pub fn find_field(message: &str, key: &str) -> (r: Option<String>)
    ensures
        match field_value(message@, key@) {
            Some(v) => r matches Some(s) && s@ == v,
            None => r is None,
        },
{
    let ls = lines_of(message);
    let ghost lv = strings(ls@);
    let mut i: usize = 0;
    while i < ls.len()
        invariant
            i <= ls@.len(),
            lv == strings(ls@),
            lv == text_lines(message@),
            forall|j: int| 0 <= j < i ==> !key@.is_prefix_of(#[trigger] lv[j]),
        decreases ls@.len() - i,
    {
        if str_starts_with(ls[i].as_str(), key) {
            let rest = suffix_from(ls[i].as_str(), key.unicode_len());
            assert(lv[i as int] == ls@[i as int]@);
            proof {
                let w = i as int;
                assert(0 <= w < lv.len() && key@.is_prefix_of(lv[w]) && forall|j: int| 0 <= j < w ==> !key@.is_prefix_of(lv[j]));
                let c = choose|c: int|
                    0 <= c < lv.len() && key@.is_prefix_of(lv[c]) && forall|j: int| 0 <= j < c ==> !key@.is_prefix_of(lv[j]);
                if c < w {
                    assert(!key@.is_prefix_of(lv[c]));
                } else if c > w {
                    assert(!key@.is_prefix_of(lv[w]));
                }
            }
            return Some(trim(rest.as_str()));
        }
        assert(lv[i as int] == ls@[i as int]@);
        i = i + 1;
    }
    None
}

/// Where autopush pushes, read from the message of the task branch's first
/// commit (`first_commit` empty when there is no task branch, `message`
/// `None` when the message could not be read): the remote named by
/// `Target-Remote:` and the branch named by `Start-Agent-Branch:`.
pub fn autopush_target(first_commit: &str, message: Option<&str>) -> (r: Result<(String, String), String>)
    ensures
        if first_commit@.len() == 0 {
            r matches Err(m) && m@ == "Error: Could not find first commit in current branch"@
        } else {
            match message {
                None => r matches Err(m) && m@ == "Error: Could not retrieve commit message from first commit"@,
                Some(msg) => match field_value(msg@, "Target-Remote:"@) {
                    Some(remote) if remote.len() > 0 => match field_value(msg@, "Start-Agent-Branch:"@) {
                        Some(branch) if branch.len() > 0 => r matches Ok((a, b)) && a@ == remote && b@ == branch,
                        _ => r matches Err(m) && m@ == "Error: Start-Agent-Branch not found in commit message"@,
                    },
                    _ => r matches Err(m) && m@ == "Error: Target-Remote not found in commit message"@,
                },
            }
        },
{
    if first_commit.unicode_len() == 0 {
        return Err(owned("Error: Could not find first commit in current branch"));
    }
    let msg = match message {
        Some(m) => m,
        None => return Err(owned("Error: Could not retrieve commit message from first commit")),
    };
    let remote = match find_field(msg, "Target-Remote:") {
        Some(r) => r,
        None => return Err(owned("Error: Target-Remote not found in commit message")),
    };
    if remote.as_str().unicode_len() == 0 {
        return Err(owned("Error: Target-Remote not found in commit message"));
    }
    let branch = match find_field(msg, "Start-Agent-Branch:") {
        Some(b) => b,
        None => return Err(owned("Error: Start-Agent-Branch not found in commit message")),
    };
    if branch.as_str().unicode_len() == 0 {
        return Err(owned("Error: Start-Agent-Branch not found in commit message"));
    }
    Ok((remote, branch))
}


/// Splitting text joined at a separator splits each side.
proof fn lemma_split_on_join(x: Seq<char>, y: Seq<char>, sep: char)
    ensures
        split_on(x + seq![sep] + y, sep) == split_on(x, sep) + split_on(y, sep),
    decreases y.len(),
{
    let xs = x + seq![sep];
    if y.len() == 0 {
        assert(xs + y =~= xs);
        assert(xs.drop_last() =~= x);
        assert(split_on(y, sep) =~= seq![Seq::<char>::empty()]);
        assert(split_on(x, sep).push(Seq::<char>::empty()) =~= split_on(x, sep) + split_on(y, sep));
    } else {
        let y0 = y.drop_last();
        lemma_split_on_join(x, y0, sep);
        crate::text::lemma_split_on_nonempty(y0, sep);
        assert((xs + y).drop_last() =~= xs + y0);
        assert((xs + y).last() == y.last());
        let a = split_on(x, sep);
        let b = split_on(y0, sep);
        if y.last() == sep {
            assert((a + b).push(Seq::<char>::empty()) =~= a + b.push(Seq::<char>::empty()));
        } else {
            assert((a + b).update((a + b).len() - 1, (a + b).last().push(y.last())) =~= a + b.update(
                b.len() - 1,
                b.last().push(y.last()),
            ));
        }
    }
}

/// Text without the separator is a single piece.
proof fn lemma_split_on_single(x: Seq<char>, sep: char)
    requires
        !x.contains(sep),
    ensures
        split_on(x, sep) == seq![x],
{
    crate::text::lemma_split_on_extend(Seq::<char>::empty(), x, sep);
    assert(Seq::<char>::empty() + x =~= x);
    assert(split_on(Seq::<char>::empty(), sep).update(0, Seq::<char>::empty() + x) =~= seq![x]);
}

/// Whether `s` can stand as a field value in a commit message line: not
/// empty, a single line, and without surrounding whitespace.
pub open spec fn bare_value(s: Seq<char>) -> bool {
    &&& s.len() > 0
    &&& !s.contains('\n')
    &&& !crate::text::unicode_whitespace(s[0])
    &&& !crate::text::unicode_whitespace(s.last())
}

/// The value of a field line `key + " " + v` is `v`.
proof fn lemma_field_line_value(key: Seq<char>, v: Seq<char>)
    requires
        bare_value(v),
    ensures
        trimmed((key + seq![' '] + v).skip(key.len() as int)) == v,
{
    let t = key + seq![' '] + v;
    assert(t.skip(key.len() as int) =~= seq![' '] + v);
    assert((seq![' '] + v).drop_first() =~= v);
    assert(crate::text::trim_start(seq![' '] + v) == crate::text::trim_start(v));
    assert(crate::text::trim_start(v) == v);
    assert(crate::text::trim_end(v) == v);
}

/// What autopush reads back of a start commit: for a task branch `b` and a
/// remote `r`, each a bare single-line value, the start commit's message
/// names `r` as its `Target-Remote` and `b` as its `Start-Agent-Branch`,
/// whatever development shell it records. So `autopush_target` on that
/// message (with a first commit) gives `(r, b)`.
pub proof fn law_start_commit_names_remote_and_branch(b: Seq<char>, r: Seq<char>, d: Option<Seq<char>>)
    requires
        bare_value(b),
        bare_value(r),
    ensures
        field_value(initial_commit_text(b, Some(r), d), "Target-Remote:"@) == Some(r),
        field_value(initial_commit_text(b, Some(r), d), "Start-Agent-Branch:"@) == Some(b),
{
    reveal_strlit("Start-Agent-Branch: ");
    reveal_strlit("\nTarget-Remote: ");
    reveal_strlit("\nDev-Shell: ");
    reveal_strlit("Dev-Shell: ");
    assert("\nDev-Shell: "@ =~= seq!['\n'] + "Dev-Shell: "@);
    reveal_strlit("Target-Remote:");
    reveal_strlit("Start-Agent-Branch:");
    let kb = "Start-Agent-Branch:"@;
    let kr = "Target-Remote:"@;
    let l0 = kb + seq![' '] + b;
    let l1 = kr + seq![' '] + r;
    assert("Start-Agent-Branch: "@ =~= kb + seq![' ']);
    assert("\nTarget-Remote: "@ =~= seq!['\n'] + kr + seq![' ']);
    let msg = initial_commit_text(b, Some(r), d);
    assert(!l0.contains('\n')) by {
        assert forall|i: int| 0 <= i < l0.len() implies l0[i] != '\n' by {
            if i >= kb.len() + 1 {
                assert(l0[i] == b[i - kb.len() - 1]);
            }
        }
    }
    assert(!l1.contains('\n')) by {
        assert forall|i: int| 0 <= i < l1.len() implies l1[i] != '\n' by {
            if i >= kr.len() + 1 {
                assert(l1[i] == r[i - kr.len() - 1]);
            }
        }
    }
    lemma_split_on_single(l0, '\n');
    lemma_split_on_single(l1, '\n');
    let rest = match d {
        Some(dv) => "\nDev-Shell: "@ + dv,
        None => Seq::<char>::empty(),
    };
    let tail = match d {
        Some(dv) => "Dev-Shell: "@ + dv,
        None => Seq::<char>::empty(),
    };
    assert(msg =~= l0 + seq!['\n'] + (l1 + rest));
    lemma_split_on_join(l0, l1 + rest, '\n');
    match d {
        Some(dv) => {
            assert(rest =~= seq!['\n'] + tail);
            assert(l1 + rest =~= l1 + seq!['\n'] + tail);
            lemma_split_on_join(l1, tail, '\n');
            crate::text::lemma_split_on_nonempty(tail, '\n');
        },
        None => {
            assert(l1 + rest =~= l1);
        },
    }
    let p = split_on(msg, '\n');
    assert(p.len() >= 2);
    assert(p[0] == l0);
    assert(p[1] == l1);
    assert(without_cr(l0) == l0);
    assert(without_cr(l1) == l1);
    let ls = text_lines(msg);
    assert(ls.len() >= 2);
    assert(ls[0] == l0);
    assert(ls[1] == l1);
    // The remote's line is the first that starts with its key.
    assert(kr.is_prefix_of(l1)) by {
        assert(l1.subrange(0, kr.len() as int) =~= kr);
    }
    assert(!kr.is_prefix_of(l0)) by {
        assert(l0[0] == 'S');
        assert(kr[0] == 'T');
        if kr.is_prefix_of(l0) {
            assert(l0.subrange(0, kr.len() as int)[0] == kr[0]);
        }
    }
    let c = choose|i: int|
        0 <= i < ls.len() && kr.is_prefix_of(ls[i]) && forall|j: int| 0 <= j < i ==> !kr.is_prefix_of(ls[j]);
    assert(exists|i: int| 0 <= i < ls.len() && kr.is_prefix_of(ls[i])) by {
        assert(0 <= 1 < ls.len() && kr.is_prefix_of(ls[1]));
    }
    assert(0 <= 1 < ls.len() && kr.is_prefix_of(ls[1]) && forall|j: int| 0 <= j < 1 ==> !kr.is_prefix_of(ls[j]));
    if c != 1 {
        if c < 1 {
            assert(!kr.is_prefix_of(ls[c]));
        } else {
            assert(!kr.is_prefix_of(ls[1]));
        }
    }
    lemma_field_line_value(kr, r);
    // The branch's line is the first line.
    assert(kb.is_prefix_of(l0)) by {
        assert(l0.subrange(0, kb.len() as int) =~= kb);
    }
    assert(0 <= 0 < ls.len() && kb.is_prefix_of(ls[0]) && forall|j: int| 0 <= j < 0 ==> !kb.is_prefix_of(ls[j]));
    let cb = choose|i: int|
        0 <= i < ls.len() && kb.is_prefix_of(ls[i]) && forall|j: int| 0 <= j < i ==> !kb.is_prefix_of(ls[j]);
    if cb != 0 {
        assert(!kb.is_prefix_of(ls[0]));
    }
    lemma_field_line_value(kb, b);
}


/// The line `key + " " + v` of a commit message.
pub open spec fn field_line(key: Seq<char>, v: Seq<char>) -> Seq<char> {
    key + seq![' '] + v
}

/// A field line of a bare value is a single line whose value reads back.
proof fn lemma_field_line(key: Seq<char>, v: Seq<char>)
    requires
        bare_value(v),
        key.len() > 0,
        !key.contains('\n'),
    ensures
        !field_line(key, v).contains('\n'),
        without_cr(field_line(key, v)) == field_line(key, v),
        field_line(key, v).len() > 0,
        field_line(key, v)[0] == key[0],
        key.is_prefix_of(field_line(key, v)),
        trimmed(field_line(key, v).skip(key.len() as int)) == v,
{
    let l = field_line(key, v);
    assert forall|i: int| 0 <= i < l.len() implies l[i] != '\n' by {
        if i < key.len() {
            assert(l[i] == key[i]);
        } else if i >= key.len() + 1 {
            assert(l[i] == v[i - key.len() - 1]);
        }
    }
    assert(l.last() == v.last());
    assert(l.subrange(0, key.len() as int) =~= key);
    lemma_field_line_value(key, v);
}

/// The lines of a single line are that line.
proof fn lemma_lines_single(a: Seq<char>)
    requires
        a.len() > 0,
        !a.contains('\n'),
    ensures
        text_lines(a) == seq![a],
{
    lemma_split_on_single(a, '\n');
    assert(seq![a].drop_last().map_values(|l: Seq<char>| without_cr(l)) =~= Seq::<Seq<char>>::empty());
    assert(Seq::<Seq<char>>::empty().push(a) =~= seq![a]);
}

/// The lines of a line joined to more text are that line, then the lines of the rest.
proof fn lemma_lines_join(a: Seq<char>, rest: Seq<char>)
    requires
        !a.contains('\n'),
        without_cr(a) == a,
    ensures
        text_lines(a + seq!['\n'] + rest) == seq![a] + text_lines(rest),
{
    lemma_split_on_join(a, rest, '\n');
    lemma_split_on_single(a, '\n');
    crate::text::lemma_split_on_nonempty(rest, '\n');
    let q = split_on(rest, '\n');
    let p = seq![a] + q;
    assert(p.drop_last() =~= seq![a] + q.drop_last());
    assert(p.last() == q.last());
    let f = |l: Seq<char>| without_cr(l);
    assert(p.drop_last().map_values(f) =~= seq![a] + q.drop_last().map_values(f));
    if q.last().len() == 0 {
        assert(text_lines(a + seq!['\n'] + rest) =~= seq![a] + text_lines(rest));
    } else {
        assert((seq![a] + q.drop_last().map_values(f)).push(q.last()) =~= seq![a] + q.drop_last().map_values(f).push(
            q.last(),
        ));
    }
}

/// A field is read from the first line that starts with its key.
proof fn lemma_field_at(msg: Seq<char>, key: Seq<char>, v: Seq<char>, k: int)
    requires
        0 <= k < text_lines(msg).len(),
        text_lines(msg)[k] == field_line(key, v),
        key.is_prefix_of(field_line(key, v)),
        trimmed(field_line(key, v).skip(key.len() as int)) == v,
        forall|j: int| 0 <= j < k ==> !key.is_prefix_of(#[trigger] text_lines(msg)[j]),
    ensures
        field_value(msg, key) == Some(v),
{
    let ls = text_lines(msg);
    assert(0 <= k < ls.len() && key.is_prefix_of(ls[k]));
    let c = choose|i: int|
        0 <= i < ls.len() && key.is_prefix_of(ls[i]) && forall|j: int| 0 <= j < i ==> !key.is_prefix_of(ls[j]);
    if c < k {
        assert(!key.is_prefix_of(ls[c]));
    } else if c > k {
        assert(!key.is_prefix_of(ls[k]));
    }
}

/// A key starting with another character than a line is no prefix of it.
proof fn lemma_not_prefix(key: Seq<char>, l: Seq<char>)
    requires
        key.len() > 0,
        l.len() > 0,
        key[0] != l[0],
    ensures
        !key.is_prefix_of(l),
{
    if key.is_prefix_of(l) {
        assert(l.subrange(0, key.len() as int)[0] == l[0]);
    }
}

/// Every field of a start commit reads back: for a task branch `b`, an
/// optional remote `r` and an optional development shell `d`, each a bare
/// single-line value, the message names `b` as its `Start-Agent-Branch`, has
/// a `Target-Remote` exactly when `r` is given (and then it is `r`), and a
/// `Dev-Shell` exactly when `d` is given (and then it is `d`), each
/// independently of the others.
pub proof fn law_start_commit_fields(b: Seq<char>, r: Option<Seq<char>>, d: Option<Seq<char>>)
    requires
        bare_value(b),
        r matches Some(rv) ==> bare_value(rv),
        d matches Some(dv) ==> bare_value(dv),
    ensures
        field_value(initial_commit_text(b, r, d), "Start-Agent-Branch:"@) == Some(b),
        field_value(initial_commit_text(b, r, d), "Target-Remote:"@) == r,
        field_value(initial_commit_text(b, r, d), "Dev-Shell:"@) == d,
{
    reveal_strlit("Start-Agent-Branch: ");
    reveal_strlit("\nTarget-Remote: ");
    reveal_strlit("\nDev-Shell: ");
    reveal_strlit("Target-Remote:");
    reveal_strlit("Start-Agent-Branch:");
    reveal_strlit("Dev-Shell:");
    let kb = "Start-Agent-Branch:"@;
    let kr = "Target-Remote:"@;
    let kd = "Dev-Shell:"@;
    assert("Start-Agent-Branch: "@ =~= kb + seq![' ']);
    assert("\nTarget-Remote: "@ =~= seq!['\n'] + kr + seq![' ']);
    assert("\nDev-Shell: "@ =~= seq!['\n'] + kd + seq![' ']);
    assert(!kb.contains('\n'));
    assert(!kr.contains('\n'));
    assert(!kd.contains('\n'));
    let l0 = field_line(kb, b);
    lemma_field_line(kb, b);
    let msg = initial_commit_text(b, r, d);
    // The lines after the first.
    let (ls_tail, l1, l2) = match (r, d) {
        (Some(rv), Some(dv)) => {
            lemma_field_line(kr, rv);
            lemma_field_line(kd, dv);
            let l1 = field_line(kr, rv);
            let l2 = field_line(kd, dv);
            assert(msg =~= l0 + seq!['\n'] + (l1 + seq!['\n'] + l2));
            lemma_lines_join(l0, l1 + seq!['\n'] + l2);
            lemma_lines_join(l1, l2);
            lemma_lines_single(l2);
            (seq![l1, l2], l1, l2)
        },
        (Some(rv), None) => {
            lemma_field_line(kr, rv);
            let l1 = field_line(kr, rv);
            assert(msg =~= l0 + seq!['\n'] + l1);
            lemma_lines_join(l0, l1);
            lemma_lines_single(l1);
            (seq![l1], l1, l1)
        },
        (None, Some(dv)) => {
            lemma_field_line(kd, dv);
            let l2 = field_line(kd, dv);
            assert(msg =~= l0 + seq!['\n'] + l2);
            lemma_lines_join(l0, l2);
            lemma_lines_single(l2);
            (seq![l2], l2, l2)
        },
        (None, None) => {
            assert(msg =~= l0);
            lemma_lines_single(l0);
            (Seq::<Seq<char>>::empty(), l0, l0)
        },
    };
    let ls = text_lines(msg);
    assert(ls =~= seq![l0] + ls_tail);
    assert(ls[0] == l0);
    // Each line starts with its own key's first character.
    assert(kb[0] == 'S' && kr[0] == 'T' && kd[0] == 'D');
    assert forall|j: int| 0 <= j < ls.len() implies (#[trigger] ls[j]).len() > 0 && (ls[j][0] == 'S' || ls[j][0]
        == 'T' || ls[j][0] == 'D') && (ls[j][0] == 'S' ==> j == 0) && (ls[j][0] == 'D' ==> d is Some && ls[j]
        == field_line(kd, d->0)) && (ls[j][0] == 'T' ==> r is Some && ls[j] == field_line(kr, r->0)) by {
        if j > 0 {
            assert(ls[j] == ls_tail[j - 1]);
        }
    }
    lemma_field_at(msg, kb, b, 0);
    match r {
        Some(rv) => {
            assert(ls[1] == field_line(kr, rv));
            assert forall|j: int| 0 <= j < 1 implies !kr.is_prefix_of(#[trigger] ls[j]) by {
                lemma_not_prefix(kr, ls[j]);
            }
            lemma_field_at(msg, kr, rv, 1);
        },
        None => {
            assert forall|j: int| 0 <= j < ls.len() implies !kr.is_prefix_of(#[trigger] ls[j]) by {
                lemma_not_prefix(kr, ls[j]);
            }
        },
    }
    match d {
        Some(dv) => {
            let k = ls.len() - 1;
            assert(ls[k] == field_line(kd, dv));
            assert forall|j: int| 0 <= j < k implies !kd.is_prefix_of(#[trigger] ls[j]) by {
                lemma_not_prefix(kd, ls[j]);
            }
            lemma_field_at(msg, kd, dv, k);
        },
        None => {
            assert forall|j: int| 0 <= j < ls.len() implies !kd.is_prefix_of(#[trigger] ls[j]) by {
                lemma_not_prefix(kd, ls[j]);
            }
        },
    }
}


/// A number below 100 in two digits: its tens digit, then its units digit.
pub proof fn law_two_digits(n: nat)
    requires
        n < 100,
    ensures
        two_digits(n) == seq![digit_char(n / 10), digit_char(n % 10)],
{
    if n >= 10 {
        assert(decimal(n / 10) == seq![digit_char(n / 10)]);
        assert(decimal(n) =~= seq![digit_char(n / 10), digit_char(n % 10)]);
    }
}

/// Where a task file goes, character by character: under
/// `.agents/tasks/<year>/<MM>`, in a file named `DD-HHMM-<branch>`, each of
/// month, day, hour and minute written as its tens and units digits.
pub proof fn law_task_location_layout(year: i32, month: u32, day: u32, hour: u32, minute: u32, branch: Seq<char>)
    requires
        month < 100,
        day < 100,
        hour < 100,
        minute < 100,
    ensures
        task_dir_names(year, month) == seq![
            ".agents"@,
            "tasks"@,
            crate::text::signed_decimal(year as int),
            seq![digit_char(month as nat / 10), digit_char(month as nat % 10)],
        ],
        task_file_name(day, hour, minute, branch) == seq![
            digit_char(day as nat / 10),
            digit_char(day as nat % 10),
            '-',
            digit_char(hour as nat / 10),
            digit_char(hour as nat % 10),
            digit_char(minute as nat / 10),
            digit_char(minute as nat % 10),
            '-',
        ] + branch,
{
    reveal_strlit("-");
    law_two_digits(month as nat);
    law_two_digits(day as nat);
    law_two_digits(hour as nat);
    law_two_digits(minute as nat);
    assert(task_file_name(day, hour, minute, branch) =~= seq![
        digit_char(day as nat / 10),
        digit_char(day as nat % 10),
        '-',
        digit_char(hour as nat / 10),
        digit_char(hour as nat % 10),
        digit_char(minute as nat / 10),
        digit_char(minute as nat % 10),
        '-',
    ] + branch);
}

} // verus!
