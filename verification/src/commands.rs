//! Extraction of tuning commands from the model's free-form reply.
//!
//! The reply is read line by line; each line is trimmed, a leading run of `$`
//! (a shell prompt the model may echo) is dropped, and the line is trimmed
//! again. A line is kept only when it is not blank, not a comment, not a code
//! fence, and begins with one of the allowed command names.
use vstd::prelude::*;
use crate::text::{
    chars_of, range_starts_with, skip_leading_char, starts_with, string_from_chars, strip_leading, trim,
    trim_range, copy_range, trim_start, trim_end, is_ws, lemma_trim_start_is_suffix,
    lemma_trim_end_is_prefix, lemma_strip_leading_is_suffix,
};

verus! {

/// Number of command names the optimizer may run.
pub const ALLOWED_PREFIX_COUNT: usize = 8;

/// The command names a kept line may begin with.
pub open spec fn allowed_prefixes() -> Seq<Seq<char>> {
    seq![
        "ryzenadj"@,
        "nvidia-smi"@,
        "cpupower"@,
        "echo"@,
        "sysctl"@,
        "taskset"@,
        "renice"@,
        "ionice"@,
    ]
}

/// The `i`-th allowed command name.
pub fn allowed_prefix(i: usize) -> (p: &'static str)
    requires
        i < ALLOWED_PREFIX_COUNT,
    ensures
        p@ == allowed_prefixes()[i as int],
{
    match i {
        0 => "ryzenadj",
        1 => "nvidia-smi",
        2 => "cpupower",
        3 => "echo",
        4 => "sysctl",
        5 => "taskset",
        6 => "renice",
        _ => "ionice",
    }
}

/// The pieces of `s` between newline characters, in order. There is always at
/// least one piece; a newline at the very end yields a last, empty piece. A
/// carriage return before a newline stays at the end of its piece; since it
/// is whitespace, cleaning removes it, so the commands are those that
/// `str::lines` would give, whose extra empty piece is dropped as blank.
pub open spec fn split_lines(s: Seq<char>) -> Seq<Seq<char>>
    decreases s.len(),
{
    if s.len() == 0 {
        seq![Seq::<char>::empty()]
    } else {
        let init = split_lines(s.drop_last());
        if s.last() == '\n' {
            init.push(Seq::<char>::empty())
        } else {
            init.update(init.len() - 1, init.last().push(s.last()))
        }
    }
}

/// A line as the parser sees it: trimmed, without a leading run of `$`, trimmed again.
pub open spec fn clean_line(l: Seq<char>) -> Seq<char> {
    trim(strip_leading(trim(l), '$'))
}

/// Whether `c` begins with one of the allowed command names.
pub open spec fn has_allowed_prefix(c: Seq<char>) -> bool {
    exists|i: int| 0 <= i < allowed_prefixes().len() && starts_with(c, #[trigger] allowed_prefixes()[i])
}

/// Whether a cleaned line is kept as a command: not blank, not a `#` comment,
/// not a ```` ``` ```` fence, and led by an allowed command name.
pub open spec fn is_command(c: Seq<char>) -> bool {
    &&& c.len() > 0
    &&& c[0] != '#'
    &&& !starts_with(c, seq!['`', '`', '`'])
    &&& has_allowed_prefix(c)
}

/// The cleaned lines of `lines` that are kept as commands, in their order.
pub open spec fn keep_commands(lines: Seq<Seq<char>>) -> Seq<Seq<char>>
    decreases lines.len(),
{
    if lines.len() == 0 {
        Seq::<Seq<char>>::empty()
    } else {
        let rest = keep_commands(lines.drop_last());
        let c = clean_line(lines.last());
        if is_command(c) {
            rest.push(c)
        } else {
            rest
        }
    }
}

/// The commands that the reply `text` yields.
pub open spec fn commands_of(text: Seq<char>) -> Seq<Seq<char>> {
    keep_commands(split_lines(text))
}

/// The views of a list of strings.
pub open spec fn views(v: Seq<String>) -> Seq<Seq<char>> {
    v.map_values(|s: String| s@)
}

/// Whether the cleaned text `t[lo..hi]` is kept as a command.
fn range_is_command(t: &Vec<char>, lo: usize, hi: usize) -> (r: bool)
    requires
        lo <= hi <= t.len(),
    ensures
        r == is_command(t@.subrange(lo as int, hi as int)),
{
    let ghost c = t@.subrange(lo as int, hi as int);
    if lo == hi {
        return false;
    }
    if t[lo] == '#' {
        return false;
    }
    let fence: Vec<char> = vec!['`', '`', '`'];
    assert(fence@ =~= seq!['`', '`', '`']);
    assert(c[0] == t@[lo as int]);
    if range_starts_with(t, lo, hi, &fence) {
        return false;
    }
    let mut i: usize = 0;
    while i < ALLOWED_PREFIX_COUNT
        invariant
            i <= ALLOWED_PREFIX_COUNT,
            lo < hi <= t.len(),
            c == t@.subrange(lo as int, hi as int),
            c[0] != '#',
            !starts_with(c, seq!['`', '`', '`']),
            forall|j: int| 0 <= j < i ==> !starts_with(c, #[trigger] allowed_prefixes()[j]),
        decreases ALLOWED_PREFIX_COUNT - i,
    {
        let p = chars_of(allowed_prefix(i));
        if range_starts_with(t, lo, hi, &p) {
            assert(starts_with(c, allowed_prefixes()[i as int]));
            assert(has_allowed_prefix(c));
            return true;
        }
        i = i + 1;
    }
    false
}

/// The cleaned form of the line `t[lo..hi]`, as bounds into `t`.
fn clean_range(t: &Vec<char>, lo: usize, hi: usize) -> (r: (usize, usize))
    requires
        lo <= hi <= t.len(),
    ensures
        lo <= r.0 <= r.1 <= hi,
        clean_line(t@.subrange(lo as int, hi as int)) == t@.subrange(r.0 as int, r.1 as int),
{
    let (a, b) = trim_range(t, lo, hi);
    let a2 = skip_leading_char(t, a, b, '$');
    trim_range(t, a2, b)
}

/// The tuning commands in the model's reply `text`: every line that, once
/// cleaned, begins with an allowed command name, cleaned and in reply order.
pub fn parse_commands(text: &str) -> (cmds: Vec<String>)
    ensures
        views(cmds@) == commands_of(text@),
{
    let t = chars_of(text);
    let n = t.len();
    let mut cmds: Vec<String> = Vec::new();
    let mut start: usize = 0;
    let ghost mut done: Seq<Seq<char>> = Seq::empty();
    assert(t@.take(0) =~= Seq::<char>::empty());
    assert(t@.subrange(0, 0) =~= Seq::<char>::empty());
    assert(split_lines(t@.take(0)) =~= done.push(t@.subrange(0, 0)));
    for i in 0..n
        invariant
            n == t.len(),
            t@ == text@,
            start <= i,
            split_lines(t@.take(i as int)) == done.push(t@.subrange(start as int, i as int)),
            views(cmds@) == keep_commands(done),
    {
        assert(t@.take(i + 1).drop_last() =~= t@.take(i as int));
        assert(t@.take(i + 1).last() == t@[i as int]);
        if t[i] == '\n' {
            let ghost line = t@.subrange(start as int, i as int);
            let (a, b) = clean_range(&t, start, i);
            let keep = range_is_command(&t, a, b);
            if keep {
                let s = string_from_chars(&copy_range(&t, a, b));
                cmds.push(s);
            }
            proof {
                let nd = done.push(line);
                assert(nd.drop_last() =~= done);
                assert(views(cmds@) =~= keep_commands(nd));
                done = nd;
                assert(t@.subrange(i + 1, i + 1) =~= Seq::<char>::empty());
                assert(split_lines(t@.take(i + 1)) =~= done.push(t@.subrange(i + 1, i + 1)));
            }
            start = i + 1;
        } else {
            proof {
                assert(t@.subrange(start as int, i as int).push(t@[i as int]) =~= t@.subrange(
                    start as int,
                    i + 1,
                ));
                assert(split_lines(t@.take(i + 1)) =~= done.push(
                    t@.subrange(start as int, i + 1),
                ));
            }
        }
    }
    let ghost line = t@.subrange(start as int, n as int);
    let (a, b) = clean_range(&t, start, n);
    let keep = range_is_command(&t, a, b);
    if keep {
        let s = string_from_chars(&copy_range(&t, a, b));
        cmds.push(s);
    }
    proof {
        let all = done.push(line);
        assert(all.drop_last() =~= done);
        assert(t@.take(n as int) =~= t@);
        assert(views(cmds@) =~= keep_commands(all));
    }
    cmds
}

/// `lines` joined back together with a newline between consecutive lines.
pub open spec fn join_lines(lines: Seq<Seq<char>>) -> Seq<char>
    decreases lines.len(),
{
    if lines.len() == 0 {
        Seq::<char>::empty()
    } else if lines.len() == 1 {
        lines[0]
    } else {
        join_lines(lines.drop_last()) + seq!['\n'] + lines.last()
    }
}

/// `s` holds no newline character.
pub open spec fn single_line(s: Seq<char>) -> bool {
    forall|k: int| 0 <= k < s.len() ==> s[k] != '\n'
}

/// No piece that `split_lines` yields holds a newline.
proof fn lemma_split_pieces_single_line(s: Seq<char>)
    ensures
        split_lines(s).len() >= 1,
        forall|k: int| 0 <= k < split_lines(s).len() ==> single_line(#[trigger] split_lines(s)[k]),
    decreases s.len(),
{
    if s.len() > 0 {
        lemma_split_pieces_single_line(s.drop_last());
    }
}

/// The cleaned form of a line is a contiguous part of it.
proof fn lemma_clean_is_part(l: Seq<char>)
    ensures
        exists|a: int|
            0 <= a && a + clean_line(l).len() <= l.len() && #[trigger] l.subrange(
                a,
                a + clean_line(l).len(),
            ) == clean_line(l),
{
    let t1 = trim_start(l);
    lemma_trim_start_is_suffix(l);
    let t2 = trim_end(t1);
    lemma_trim_end_is_prefix(t1);
    let s1 = strip_leading(t2, '$');
    lemma_strip_leading_is_suffix(t2, '$');
    let t3 = trim_start(s1);
    lemma_trim_start_is_suffix(s1);
    let c = trim_end(t3);
    lemma_trim_end_is_prefix(t3);
    let a = (l.len() - t1.len()) + (t2.len() - s1.len()) + (s1.len() - t3.len());
    assert(c == clean_line(l));
    assert(0 <= a);
    assert(l.subrange(a, a + c.len()) =~= c);
}

/// A cleaned line that is kept as a command is left unchanged by cleaning it again.
proof fn lemma_command_is_clean(l: Seq<char>)
    requires
        is_command(clean_line(l)),
    ensures
        clean_line(clean_line(l)) == clean_line(l),
        trim(clean_line(l)) == clean_line(l),
{
    let c = clean_line(l);
    let y = strip_leading(trim(l), '$');
    let x = trim_start(y);
    lemma_trim_start_is_suffix(y);
    lemma_trim_end_is_prefix(x);
    assert(c == trim_end(x));
    assert(x.len() > 0);
    assert(c[0] == x[0]);
    assert(!is_ws(c[0]));
    assert(!is_ws(c.last()));
    assert(trim_start(c) == c);
    assert(trim_end(c) == c);
    assert(c[0] != '$') by {
        let i = choose|i: int| 0 <= i < allowed_prefixes().len() && starts_with(c, #[trigger] allowed_prefixes()[i]);
        lemma_allowed_first_chars(i);
        assert(c[0] == c.subrange(0, allowed_prefixes()[i].len() as int)[0]);
    }
    assert(strip_leading(c, '$') == c);
}

/// No allowed command name begins with whitespace, `$`, `#` or a backquote.
proof fn lemma_allowed_first_chars(i: int)
    requires
        0 <= i < allowed_prefixes().len(),
    ensures
        allowed_prefixes()[i].len() >= 4,
        'a' <= allowed_prefixes()[i][0] <= 'z',
{
    reveal_strlit("ryzenadj");
    reveal_strlit("nvidia-smi");
    reveal_strlit("cpupower");
    reveal_strlit("echo");
    reveal_strlit("sysctl");
    reveal_strlit("taskset");
    reveal_strlit("renice");
    reveal_strlit("ionice");
}

/// Law: a cleaned line is kept exactly when it begins with an allowed command
/// name; the blank, comment and code-fence filters never reject such a line.
pub proof fn law_kept_iff_allowed_prefix(c: Seq<char>)
    ensures
        is_command(c) <==> has_allowed_prefix(c),
{
    if has_allowed_prefix(c) {
        let i = choose|i: int| 0 <= i < allowed_prefixes().len() && starts_with(c, #[trigger] allowed_prefixes()[i]);
        lemma_allowed_first_chars(i);
        assert(c[0] == c.subrange(0, allowed_prefixes()[i].len() as int)[0]);
        if starts_with(c, seq!['`', '`', '`']) {
            assert(c[0] == c.subrange(0, 3)[0]);
        }
    }
}

/// Every entry of `keep_commands(lines)` is the cleaned form of some entry of `lines`,
/// is kept as a command, and is left unchanged by cleaning.
proof fn lemma_kept_are_commands(lines: Seq<Seq<char>>)
    ensures
        forall|k: int|
            0 <= k < keep_commands(lines).len() ==> {
                &&& is_command(#[trigger] keep_commands(lines)[k])
                &&& clean_line(keep_commands(lines)[k]) == keep_commands(lines)[k]
                &&& trim(keep_commands(lines)[k]) == keep_commands(lines)[k]
                &&& exists|j: int| 0 <= j < lines.len() && keep_commands(lines)[k] == clean_line(#[trigger] lines[j])
            },
    decreases lines.len(),
{
    if lines.len() > 0 {
        lemma_kept_are_commands(lines.drop_last());
        let c = clean_line(lines.last());
        if is_command(c) {
            lemma_command_is_clean(lines.last());
        }
        let kc = keep_commands(lines);
        assert forall|k: int| 0 <= k < kc.len() implies exists|j: int|
            0 <= j < lines.len() && #[trigger] kc[k] == clean_line(#[trigger] lines[j]) by {
            if k < keep_commands(lines.drop_last()).len() {
                let j = choose|j: int| 0 <= j < lines.drop_last().len() && keep_commands(lines.drop_last())[k] == clean_line(#[trigger] lines.drop_last()[j]);
                assert(lines[j] == lines.drop_last()[j]);
            } else {
                assert(kc[k] == clean_line(lines[lines.len() - 1]));
            }
        }
    }
}

/// Law: every command that `parse_commands` returns begins with one of the allowed
/// command names, has no whitespace at either end, holds no newline, and is left
/// unchanged by the line cleaning that produced it.
pub proof fn law_commands_are_allowed_and_clean(text: Seq<char>)
    ensures
        forall|k: int|
            0 <= k < commands_of(text).len() ==> {
                &&& has_allowed_prefix(#[trigger] commands_of(text)[k])
                &&& trim(commands_of(text)[k]) == commands_of(text)[k]
                &&& single_line(commands_of(text)[k])
                &&& clean_line(commands_of(text)[k]) == commands_of(text)[k]
            },
{
    let lines = split_lines(text);
    lemma_kept_are_commands(lines);
    lemma_split_pieces_single_line(text);
    assert forall|k: int| 0 <= k < commands_of(text).len() implies single_line(
        #[trigger] commands_of(text)[k],
    ) by {
        let j = choose|j: int| 0 <= j < lines.len() && commands_of(text)[k] == clean_line(#[trigger] lines[j]);
        let l = lines[j];
        lemma_clean_is_part(l);
        let c = clean_line(l);
        let a = choose|a: int| 0 <= a && a + c.len() <= l.len() && #[trigger] l.subrange(a, a + c.len()) == c;
        assert forall|m: int| 0 <= m < c.len() implies c[m] != '\n' by {
            assert(c[m] == l.subrange(a, a + c.len())[m]);
            assert(single_line(lines[j]));
        }
    }
}

/// Splitting text that ends in a newline followed by a single line `q`.
proof fn lemma_split_after_newline(p: Seq<char>, q: Seq<char>)
    requires
        single_line(q),
    ensures
        split_lines(p + seq!['\n'] + q) == split_lines(p).push(q),
    decreases q.len(),
{
    let s = p + seq!['\n'] + q;
    if q.len() == 0 {
        assert(s.drop_last() =~= p);
        assert(s.last() == '\n');
        assert(q =~= Seq::<char>::empty());
    } else {
        let q0 = q.drop_last();
        assert(single_line(q0));
        lemma_split_after_newline(p, q0);
        assert(s.drop_last() =~= p + seq!['\n'] + q0);
        assert(s.last() == q.last());
        assert(q0.push(q.last()) =~= q);
        let init = split_lines(p + seq!['\n'] + q0);
        assert(init == split_lines(p).push(q0));
        assert(init.update(init.len() - 1, init.last().push(s.last())) =~= split_lines(p).push(q));
    }
}

/// A single line splits into just itself.
proof fn lemma_split_single(q: Seq<char>)
    requires
        single_line(q),
    ensures
        split_lines(q) == seq![q],
    decreases q.len(),
{
    if q.len() == 0 {
        assert(q =~= Seq::<char>::empty());
    } else {
        let q0 = q.drop_last();
        assert(single_line(q0));
        lemma_split_single(q0);
        assert(q0.push(q.last()) =~= q);
        assert(seq![q0].update(0, q0.push(q.last())) =~= seq![q]);
    }
}

/// Joining single lines with newlines and splitting again gives the lines back.
proof fn lemma_split_join(cs: Seq<Seq<char>>)
    requires
        cs.len() >= 1,
        forall|k: int| 0 <= k < cs.len() ==> single_line(#[trigger] cs[k]),
    ensures
        split_lines(join_lines(cs)) == cs,
    decreases cs.len(),
{
    if cs.len() == 1 {
        lemma_split_single(cs[0]);
        assert(seq![cs[0]] =~= cs);
    } else {
        let init = cs.drop_last();
        assert forall|k: int| 0 <= k < init.len() implies single_line(#[trigger] init[k]) by {
            assert(init[k] == cs[k]);
        }
        lemma_split_join(init);
        assert(single_line(cs[cs.len() - 1]));
        lemma_split_after_newline(join_lines(init), cs.last());
        assert(init.push(cs.last()) =~= cs);
    }
}

/// Lines that are all clean commands are kept as they are.
proof fn lemma_keep_clean_commands(cs: Seq<Seq<char>>)
    requires
        forall|k: int|
            0 <= k < cs.len() ==> is_command(#[trigger] cs[k]) && clean_line(cs[k]) == cs[k],
    ensures
        keep_commands(cs) == cs,
    decreases cs.len(),
{
    if cs.len() > 0 {
        let init = cs.drop_last();
        assert forall|k: int| 0 <= k < init.len() implies is_command(#[trigger] init[k]) && clean_line(init[k]) == init[k] by {
            assert(init[k] == cs[k]);
        }
        lemma_keep_clean_commands(init);
        assert(is_command(cs[cs.len() - 1]));
        assert(init.push(cs.last()) =~= cs);
    }
}

/// Law: parsing is idempotent. Writing the parsed commands back one per line and
/// parsing that text again yields exactly the same commands.
pub proof fn law_reparse_is_identity(text: Seq<char>)
    ensures
        commands_of(join_lines(commands_of(text))) == commands_of(text),
{
    let cs = commands_of(text);
    law_commands_are_allowed_and_clean(text);
    lemma_kept_are_commands(split_lines(text));
    if cs.len() == 0 {
        assert(join_lines(cs) =~= Seq::<char>::empty());
        assert(split_lines(Seq::<char>::empty()) =~= seq![Seq::<char>::empty()]);
        let e = Seq::<char>::empty();
        assert(trim(e) =~= e);
        assert(strip_leading(e, '$') =~= e);
        assert(clean_line(e) =~= e);
        assert(seq![e].drop_last() =~= Seq::<Seq<char>>::empty());
        assert(!is_command(clean_line(e)));
        assert(keep_commands(Seq::<Seq<char>>::empty()) =~= Seq::<Seq<char>>::empty());
        assert(keep_commands(seq![e]) =~= Seq::<Seq<char>>::empty());
        assert(cs =~= Seq::<Seq<char>>::empty());
    } else {
        lemma_split_join(cs);
        lemma_keep_clean_commands(cs);
    }
}

/// Splitting text made of `p`, a newline and `q` gives the lines of `p`
/// followed by the lines of `q`.
proof fn lemma_split_concat(p: Seq<char>, q: Seq<char>)
    ensures
        split_lines(p + seq!['\n'] + q) == split_lines(p) + split_lines(q),
    decreases q.len(),
{
    let s = p + seq!['\n'] + q;
    lemma_split_pieces_single_line(q);
    if q.len() == 0 {
        assert(s.drop_last() =~= p);
        assert(s.last() == '\n');
        assert(split_lines(q) =~= seq![Seq::<char>::empty()]);
        assert(split_lines(p).push(Seq::<char>::empty()) =~= split_lines(p) + split_lines(q));
    } else {
        let q0 = q.drop_last();
        lemma_split_concat(p, q0);
        lemma_split_pieces_single_line(q0);
        assert(s.drop_last() =~= p + seq!['\n'] + q0);
        assert(s.last() == q.last());
        let a = split_lines(p);
        let b = split_lines(q0);
        if q.last() == '\n' {
            assert((a + b).push(Seq::<char>::empty()) =~= a + b.push(Seq::<char>::empty()));
        } else {
            assert((a + b).update((a + b).len() - 1, (a + b).last().push(q.last())) =~= a + b.update(
                b.len() - 1,
                b.last().push(q.last()),
            ));
        }
    }
}

/// Keeping the commands of two runs of lines, one after the other, keeps the
/// commands of each run, one after the other.
proof fn lemma_keep_concat(x: Seq<Seq<char>>, y: Seq<Seq<char>>)
    ensures
        keep_commands(x + y) == keep_commands(x) + keep_commands(y),
    decreases y.len(),
{
    if y.len() == 0 {
        assert(x + y =~= x);
        assert(keep_commands(x) + keep_commands(y) =~= keep_commands(x));
    } else {
        let y0 = y.drop_last();
        lemma_keep_concat(x, y0);
        assert((x + y).drop_last() =~= x + y0);
        assert((x + y).last() == y.last());
        let c = clean_line(y.last());
        if is_command(c) {
            assert((keep_commands(x) + keep_commands(y0)).push(c) =~= keep_commands(x) + keep_commands(
                y0,
            ).push(c));
        }
    }
}

/// Law: parsing two replies joined by a newline gives the commands of the
/// first followed by the commands of the second.
pub proof fn law_parse_concat(a: Seq<char>, b: Seq<char>)
    ensures
        commands_of(a + seq!['\n'] + b) == commands_of(a) + commands_of(b),
{
    lemma_split_concat(a, b);
    lemma_keep_concat(split_lines(a), split_lines(b));
}

} // verus!
