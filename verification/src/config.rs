//! The configuration file: what the setup writes and what a later run reads
//! back as the configured package manager.
use vstd::prelude::*;

verus! {

/// The key that marks the package-manager line: `PM=`.
pub open spec fn marker() -> Seq<char> {
    seq!['P', 'M', '=']
}

/// Whether `s` begins with `p`.
pub open spec fn has_prefix(s: Seq<char>, p: Seq<char>) -> bool {
    p.len() <= s.len() && s.take(p.len() as int) == p
}

/// A line without the carriage return that stood before its newline.
pub open spec fn strip_cr(line: Seq<char>) -> Seq<char> {
    if line.len() > 0 && line.last() == '\r' {
        line.drop_last()
    } else {
        line
    }
}

/// The lines of `s` that follow the partial line `cur`, as `str::lines`
/// yields them: split at `\n`, a `\r` before the `\n` dropped, and no empty
/// line after a final newline.
pub open spec fn lines_from(s: Seq<char>, cur: Seq<char>) -> Seq<Seq<char>>
    decreases s.len(),
{
    if s.len() == 0 {
        if cur.len() == 0 {
            Seq::empty()
        } else {
            seq![cur]
        }
    } else if s[0] == '\n' {
        seq![strip_cr(cur)] + lines_from(s.drop_first(), Seq::empty())
    } else {
        lines_from(s.drop_first(), cur.push(s[0]))
    }
}

/// The lines of `s`.
pub open spec fn lines(s: Seq<char>) -> Seq<Seq<char>> {
    lines_from(s, Seq::empty())
}

/// The first of `ls` that begins with the marker.
pub open spec fn first_marked(ls: Seq<Seq<char>>) -> Option<Seq<char>>
    decreases ls.len(),
{
    if ls.len() == 0 {
        None
    } else if has_prefix(ls[0], marker()) {
        Some(ls[0])
    } else {
        first_marked(ls.drop_first())
    }
}

/// `l` with every occurrence of the marker removed, left to right and
/// without overlap, as `str::replace("PM=", "")` does.
pub open spec fn without_marker(l: Seq<char>) -> Seq<char>
    decreases l.len(),
{
    if l.len() == 0 {
        l
    } else if has_prefix(l, marker()) {
        without_marker(l.skip(3))
    } else {
        seq![l[0]] + without_marker(l.drop_first())
    }
}

/// The package manager that a configuration file names: the first line that
/// begins with `PM=`, with each `PM=` in it removed.
pub open spec fn configured_pm(data: Seq<char>) -> Option<Seq<char>> {
    match first_marked(lines(data)) {
        Some(l) => Some(without_marker(l)),
        None => None,
    }
}

/// Whether the marker occurs anywhere in `s`.
pub open spec fn mentions_marker(s: Seq<char>) -> bool {
    exists|i: int| 0 <= i && i + 3 <= s.len() && #[trigger] s.subrange(i, i + 3) == marker()
}

/// The contents that the setup writes for package manager `pm`.
pub open spec fn config_text(pm: Seq<char>) -> Seq<char> {
    marker() + pm
}

/// Whether the marker begins at position `i` of `s`.
fn marker_at(s: &str, n: usize, i: usize) -> (r: bool)
    requires
        n == s@.len(),
        i <= n,
    ensures
        r == has_prefix(s@.skip(i as int), marker()),
{
    if n - i < 3 {
        return false;
    }
    let r = s.get_char(i) == 'P' && s.get_char(i + 1) == 'M' && s.get_char(i + 2) == '=';
    proof {
        let t = s@.skip(i as int);
        if r {
            assert(t.take(3) =~= marker());
        } else {
            if t.take(3) == marker() {
                assert(t.take(3)[0] == 'P' && t.take(3)[1] == 'M' && t.take(3)[2] == '=');
            }
        }
    }
    r
}

/// The line with every `PM=` removed.
fn strip_marker(line: &str) -> (r: String)
    ensures
        r@ == without_marker(line@),
{
    let n = line.unicode_len();
    let mut r = String::new();
    let mut i: usize = 0;
    assert(line@.skip(0) =~= line@);
    while i < n
        invariant
            n == line@.len(),
            i <= n,
            without_marker(line@) == r@ + without_marker(line@.skip(i as int)),
        decreases n - i,
    {
        let ghost t = line@.skip(i as int);
        if marker_at(line, n, i) {
            assert(t.skip(3) =~= line@.skip(i + 3));
            i = i + 3;
        } else {
            let one = line.substring_char(i, i + 1);
            let ghost before = r@;
            r.append(one);
            assert(t.drop_first() =~= line@.skip(i + 1));
            assert(one@ =~= seq![t[0]]);
            assert(before + (seq![t[0]] + without_marker(line@.skip(i + 1))) =~= r@
                + without_marker(line@.skip(i + 1)));
            i = i + 1;
        }
    }
    r
}

proof fn lemma_first_marked_cons(x: Seq<char>, rest: Seq<Seq<char>>)
    ensures
        first_marked(seq![x] + rest) == if has_prefix(x, marker()) {
            Some(x)
        } else {
            first_marked(rest)
        },
{
    assert((seq![x] + rest)[0] == x);
    assert((seq![x] + rest).drop_first() =~= rest);
}

/// The package manager named by the contents of a configuration file, as
/// `load_pm` reads it: `None` when no line begins with `PM=`.
pub fn parse_pm_config(data: &str) -> (r: Option<String>)
    ensures
        r matches Some(pm) ==> configured_pm(data@) == Some(pm@),
        r is None <==> configured_pm(data@) is None,
{
    let n = data.unicode_len();
    let mut start: usize = 0;
    let mut i: usize = 0;
    assert(data@.skip(0) =~= data@);
    assert(data@.subrange(0, 0) =~= Seq::<char>::empty());
    while i < n
        invariant
            n == data@.len(),
            start <= i <= n,
            first_marked(lines(data@)) == first_marked(
                lines_from(data@.skip(i as int), data@.subrange(start as int, i as int)),
            ),
        decreases n - i,
    {
        let ghost t = data@.skip(i as int);
        let ghost cur = data@.subrange(start as int, i as int);
        assert(t[0] == data@[i as int]);
        assert(t.drop_first() =~= data@.skip(i + 1));
        if data.get_char(i) == '\n' {
            let mut end = i;
            if end > start && data.get_char(end - 1) == '\r' {
                end = end - 1;
            }
            let line = data.substring_char(start, end);
            assert(line@ =~= strip_cr(cur));
            proof {
                lemma_first_marked_cons(
                    strip_cr(cur),
                    lines_from(data@.skip(i + 1), Seq::empty()),
                );
            }
            if marker_at(line, end - start, 0) {
                assert(line@.skip(0) =~= line@);
                return Some(strip_marker(line));
            }
            assert(line@.skip(0) =~= line@);
            start = i + 1;
            i = i + 1;
            assert(data@.subrange(start as int, i as int) =~= Seq::<char>::empty());
        } else {
            assert(cur.push(t[0]) =~= data@.subrange(start as int, i + 1));
            i = i + 1;
        }
    }
    let ghost cur = data@.subrange(start as int, n as int);
    assert(data@.skip(n as int) =~= Seq::<char>::empty());
    if start < n {
        let line = data.substring_char(start, n);
        proof {
            lemma_first_marked_cons(cur, Seq::empty());
            assert(seq![cur] + Seq::<Seq<char>>::empty() =~= seq![cur]);
            assert(line@.skip(0) =~= line@);
        }
        if marker_at(line, n - start, 0) {
            return Some(strip_marker(line));
        }
        None
    } else {
        None
    }
}

/// The contents of the configuration file that names `pm`: `PM=` and `pm`.
pub fn render_pm_config(pm: &str) -> (r: String)
    ensures
        r@ == config_text(pm@),
{
    proof {
        reveal_strlit("PM=");
    }
    let mut r = String::from_str("PM=");
    r.append(pm);
    r
}

proof fn lemma_lines_single(s: Seq<char>, cur: Seq<char>)
    requires
        !s.contains('\n'),
        cur.len() + s.len() > 0,
    ensures
        lines_from(s, cur) == seq![cur + s],
    decreases s.len(),
{
    if s.len() == 0 {
        assert(cur + s =~= cur);
    } else {
        assert(s[0] != '\n') by {
            if s[0] == '\n' {
                assert(s.contains('\n'));
            }
        }
        assert(!s.drop_first().contains('\n')) by {
            if s.drop_first().contains('\n') {
                let k = choose|k: int| 0 <= k < s.drop_first().len() && s.drop_first()[k] == '\n';
                assert(s[k + 1] == '\n');
            }
        }
        lemma_lines_single(s.drop_first(), cur.push(s[0]));
        assert(cur.push(s[0]) + s.drop_first() =~= cur + s);
    }
}

proof fn lemma_no_marker_unchanged(l: Seq<char>)
    requires
        !mentions_marker(l),
    ensures
        without_marker(l) == l,
    decreases l.len(),
{
    if l.len() > 0 {
        if has_prefix(l, marker()) {
            assert(l.subrange(0int, 0int + 3) == marker());
            assert(mentions_marker(l));
        }
        let t = l.drop_first();
        assert(!mentions_marker(t)) by {
            if mentions_marker(t) {
                let i = choose|i: int| 0 <= i && i + 3 <= t.len() && #[trigger] t.subrange(i, i + 3) == marker();
                let j = i + 1;
                assert(l.subrange(j, j + 3) =~= t.subrange(i, i + 3));
                assert(mentions_marker(l));
            }
        }
        lemma_no_marker_unchanged(t);
        assert(seq![l[0]] + t =~= l);
    }
}

/// What the setup writes is read back: for a package-manager name with no
/// newline and no `PM=` in it, the file `PM=<name>` names that manager.
pub proof fn law_config_round_trip(pm: Seq<char>)
    requires
        !pm.contains('\n'),
        !mentions_marker(pm),
    ensures
        configured_pm(config_text(pm)) == Some(pm),
{
    let text = config_text(pm);
    assert(!text.contains('\n')) by {
        if text.contains('\n') {
            let k = choose|k: int| 0 <= k < text.len() && text[k] == '\n';
            if k >= 3 {
                assert(pm[k - 3] == '\n');
            }
        }
    }
    lemma_lines_single(text, Seq::empty());
    assert(Seq::<char>::empty() + text =~= text);
    assert(text.take(3) =~= marker());
    assert(seq![text].drop_first() =~= Seq::<Seq<char>>::empty());
    assert(text.skip(3) =~= pm);
    lemma_no_marker_unchanged(pm);
}

proof fn lemma_line_then_rest(l: Seq<char>, rest: Seq<char>, cur: Seq<char>)
    requires
        !l.contains('\n'),
    ensures
        lines_from(l + seq!['\n'] + rest, cur) == seq![strip_cr(cur + l)] + lines_from(
            rest,
            Seq::empty(),
        ),
    decreases l.len(),
{
    let s = l + seq!['\n'] + rest;
    if l.len() == 0 {
        assert(s[0] == '\n');
        assert(s.drop_first() =~= rest);
        assert(cur + l =~= cur);
    } else {
        assert(l[0] != '\n') by {
            if l[0] == '\n' {
                assert(l.contains('\n'));
            }
        }
        let t = l.drop_first();
        assert(!t.contains('\n')) by {
            if t.contains('\n') {
                let k = choose|k: int| 0 <= k < t.len() && t[k] == '\n';
                assert(l[k + 1] == '\n');
            }
        }
        assert(s[0] == l[0]);
        assert(s.drop_first() =~= t + seq!['\n'] + rest);
        lemma_line_then_rest(t, rest, cur.push(l[0]));
        assert(cur.push(l[0]) + t =~= cur + l);
    }
}

/// A configuration is read line by line from the top, and the first line
/// that begins with `PM=` decides: a first line (its carriage return before
/// the newline dropped) that begins with `PM=` gives its text with each
/// `PM=` removed, whatever follows; a first line that does not is skipped.
pub proof fn law_first_marked_line_decides(l: Seq<char>, rest: Seq<char>)
    requires
        !l.contains('\n'),
    ensures
        has_prefix(strip_cr(l), "PM="@) ==> configured_pm(l + "\n"@ + rest) == Some(
            without_marker(strip_cr(l)),
        ),
        !has_prefix(strip_cr(l), "PM="@) ==> configured_pm(l + "\n"@ + rest) == configured_pm(
            rest,
        ),
{
    reveal_strlit("PM=");
    reveal_strlit("\n");
    assert("PM="@ =~= marker());
    assert("\n"@ =~= seq!['\n']);
    lemma_line_then_rest(l, rest, Seq::empty());
    assert(Seq::<char>::empty() + l =~= l);
    lemma_first_marked_cons(strip_cr(l), lines(rest));
}

/// Removing `PM=` takes every occurrence from the left: a text that begins
/// with `PM=` loses it, and a text that does not keeps its first character.
pub proof fn law_marker_removal(c: char, x: Seq<char>)
    ensures
        without_marker("PM="@ + x) == without_marker(x),
        !has_prefix(seq![c] + x, "PM="@) ==> without_marker(seq![c] + x) == seq![c]
            + without_marker(x),
{
    reveal_strlit("PM=");
    assert("PM="@ =~= marker());
    assert(("PM="@ + x).take(3) =~= marker());
    assert(("PM="@ + x).skip(3) =~= x);
    assert((seq![c] + x).drop_first() =~= x);
    assert((seq![c] + x)[0] == c);
}

} // verus!
