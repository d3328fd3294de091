use vstd::prelude::*;
use std::ops::Range;
use crate::error::ApplyError;
use crate::text::{find_char, find_char_from, lemma_find_char_from_bounds};
use crate::vars::Vars;

verus! {

/// Whether a `@@` delimiter starts at position `i` of `s`.
pub open spec fn is_delim_at(s: Seq<char>, i: int) -> bool {
    0 <= i && i + 1 < s.len() && s[i] == '@' && s[i + 1] == '@'
}

/// Start of the first `@@` at or after `from`.
pub open spec fn find_delim(s: Seq<char>, from: int) -> Option<int>
    decreases s.len() - from,
{
    if from < 0 || from + 1 >= s.len() {
        None
    } else if is_delim_at(s, from) {
        Some(from)
    } else {
        find_delim(s, from + 1)
    }
}

/// Starts of the opening and closing delimiters of the first `@@key@@` token of `s`.
pub open spec fn token_span(s: Seq<char>) -> Option<(int, int)> {
    match find_delim(s, 0) {
        Some(open) => match find_delim(s, open + 2) {
            Some(close) => Some((open, close)),
            None => None,
        },
        None => None,
    }
}

/// Result of substituting the first token of `line`: `None` when it has no
/// token, `Ok` with the spliced line (newline appended) when the key is bound,
/// `Err` with the key when it is not.
pub open spec fn substitute(vars: Map<Seq<char>, Seq<char>>, line: Seq<char>) -> Option<
    Result<Seq<char>, Seq<char>>,
> {
    match token_span(line) {
        None => None,
        Some((open, close)) => {
            let key = line.subrange(open + 2, close);
            if vars.contains_key(key) {
                Some(
                    Ok(line.subrange(0, open) + vars[key] + line.subrange(close + 2, line.len() as int)
                        + seq!['\n']),
                )
            } else {
                Some(Err(key))
            }
        },
    }
}

pub proof fn lemma_find_delim_bounds(s: Seq<char>, from: int)
    requires
        0 <= from,
    ensures
        match find_delim(s, from) {
            Some(i) => from <= i && is_delim_at(s, i) && forall|j: int|
                from <= j < i ==> !is_delim_at(s, j),
            None => forall|j: int| from <= j ==> !is_delim_at(s, j),
        },
    decreases s.len() - from,
{
    if from + 1 < s.len() && !is_delim_at(s, from) {
        lemma_find_delim_bounds(s, from + 1);
    }
}

/// Outcome of substituting one template line.
#[derive(Debug, PartialEq, Eq)]
pub enum ChangeString {
    /// The line held a token; the spliced line, ending in a newline.
    Changed(String),
    /// The line held no token.
    Unchanged,
}

/// Start of the first `@@` at or after `from` in `line`.
fn find_delim_exec(line: &str, from: usize) -> (r: Option<usize>)
    requires
        from <= line@.len(),
    ensures
        match r {
            Some(i) => find_delim(line@, from as int) == Some(i as int),
            None => find_delim(line@, from as int) is None,
        },
{
    let n = line.unicode_len();
    if n < 2 {
        return None;
    }
    let mut i = from;
    while i < n - 1
        invariant
            n == line@.len(),
            n >= 2,
            from <= i <= n,
            find_delim(line@, from as int) == find_delim(line@, i as int),
        decreases n - i,
    {
        if line.get_char(i) == '@' && line.get_char(i + 1) == '@' {
            return Some(i);
        }
        i = i + 1;
    }
    None
}

/// Locates the first `@@key@@` token of `line`. Returns the character range of
/// the key and the range of the whole token, delimiters included.
pub fn match_line(line: &str) -> (r: Option<(Range<usize>, Range<usize>)>)
    ensures
        match r {
            Some((inner, outer)) => token_span(line@) == Some((outer.start as int, inner.end as int))
                && inner.start == outer.start + 2 && outer.end == inner.end + 2,
            None => token_span(line@) is None,
        },
{
    let n = line.unicode_len();
    match find_delim_exec(line, 0) {
        Some(open) => {
            proof { lemma_find_delim_bounds(line@, 0); }
            match find_delim_exec(line, open + 2) {
                Some(close) => {
                    proof { lemma_find_delim_bounds(line@, open + 2); }
                    Some((Range { start: open + 2, end: close }, Range { start: open, end: close + 2 }))
                },
                None => None,
            }
        },
        None => None,
    }
}

/// Splices the value of the first token of `line` in place of the token.
/// `Ok(None)` when `line` has no token.
fn substitute_exec(vars: &Vars, line: &str) -> (r: Result<Option<String>, ApplyError>)
    ensures
        match substitute(vars@, line@) {
            None => r matches Ok(None),
            Some(Ok(t)) => r matches Ok(Some(s)) && s@ == t,
            Some(Err(k)) => r matches Err(ApplyError::VarNotFound(m)) && m@ == k,
        },
{
    match match_line(line) {
        Some((inner, outer)) => {
            proof {
                lemma_find_delim_bounds(line@, 0);
                lemma_find_delim_bounds(line@, outer.start + 2);
            }
            let n = line.unicode_len();
            let key = line.substring_char(inner.start, inner.end);
            match vars.get(key) {
                Some(value) => {
                    let mut new_line = line.substring_char(0, outer.start).to_owned();
                    new_line.append(value.as_str());
                    new_line.append(line.substring_char(outer.end, n));
                    proof { reveal_strlit("\n"); }
                    new_line.append("\n");
                    Ok(Some(new_line))
                },
                None => Err(ApplyError::VarNotFound(key.to_owned())),
            }
        },
        None => Ok(None),
    }
}

/// Substitutes the first token of `line`; a line without a token comes back
/// unchanged, without a newline added.
pub fn replace_line2(vars: &Vars, line: &str) -> (r: Result<String, ApplyError>)
    ensures
        match substitute(vars@, line@) {
            None => r matches Ok(s) && s@ == line@,
            Some(Ok(t)) => r matches Ok(s) && s@ == t,
            Some(Err(k)) => r matches Err(ApplyError::VarNotFound(m)) && m@ == k,
        },
{
    match substitute_exec(vars, line) {
        Ok(Some(s)) => Ok(s),
        Ok(None) => Ok(line.to_owned()),
        Err(e) => Err(e),
    }
}

/// Substitutes the first token of `line`, telling apart a line without a token.
pub fn replace_line(vars: &Vars, line: &str) -> (r: Result<ChangeString, ApplyError>)
    ensures
        match substitute(vars@, line@) {
            None => r matches Ok(ChangeString::Unchanged),
            Some(Ok(t)) => r matches Ok(ChangeString::Changed(s)) && s@ == t,
            Some(Err(k)) => r matches Err(ApplyError::VarNotFound(m)) && m@ == k,
        },
{
    match substitute_exec(vars, line) {
        Ok(Some(s)) => Ok(ChangeString::Changed(s)),
        Ok(None) => Ok(ChangeString::Unchanged),
        Err(e) => Err(e),
    }
}

/// One argument after substitution, as `replace_line2` computes it.
pub open spec fn fill_arg(vars: Map<Seq<char>, Seq<char>>, a: Seq<char>) -> Result<Seq<char>, Seq<char>> {
    match substitute(vars, a) {
        None => Ok(a),
        Some(r) => r,
    }
}

/// All arguments after substitution, or the key of the first one that fails.
pub open spec fn fill_args(vars: Map<Seq<char>, Seq<char>>, args: Seq<Seq<char>>) -> Result<
    Seq<Seq<char>>,
    Seq<char>,
>
    decreases args.len(),
{
    if args.len() == 0 {
        Ok(seq![])
    } else {
        match fill_args(vars, args.drop_last()) {
            Err(k) => Err(k),
            Ok(done) => match fill_arg(vars, args.last()) {
                Ok(a) => Ok(done.push(a)),
                Err(k) => Err(k),
            },
        }
    }
}

/// Substitutes the first token of each argument.
pub fn replace_all(args: &[String], vars: &Vars) -> (r: Result<Vec<String>, ApplyError>)
    ensures
        match fill_args(vars@, args@.map_values(|s: String| s@)) {
            Ok(filled) => r matches Ok(v) && v@.map_values(|s: String| s@) == filled,
            Err(k) => r matches Err(ApplyError::VarNotFound(m)) && m@ == k,
        },
{
    let ghost items = args@.map_values(|s: String| s@);
    let mut out: Vec<String> = Vec::new();
    let mut i: usize = 0;
    assert(items.subrange(0, 0) =~= Seq::<Seq<char>>::empty());
    assert(out@.map_values(|s: String| s@) =~= Seq::<Seq<char>>::empty());
    while i < args.len()
        invariant
            i <= args.len(),
            items == args@.map_values(|s: String| s@),
            fill_args(vars@, items.subrange(0, i as int)) == Ok::<Seq<Seq<char>>, Seq<char>>(
                out@.map_values(|s: String| s@),
            ),
        decreases args.len() - i,
    {
        proof {
            assert(items.subrange(0, i + 1).drop_last() =~= items.subrange(0, i as int));
            assert(items.subrange(0, i + 1).last() == args@[i as int]@);
        }
        match replace_line2(vars, args[i].as_str()) {
            Ok(a) => {
                let ghost before = out@;
                out.push(a);
                proof {
                    assert(out@.map_values(|s: String| s@) =~= before.map_values(|s: String| s@).push(a@));
                }
            },
            Err(e) => {
                proof { lemma_fill_args_err_extends(vars@, items, i as int + 1); }
                return Err(e);
            },
        }
        i = i + 1;
    }
    assert(items.subrange(0, args.len() as int) =~= items);
    Ok(out)
}

pub proof fn lemma_fill_args_empty(vars: Map<Seq<char>, Seq<char>>)
    ensures
        fill_args(vars, seq![]) == Ok::<Seq<Seq<char>>, Seq<char>>(seq![]),
{
}

proof fn lemma_fill_args_err_extends(vars: Map<Seq<char>, Seq<char>>, args: Seq<Seq<char>>, i: int)
    requires
        0 <= i <= args.len(),
        fill_args(vars, args.subrange(0, i)) is Err,
    ensures
        fill_args(vars, args) == fill_args(vars, args.subrange(0, i)),
    decreases args.len() - i,
{
    if i < args.len() {
        assert(args.subrange(0, i + 1).drop_last() =~= args.subrange(0, i));
        lemma_fill_args_err_extends(vars, args, i + 1);
    } else {
        assert(args.subrange(0, i) =~= args);
    }
}

/// Text of the line that starts at `start`, without its `\n` or `\r\n` terminator.
pub open spec fn line_at(s: Seq<char>, start: int) -> Seq<char> {
    let end = find_char_from(s, '\n', start);
    if end < s.len() && end > start && s[end - 1] == '\r' {
        s.subrange(start, end - 1)
    } else {
        s.subrange(start, end)
    }
}

/// `out` placed before a rendered text; an error passes through.
pub open spec fn after_text(out: Seq<char>, r: Result<Seq<char>, Seq<char>>) -> Result<
    Seq<char>,
    Seq<char>,
> {
    match r {
        Ok(t) => Ok(out + t),
        Err(k) => Err(k),
    }
}

/// The rendering of the lines of `s` from position `start` on: each line with
/// its first token substituted, or unchanged when it has none, each followed
/// by a newline; `Err` with the first key that is not bound.
pub open spec fn render_from(vars: Map<Seq<char>, Seq<char>>, s: Seq<char>, start: int) -> Result<
    Seq<char>,
    Seq<char>,
>
    decreases s.len() - start,
{
    if start < 0 || start >= s.len() {
        Ok(seq![])
    } else {
        let line = line_at(s, start);
        proof {
            lemma_find_char_from_bounds(s, '\n', start);
        }
        let end = find_char_from(s, '\n', start);
        let rest = if end < s.len() {
            render_from(vars, s, end + 1)
        } else {
            Ok(seq![])
        };
        match substitute(vars, line) {
            Some(Err(k)) => Err(k),
            Some(Ok(t)) => after_text(t, rest),
            None => after_text(line + seq!['\n'], rest),
        }
    }
}

/// The rendering of a whole template text.
pub open spec fn rendered(vars: Map<Seq<char>, Seq<char>>, s: Seq<char>) -> Result<Seq<char>, Seq<char>> {
    render_from(vars, s, 0)
}

/// Renders a template text line by line; fails on the first token whose key
/// is not bound, and then returns no text.
pub fn render(vars: &Vars, text: &str) -> (r: Result<String, ApplyError>)
    ensures
        match rendered(vars@, text@) {
            Ok(t) => r matches Ok(s) && s@ == t,
            Err(k) => r matches Err(ApplyError::VarNotFound(m)) && m@ == k,
        },
{
    let n = text.unicode_len();
    let mut out = String::new();
    let mut start: usize = 0;
    proof { reveal_strlit("\n"); }
    while start < n
        invariant
            n == text@.len(),
            start <= n,
            rendered(vars@, text@) == after_text(out@, render_from(vars@, text@, start as int)),
        decreases n - start,
    {
        let end = find_char(text, '\n', start);
        proof { lemma_find_char_from_bounds(text@, '\n', start as int); }
        let mut line_end = end;
        if end < n && end > start && text.get_char(end - 1) == '\r' {
            line_end = end - 1;
        }
        let line = text.substring_char(start, line_end);
        assert(line@ == line_at(text@, start as int));
        let ghost rest = if end < n {
            render_from(vars@, text@, end + 1)
        } else {
            Ok(seq![])
        };
        match replace_line(vars, line) {
            Ok(ChangeString::Changed(t)) => {
                let ghost before = out@;
                out.append(t.as_str());
                proof {
                    match rest {
                        Ok(x) => assert(before + (t@ + x) =~= out@ + x),
                        Err(_) => {},
                    }
                }
            },
            Ok(ChangeString::Unchanged) => {
                let ghost before = out@;
                out.append(line);
                out.append("\n");
                proof {
                    reveal_strlit("\n");
                    assert("\n"@ =~= seq!['\n']);
                    match rest {
                        Ok(x) => assert(before + (line@ + seq!['\n'] + x) =~= out@ + x),
                        Err(_) => {},
                    }
                }
            },
            Err(e) => {
                return Err(e);
            },
        }
        if end < n {
            start = end + 1;
        } else {
            start = n;
        }
    }
    assert(out@ + Seq::<char>::empty() =~= out@);
    Ok(out)
}

/// Characters a key is made of: ASCII letters and digits, `_`, `.` and `-`.
pub open spec fn is_key_char(c: char) -> bool {
    ('a' <= c && c <= 'z') || ('A' <= c && c <= 'Z') || ('0' <= c && c <= '9') || c == '_' || c
        == '.' || c == '-'
}

/// `s` holds no `@@` and does not end in `@`, so that no delimiter can start
/// inside it when a token follows.
pub open spec fn clean_prefix(s: Seq<char>) -> bool {
    &&& forall|i: int| 0 <= i < s.len() - 1 ==> !is_delim_at(s, i)
    &&& s.len() > 0 ==> s.last() != '@'
}

/// The text `prefix @@key@@ suffix`.
pub open spec fn token_line(prefix: Seq<char>, key: Seq<char>, suffix: Seq<char>) -> Seq<char> {
    prefix + seq!['@', '@'] + key + seq!['@', '@'] + suffix
}

proof fn lemma_find_delim_is(s: Seq<char>, from: int, t: int)
    requires
        0 <= from <= t,
        is_delim_at(s, t),
        forall|j: int| from <= j < t ==> !is_delim_at(s, j),
    ensures
        find_delim(s, from) == Some(t),
    decreases t - from,
{
    if from < t {
        lemma_find_delim_is(s, from + 1, t);
    }
}

proof fn lemma_no_char(s: Seq<char>, c: char, from: int)
    requires
        0 <= from <= s.len(),
        forall|j: int| from <= j < s.len() ==> s[j] != c,
    ensures
        find_char_from(s, c, from) == s.len(),
    decreases s.len() - from,
{
    if from < s.len() {
        lemma_no_char(s, c, from + 1);
    }
}

/// A single line (no `\n`) renders as its one substitution result.
proof fn lemma_render_single_line(vars: Map<Seq<char>, Seq<char>>, line: Seq<char>)
    requires
        line.len() > 0,
        forall|j: int| 0 <= j < line.len() ==> line[j] != '\n',
    ensures
        rendered(vars, line) == match substitute(vars, line) {
            Some(Err(k)) => Err(k),
            Some(Ok(t)) => Ok(t),
            None => Ok(line + seq!['\n']),
        },
{
    lemma_no_char(line, '\n', 0);
    assert(line.subrange(0, line.len() as int) =~= line);
    match substitute(vars, line) {
        Some(Ok(t)) => assert(t + Seq::<char>::empty() =~= t),
        None => assert(line + seq!['\n'] + Seq::<char>::empty() =~= line + seq!['\n']),
        _ => {},
    }
}

proof fn lemma_token_span_of_token_line(prefix: Seq<char>, key: Seq<char>, suffix: Seq<char>)
    requires
        clean_prefix(prefix),
        forall|i: int| 0 <= i < key.len() ==> is_key_char(#[trigger] key[i]),
    ensures
        token_span(token_line(prefix, key, suffix)) == Some(
            (prefix.len() as int, prefix.len() + 2 + key.len() as int),
        ),
        token_line(prefix, key, suffix).subrange(prefix.len() + 2 as int, prefix.len() + 2 + key.len() as int)
            == key,
        token_line(prefix, key, suffix).subrange(0, prefix.len() as int) == prefix,
        token_line(prefix, key, suffix).subrange(
            prefix.len() + 4 + key.len() as int,
            token_line(prefix, key, suffix).len() as int,
        ) == suffix,
{
    let l = token_line(prefix, key, suffix);
    let p = prefix.len() as int;
    let k = key.len() as int;
    assert forall|j: int| 0 <= j < p implies !is_delim_at(l, j) by {
        if j < p - 1 {
            assert(l[j] == prefix[j] && l[j + 1] == prefix[j + 1]);
            assert(!is_delim_at(prefix, j));
        } else {
            assert(l[j] == prefix.last());
        }
    }
    assert(l[p] == '@' && l[p + 1] == '@');
    lemma_find_delim_is(l, 0, p);
    assert forall|j: int| p + 2 <= j < p + 2 + k implies !is_delim_at(l, j) by {
        assert(l[j] == key[j - p - 2]);
        assert(is_key_char(key[j - p - 2]));
    }
    assert(l[p + 2 + k] == '@' && l[p + 3 + k] == '@');
    lemma_find_delim_is(l, p + 2, p + 2 + k);
    assert(l.subrange(p + 2, p + 2 + k) =~= key);
    assert(l.subrange(0, p) =~= prefix);
    assert(l.subrange(p + 4 + k, l.len() as int) =~= suffix);
}

/// A line holding one well-formed token whose key is bound renders as the
/// text before the token, the key's value, the text after the token and a
/// newline. (A prefix that ends in `@` would make the first `@@` start one
/// place earlier, so it is left out.)
pub proof fn law_bound_token_is_spliced(
    vars: Map<Seq<char>, Seq<char>>,
    prefix: Seq<char>,
    key: Seq<char>,
    suffix: Seq<char>,
)
    requires
        vars.contains_key(key),
        clean_prefix(prefix),
        forall|i: int| 0 <= i < key.len() ==> is_key_char(#[trigger] key[i]),
        forall|j: int| 0 <= j < prefix.len() ==> prefix[j] != '\n',
        forall|j: int| 0 <= j < suffix.len() ==> suffix[j] != '\n',
    ensures
        rendered(vars, token_line(prefix, key, suffix)) == Ok::<Seq<char>, Seq<char>>(
            prefix + vars[key] + suffix + seq!['\n'],
        ),
{
    let l = token_line(prefix, key, suffix);
    lemma_token_span_of_token_line(prefix, key, suffix);
    lemma_token_line_single(prefix, key, suffix);
    lemma_render_single_line(vars, l);
}

/// A line holding a well-formed token whose key is not bound fails to render,
/// naming that key, and yields no text.
pub proof fn law_unbound_token_fails(
    vars: Map<Seq<char>, Seq<char>>,
    prefix: Seq<char>,
    key: Seq<char>,
    suffix: Seq<char>,
)
    requires
        !vars.contains_key(key),
        clean_prefix(prefix),
        forall|i: int| 0 <= i < key.len() ==> is_key_char(#[trigger] key[i]),
        forall|j: int| 0 <= j < prefix.len() ==> prefix[j] != '\n',
        forall|j: int| 0 <= j < suffix.len() ==> suffix[j] != '\n',
    ensures
        rendered(vars, token_line(prefix, key, suffix)) == Err::<Seq<char>, Seq<char>>(key),
{
    let l = token_line(prefix, key, suffix);
    lemma_token_span_of_token_line(prefix, key, suffix);
    lemma_token_line_single(prefix, key, suffix);
    lemma_render_single_line(vars, l);
}

proof fn lemma_token_line_single(prefix: Seq<char>, key: Seq<char>, suffix: Seq<char>)
    requires
        forall|i: int| 0 <= i < key.len() ==> is_key_char(#[trigger] key[i]),
        forall|j: int| 0 <= j < prefix.len() ==> prefix[j] != '\n',
        forall|j: int| 0 <= j < suffix.len() ==> suffix[j] != '\n',
    ensures
        token_line(prefix, key, suffix).len() > 0,
        forall|j: int|
            0 <= j < token_line(prefix, key, suffix).len() ==> token_line(prefix, key, suffix)[j]
                != '\n',
{
    let l = token_line(prefix, key, suffix);
    let p = prefix.len() as int;
    let k = key.len() as int;
    assert forall|j: int| 0 <= j < l.len() implies l[j] != '\n' by {
        if j < p {
            assert(l[j] == prefix[j]);
        } else if p + 2 <= j < p + 2 + k {
            assert(l[j] == key[j - p - 2]);
            assert(is_key_char(key[j - p - 2]));
        } else if j >= p + 4 + k {
            assert(l[j] == suffix[j - p - 4 - k]);
        }
    }
}

/// A non-empty line without a newline and without any `@@...@@` pair renders
/// as itself followed by a newline.
pub proof fn law_plain_line_unchanged(vars: Map<Seq<char>, Seq<char>>, line: Seq<char>)
    requires
        line.len() > 0,
        forall|j: int| 0 <= j < line.len() ==> line[j] != '\n',
        forall|i: int, j: int|
            0 <= i && i + 2 <= j ==> !(is_delim_at(line, i) && is_delim_at(line, j)),
    ensures
        rendered(vars, line) == Ok::<Seq<char>, Seq<char>>(line + seq!['\n']),
{
    lemma_find_delim_bounds(line, 0);
    match find_delim(line, 0) {
        Some(open) => lemma_find_delim_bounds(line, open + 2),
        None => {},
    }
    lemma_render_single_line(vars, line);
}

} // verus!
