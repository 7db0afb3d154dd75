use vstd::prelude::*;

verus! {

/// The router's native marker for "one or more remaining segments".
pub open spec fn rest_marker() -> Seq<char> {
    seq!['{', '*', '*', 'r', 'e', 's', 't', '}']
}

/// A template is made absolute by prefixing one separator when it lacks one.
pub open spec fn with_leading_slash(t: Seq<char>) -> Seq<char> {
    if t.len() > 0 && t[0] == '/' {
        t
    } else {
        seq!['/'] + t
    }
}

/// One step of the placeholder scanner. States: 0 outside a placeholder,
/// 1 just after `{`, 2 inside a placeholder name. `None` is a malformed template.
pub open spec fn brace_step(st: int, c: char) -> Option<int> {
    if c == '{' {
        if st == 0 { Some(1) } else { None }
    } else if c == '}' {
        if st == 2 { Some(0) } else { None }
    } else if c == '/' {
        if st == 0 { Some(0) } else { None }
    } else if st == 0 {
        Some(0)
    } else {
        Some(2)
    }
}

/// The scanner's state after reading `p` from state `st`.
pub open spec fn brace_run(st: int, p: Seq<char>) -> Option<int>
    decreases p.len(),
{
    if p.len() == 0 {
        Some(st)
    } else {
        match brace_run(st, p.drop_last()) {
            Some(s) => brace_step(s, p.last()),
            None => None,
        }
    }
}

/// Every `{` is closed by a `}` in the same segment, around a non-empty name,
/// with no nesting and no stray `}`.
pub open spec fn placeholders_balanced(p: Seq<char>) -> bool {
    brace_run(0, p) == Some(0int)
}

/// Whether the last segment of `p` is the bare wildcard `**`.
pub open spec fn ends_with_wildcard(p: Seq<char>) -> bool {
    p.len() >= 3 && p[p.len() - 3] == '/' && p[p.len() - 2] == '*' && p[p.len() - 1] == '*'
}

/// A trailing `**` segment becomes the router's remaining-segments marker.
pub open spec fn expand_wildcard(p: Seq<char>) -> Seq<char> {
    if ends_with_wildcard(p) {
        p.subrange(0, p.len() - 2) + rest_marker()
    } else {
        p
    }
}

/// The normalized form of a route template, or `None` when it is malformed.
pub open spec fn normalized_template(t: Seq<char>) -> Option<Seq<char>> {
    let q = with_leading_slash(t);
    if placeholders_balanced(q) {
        Some(expand_wildcard(q))
    } else {
        None
    }
}

/// The template holds no placeholder delimiter.
pub open spec fn no_braces(s: Seq<char>) -> bool {
    forall|i: int| 0 <= i < s.len() ==> s[i] != '{' && s[i] != '}'
}

/// Reading text without delimiters from outside a placeholder stays outside.
proof fn lemma_brace_free_run(p: Seq<char>)
    requires
        no_braces(p),
    ensures
        brace_run(0, p) == Some(0int),
    decreases p.len(),
{
    if p.len() > 0 {
        let d = p.drop_last();
        assert(no_braces(d)) by {
            assert forall|i: int| 0 <= i < d.len() implies d[i] != '{' && d[i] != '}' by {
                assert(d[i] == p[i]);
            }
        }
        lemma_brace_free_run(d);
        assert(p[p.len() - 1] != '{' && p[p.len() - 1] != '}');
    }
}

/// Reading a placeholder name from just after `{` ends inside the placeholder.
proof fn lemma_name_run(name: Seq<char>)
    requires
        name.len() > 0,
        no_braces(name),
        forall|i: int| 0 <= i < name.len() ==> name[i] != '/',
    ensures
        brace_run(1, name) == Some(2int),
    decreases name.len(),
{
    let d = name.drop_last();
    assert(name[name.len() - 1] != '{' && name[name.len() - 1] != '}' && name[name.len() - 1]
        != '/');
    if d.len() > 0 {
        assert(no_braces(d)) by {
            assert forall|i: int| 0 <= i < d.len() implies d[i] != '{' && d[i] != '}' by {
                assert(d[i] == name[i]);
            }
        }
        assert forall|i: int| 0 <= i < d.len() implies d[i] != '/' by {
            assert(d[i] == name[i]);
        }
        lemma_name_run(d);
    } else {
        assert(brace_run(1, d) == Some(1int));
    }
}

/// A template without placeholders is well formed.
pub proof fn lemma_plain_template(t: Seq<char>)
    requires
        no_braces(t),
    ensures
        normalized_template(t) is Some,
{
    let q = with_leading_slash(t);
    assert(no_braces(q)) by {
        if !(t.len() > 0 && t[0] == '/') {
            assert forall|i: int| 0 <= i < q.len() implies q[i] != '{' && q[i] != '}' by {
                if i > 0 {
                    assert(q[i] == t[i - 1]);
                }
            }
        }
    }
    lemma_brace_free_run(q);
}

/// A template of the form `/…{name}…` with a single placeholder whose name
/// is non-empty and stays in one segment is well formed.
pub proof fn lemma_one_placeholder_template(t: Seq<char>, open: int, close: int)
    requires
        0 < open < close - 1,
        close < t.len(),
        t[0] == '/',
        t[open] == '{',
        t[close] == '}',
        no_braces(t.subrange(0, open)),
        no_braces(t.subrange(open + 1, close)),
        forall|i: int| open < i < close ==> t[i] != '/',
        no_braces(t.subrange(close + 1, t.len() as int)),
    ensures
        normalized_template(t) is Some,
{
    let a = t.subrange(0, open);
    let name = t.subrange(open + 1, close);
    let c = t.subrange(close + 1, t.len() as int);
    assert(with_leading_slash(t) == t);
    assert(t =~= a + (seq!['{'] + (name + (seq!['}'] + c))));
    lemma_brace_free_run(a);
    lemma_brace_run_concat(0, a, seq!['{'] + (name + (seq!['}'] + c)));
    reveal_with_fuel(brace_run, 2);
    assert(seq!['{'].drop_last() =~= Seq::<char>::empty());
    assert(seq!['{'].last() == '{');
    assert(brace_run(0, seq!['{']) == Some(1int));
    lemma_brace_run_concat(0, seq!['{'], name + (seq!['}'] + c));
    assert forall|i: int| 0 <= i < name.len() implies name[i] != '/' by {
        assert(name[i] == t[open + 1 + i]);
    }
    lemma_name_run(name);
    lemma_brace_run_concat(1, name, seq!['}'] + c);
    assert(seq!['}'].drop_last() =~= Seq::<char>::empty());
    assert(seq!['}'].last() == '}');
    assert(brace_run(2, seq!['}']) == Some(0int));
    lemma_brace_run_concat(2, seq!['}'], c);
    lemma_brace_free_run(c);
}

/// A route template that could not be compiled.
#[derive(Clone, Debug, PartialEq, Eq)]
pub enum RouteError {
    /// The template has an unmatched, nested or empty placeholder.
    MalformedTemplate(String),
}

proof fn lemma_brace_run_concat(st: int, a: Seq<char>, b: Seq<char>)
    ensures
        brace_run(st, a + b) == (match brace_run(st, a) {
            Some(s) => brace_run(s, b),
            None => None,
        }),
    decreases b.len(),
{
    if b.len() == 0 {
        assert(a + b =~= a);
    } else {
        assert((a + b).drop_last() =~= a + b.drop_last());
        assert((a + b).last() == b.last());
        lemma_brace_run_concat(st, a, b.drop_last());
    }
}

proof fn lemma_rest_marker_balanced()
    ensures
        brace_run(0, rest_marker()) == Some(0int),
{
    let m = rest_marker();
    reveal_with_fuel(brace_run, 9);
    assert(m.drop_last() =~= seq!['{', '*', '*', 'r', 'e', 's', 't']);
    assert(m.drop_last().drop_last() =~= seq!['{', '*', '*', 'r', 'e', 's']);
    assert(m.drop_last().drop_last().drop_last() =~= seq!['{', '*', '*', 'r', 'e']);
    assert(m.drop_last().drop_last().drop_last().drop_last() =~= seq!['{', '*', '*', 'r']);
    assert(m.drop_last().drop_last().drop_last().drop_last().drop_last() =~= seq![
        '{',
        '*',
        '*',
    ]);
    assert(m.drop_last().drop_last().drop_last().drop_last().drop_last().drop_last()
        =~= seq!['{', '*']);
    assert(m.drop_last().drop_last().drop_last().drop_last().drop_last().drop_last().drop_last()
        =~= seq!['{']);
    assert(seq!['{'].drop_last() =~= Seq::<char>::empty());
}

/// A prefix that ends in a separator leaves the scanner outside any placeholder.
proof fn lemma_slash_closes(p: Seq<char>, k: int)
    requires
        0 <= k < p.len(),
        p[k] == '/',
        brace_run(0, p.subrange(0, k + 1)) is Some,
    ensures
        brace_run(0, p.subrange(0, k + 1)) == Some(0int),
{
    assert(p.subrange(0, k + 1).drop_last() =~= p.subrange(0, k));
}

/// Normalizing an already normalized template gives it back unchanged.
pub proof fn lemma_normalize_idempotent(t: Seq<char>)
    requires
        normalized_template(t) is Some,
    ensures
        normalized_template(normalized_template(t)->Some_0) == normalized_template(t),
{
    let q = with_leading_slash(t);
    let u = expand_wildcard(q);
    assert(q.len() > 0 && q[0] == '/');
    if ends_with_wildcard(q) {
        let n = q.len();
        let pre = q.subrange(0, n - 2);
        assert(q =~= pre + seq!['*', '*']);
        lemma_brace_run_concat(0, pre, seq!['*', '*']);
        lemma_slash_closes(q, n - 3);
        assert(q.subrange(0, n - 2) =~= pre);
        lemma_brace_run_concat(0, pre, rest_marker());
        lemma_rest_marker_balanced();
        assert(u[0] == '/');
        assert(u[u.len() - 1] == '}');
    }
    assert(with_leading_slash(u) == u);
    assert(!ends_with_wildcard(u));
    assert(expand_wildcard(u) == u);
}

/// Normalizes a route template: one leading separator, placeholders checked
/// to be well formed (`{name}` is already the router's native syntax), and a
/// trailing `**` segment rewritten to `{**rest}`.
pub fn normalize_path(path: &str) -> (r: Result<String, RouteError>)
    ensures
        match r {
            Ok(s) => normalized_template(path@) == Some(s@),
            Err(RouteError::MalformedTemplate(t)) => normalized_template(path@) is None && t@
                == path@,
        },
{
    let n = path.unicode_len();
    let q: String = if n > 0 && path.get_char(0) == '/' {
        path.to_owned()
    } else {
        let mut s = "/".to_owned();
        proof {
            reveal_strlit("/");
        }
        s.append(path);
        s
    };
    assert(q@ == with_leading_slash(path@));
    let qs = q.as_str();
    let m = qs.unicode_len();
    let mut st: u8 = 0;
    let mut i: usize = 0;
    while i < m
        invariant
            m == qs@.len(),
            qs@ == q@,
            q@ == with_leading_slash(path@),
            i <= m,
            brace_run(0, qs@.subrange(0, i as int)) == Some(st as int),
            st <= 2,
        decreases m - i,
    {
        let c = qs.get_char(i);
        assert(qs@.subrange(0, i + 1).drop_last() =~= qs@.subrange(0, i as int));
        assert(qs@.subrange(0, i + 1).last() == c);
        assert(brace_run(0, qs@.subrange(0, i + 1)) == brace_step(st as int, c));
        if c == '{' {
            if st != 0 {
                proof { lemma_failure_persists(qs@, i as int + 1); }
                return Err(RouteError::MalformedTemplate(path.to_owned()));
            }
            st = 1;
        } else if c == '}' {
            if st != 2 {
                proof { lemma_failure_persists(qs@, i as int + 1); }
                return Err(RouteError::MalformedTemplate(path.to_owned()));
            }
            st = 0;
        } else if c == '/' {
            if st != 0 {
                proof { lemma_failure_persists(qs@, i as int + 1); }
                return Err(RouteError::MalformedTemplate(path.to_owned()));
            }
        } else if st != 0 {
            st = 2;
        }
        i = i + 1;
    }
    assert(qs@.subrange(0, m as int) =~= qs@);
    if st != 0 {
        return Err(RouteError::MalformedTemplate(path.to_owned()));
    }
    if m >= 3 && qs.get_char(m - 3) == '/' && qs.get_char(m - 2) == '*' && qs.get_char(m - 1)
        == '*' {
        let mut out = qs.substring_char(0, m - 2).to_owned();
        proof {
            reveal_strlit("{**rest}");
        }
        out.append("{**rest}");
        assert(out@ =~= expand_wildcard(q@));
        Ok(out)
    } else {
        Ok(q)
    }
}

/// Once the scanner fails on a prefix, it fails on the whole template.
proof fn lemma_failure_persists(p: Seq<char>, k: int)
    requires
        0 <= k <= p.len(),
        brace_run(0, p.subrange(0, k)) is None,
    ensures
        brace_run(0, p) is None,
{
    assert(p =~= p.subrange(0, k) + p.subrange(k, p.len() as int));
    lemma_brace_run_concat(0, p.subrange(0, k), p.subrange(k, p.len() as int));
}

} // verus!
