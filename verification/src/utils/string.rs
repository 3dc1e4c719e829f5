//! Template substitution: `${{NAME}}` markers resolve against the
//! environment, then `{{name}}` markers against the variable store.

use crate::engine::variables::Variables;
use crate::text::{chars_of, find_char, index_of, piece};
use vstd::prelude::*;

verus! {

/// A marker found in a text.
pub struct Marker {
    /// The name between the braces.
    pub name: Seq<char>,
    /// The index just behind the closing braces.
    pub end: int,
}

/// The `{{name}}` marker that starts at index `i` of `s`: two opening
/// braces, a name of at least one character none of which is `}`, and two
/// closing braces.
pub open spec fn marker_at(s: Seq<char>, i: int) -> Option<Marker> {
    if 0 <= i && i + 2 <= s.len() && s[i] == '{' && s[i + 1] == '{' {
        let j = i + 2 + index_of(s.subrange(i + 2, s.len() as int), '}');
        if i + 2 < j && j + 1 < s.len() && s[j] == '}' && s[j + 1] == '}' {
            Some(Marker { name: s.subrange(i + 2, j), end: j + 2 })
        } else {
            None
        }
    } else {
        None
    }
}

/// The marker of one pass that starts at index `i` of `s`: `${{NAME}}` in
/// the environment pass, `{{name}}` in the store pass.
pub open spec fn pass_marker(s: Seq<char>, i: int, env_pass: bool) -> Option<Marker> {
    if !env_pass {
        marker_at(s, i)
    } else if 0 <= i < s.len() && s[i] == '$' {
        marker_at(s, i + 1)
    } else {
        None
    }
}

/// One pass over `s` from index `from` on: from left to right, every
/// marker whose name `values` binds gives way to the bound value, and
/// everything else stays. What was put in is not read again.
pub open spec fn resolved(
    s: Seq<char>,
    values: Map<Seq<char>, Seq<char>>,
    env_pass: bool,
    from: int,
) -> Seq<char>
    decreases s.len() - from,
{
    if from < 0 || from >= s.len() {
        Seq::empty()
    } else {
        match pass_marker(s, from, env_pass) {
            Some(m) => if from < m.end <= s.len() {
                (if values.contains_key(m.name) {
                    values[m.name]
                } else {
                    s.subrange(from, m.end)
                }) + resolved(s, values, env_pass, m.end)
            } else {
                Seq::empty()
            },
            None => seq![s[from]] + resolved(s, values, env_pass, from + 1),
        }
    }
}

/// `s` after both passes: the environment first, then the store.
pub open spec fn substituted(
    s: Seq<char>,
    env: Map<Seq<char>, Seq<char>>,
    vars: Map<Seq<char>, Seq<char>>,
) -> Seq<char> {
    resolved(resolved(s, env, true, 0), vars, false, 0)
}

/// Whether no marker of the pass in `s` names something that `values`
/// binds.
pub open spec fn unresolved(s: Seq<char>, values: Map<Seq<char>, Seq<char>>, env_pass: bool) -> bool {
    forall|i: int| #[trigger]
        pass_marker(s, i, env_pass) matches Some(m) ==> !values.contains_key(m.name)
}

/// Whether `s` holds no marker at all.
pub open spec fn has_no_marker(s: Seq<char>) -> bool {
    forall|i: int| #[trigger] marker_at(s, i) is None
}

/// The text of the marker that names `name`.
pub open spec fn marker_text(name: Seq<char>) -> Seq<char> {
    seq!['{', '{'] + name + seq!['}', '}']
}

/// A pass in which no marker resolves leaves the text as it is.
pub proof fn lemma_unresolved_pass(
    s: Seq<char>,
    values: Map<Seq<char>, Seq<char>>,
    env_pass: bool,
    from: int,
)
    requires
        unresolved(s, values, env_pass),
        0 <= from <= s.len(),
    ensures
        resolved(s, values, env_pass, from) == s.subrange(from, s.len() as int),
    decreases s.len() - from,
{
    if from < s.len() {
        match pass_marker(s, from, env_pass) {
            Some(m) => {
                lemma_unresolved_pass(s, values, env_pass, m.end);
                assert(s.subrange(from, m.end) + s.subrange(m.end, s.len() as int) =~= s.subrange(
                    from,
                    s.len() as int,
                ));
            },
            None => {
                lemma_unresolved_pass(s, values, env_pass, from + 1);
                assert(seq![s[from]] + s.subrange(from + 1, s.len() as int) =~= s.subrange(
                    from,
                    s.len() as int,
                ));
            },
        }
    } else {
        assert(s.subrange(from, s.len() as int) =~= Seq::<char>::empty());
    }
}

/// Substitution changes nothing in a text whose markers all name things
/// that are not bound: environment markers in the environment, store
/// markers in the store.
pub proof fn lemma_unbound_markers_stay(
    s: Seq<char>,
    env: Map<Seq<char>, Seq<char>>,
    vars: Map<Seq<char>, Seq<char>>,
)
    requires
        unresolved(s, env, true),
        unresolved(s, vars, false),
    ensures
        substituted(s, env, vars) == s,
{
    lemma_unresolved_pass(s, env, true, 0);
    assert(s.subrange(0, s.len() as int) =~= s);
    lemma_unresolved_pass(s, vars, false, 0);
}

/// Substitution is the identity on a text without markers.
pub proof fn lemma_no_marker_identity(
    s: Seq<char>,
    env: Map<Seq<char>, Seq<char>>,
    vars: Map<Seq<char>, Seq<char>>,
)
    requires
        has_no_marker(s),
    ensures
        substituted(s, env, vars) == s,
{
    assert forall|i: int| #[trigger]
        pass_marker(s, i, true) matches Some(m) ==> !env.contains_key(m.name) by {
        assert(marker_at(s, i + 1) is None);
    }
    assert forall|i: int| #[trigger]
        pass_marker(s, i, false) matches Some(m) ==> !vars.contains_key(m.name) by {
        assert(marker_at(s, i) is None);
    }
    lemma_unbound_markers_stay(s, env, vars);
}

/// The first `c` in a text that holds none before index `k` and one at
/// `k` is at `k`.
proof fn lemma_index_of_first(a: Seq<char>, c: char, k: int)
    requires
        0 <= k < a.len(),
        a[k] == c,
        forall|j: int| 0 <= j < k ==> a[j] != c,
    ensures
        index_of(a, c) == k,
    decreases k,
{
    if k > 0 {
        lemma_index_of_first(a.drop_first(), c, k - 1);
    }
}

/// The store pass leaves a marker as it is where the store does not bind
/// its name.
pub proof fn lemma_unbound_marker_stays(name: Seq<char>, vars: Map<Seq<char>, Seq<char>>)
    requires
        name.len() > 0,
        forall|k: int| 0 <= k < name.len() ==> name[k] != '}',
        !vars.contains_key(name),
    ensures
        resolved(marker_text(name), vars, false, 0) == marker_text(name),
{
    let s = marker_text(name);
    let rest = s.subrange(2, s.len() as int);
    assert(rest[name.len() as int] == '}');
    assert forall|j: int| 0 <= j < name.len() implies rest[j] != '}' by {
        assert(rest[j] == name[j]);
    }
    lemma_index_of_first(rest, '}', name.len() as int);
    assert(s.subrange(2, 2 + name.len() as int) =~= name);
    let m = marker_at(s, 0);
    assert(m == Some(Marker { name: name, end: s.len() as int }));
    assert(resolved(s, vars, false, s.len() as int) =~= Seq::<char>::empty());
    assert(s.subrange(0, s.len() as int) + Seq::<char>::empty() =~= s);
}

/// Substitution leaves a marker as it is where the store does not bind
/// its name and the environment pass finds nothing to resolve in it.
pub proof fn lemma_unbound_marker_unchanged(
    name: Seq<char>,
    env: Map<Seq<char>, Seq<char>>,
    vars: Map<Seq<char>, Seq<char>>,
)
    requires
        name.len() > 0,
        forall|k: int| 0 <= k < name.len() ==> name[k] != '}',
        !vars.contains_key(name),
        unresolved(marker_text(name), env, true),
    ensures
        substituted(marker_text(name), env, vars) == marker_text(name),
{
    let s = marker_text(name);
    lemma_unresolved_pass(s, env, true, 0);
    assert(s.subrange(0, s.len() as int) =~= s);
    lemma_unbound_marker_stays(name, vars);
}

/// The bounds of the name of the marker of one pass that starts at index
/// `i`, where there is one.
fn find_marker(v: &Vec<char>, i: usize, env_pass: bool) -> (r: Option<(usize, usize)>)
    requires
        i < v.len(),
    ensures
        match r {
            Some((a, j)) => i < a < j && j + 2 <= v.len() && pass_marker(v@, i as int, env_pass)
                == Some(Marker { name: v@.subrange(a as int, j as int), end: j + 2 }),
            None => pass_marker(v@, i as int, env_pass) is None,
        },
{
    let n: usize = v.len();
    let open: usize = if env_pass {
        if v[i] != '$' {
            return None;
        }
        i + 1
    } else {
        i
    };
    if n - open < 2 || v[open] != '{' || v[open + 1] != '{' {
        return None;
    }
    let a: usize = open + 2;
    let j: usize = find_char(v, a, n, '}');
    if a < j && n - j >= 2 && v[j + 1] == '}' {
        Some((a, j))
    } else {
        None
    }
}

/// One pass over `input`.
fn resolve(input: &str, values: &Variables, env_pass: bool) -> (r: String)
    ensures
        r@ == resolved(input@, values@, env_pass, 0),
{
    let v = chars_of(input);
    let n: usize = v.len();
    let mut out = String::new();
    let mut kept: usize = 0;
    let mut i: usize = 0;
    while i < n
        invariant
            v@ == input@,
            n == v.len(),
            kept <= i <= n,
            out@ + v@.subrange(kept as int, i as int) + resolved(v@, values@, env_pass, i as int)
                == resolved(v@, values@, env_pass, 0),
        decreases n - i,
    {
        let ghost before = out@ + v@.subrange(kept as int, i as int);
        match find_marker(&v, i, env_pass) {
            Some((a, j)) => {
                let name = piece(input, a, j);
                match values.get(name.as_str()) {
                    Some(value) => {
                        let literal = piece(input, kept, i);
                        out.append(literal.as_str());
                        out.append(value.as_str());
                        kept = j + 2;
                        proof {
                            assert(v@.subrange(kept as int, kept as int) =~= Seq::<char>::empty());
                            assert(out@ + v@.subrange(kept as int, kept as int) =~= before
                                + values@[name@]);
                            assert(before + (values@[name@] + resolved(
                                v@,
                                values@,
                                env_pass,
                                j + 2,
                            )) =~= before + values@[name@] + resolved(
                                v@,
                                values@,
                                env_pass,
                                j + 2,
                            ));
                        }
                    },
                    None => {
                        proof {
                            assert(before + v@.subrange(i as int, j + 2) =~= out@ + v@.subrange(
                                kept as int,
                                j + 2,
                            ));
                            assert(before + (v@.subrange(i as int, j + 2) + resolved(
                                v@,
                                values@,
                                env_pass,
                                j + 2,
                            )) =~= before + v@.subrange(i as int, j + 2) + resolved(
                                v@,
                                values@,
                                env_pass,
                                j + 2,
                            ));
                        }
                    },
                }
                i = j + 2;
            },
            None => {
                proof {
                    assert(before + seq![v@[i as int]] =~= out@ + v@.subrange(
                        kept as int,
                        i + 1,
                    ));
                    assert(before + (seq![v@[i as int]] + resolved(v@, values@, env_pass, i + 1))
                        =~= before + seq![v@[i as int]] + resolved(v@, values@, env_pass, i + 1));
                }
                i += 1;
            },
        }
    }
    let literal = piece(input, kept, n);
    out.append(literal.as_str());
    proof {
        assert(resolved(v@, values@, env_pass, n as int) =~= Seq::<char>::empty());
    }
    out
}

/// Replaces the markers of `input`: first every `${{NAME}}` whose name
/// `env` binds, then every `{{name}}` whose name `vars` binds. A marker
/// whose name is not bound stays as it is.
pub fn replace_variables(input: &str, env: &Variables, vars: &Variables) -> (r: String)
    ensures
        r@ == substituted(input@, env@, vars@),
{
    let first = resolve(input, env, true);
    resolve(first.as_str(), vars, false)
}

/// Each of `items` after substitution.
pub open spec fn substituted_all(
    items: Seq<Seq<char>>,
    env: Map<Seq<char>, Seq<char>>,
    vars: Map<Seq<char>, Seq<char>>,
) -> Seq<Seq<char>> {
    Seq::new(items.len(), |i: int| substituted(items[i], env, vars))
}

/// Each pair of `items` with its second part after substitution.
pub open spec fn substituted_values(
    items: Seq<(Seq<char>, Seq<char>)>,
    env: Map<Seq<char>, Seq<char>>,
    vars: Map<Seq<char>, Seq<char>>,
) -> Seq<(Seq<char>, Seq<char>)> {
    Seq::new(items.len(), |i: int| (items[i].0, substituted(items[i].1, env, vars)))
}

/// The pairs of a list that may be left out.
pub open spec fn optional_pairs(list: Option<Vec<(String, String)>>) -> Seq<(Seq<char>, Seq<char>)> {
    match list {
        Some(l) => crate::text::pairs(l@),
        None => Seq::empty(),
    }
}

/// Substitutes variables into each of `items`.
pub fn substitute_all(items: &Vec<String>, env: &Variables, vars: &Variables) -> (r: Vec<String>)
    ensures
        crate::text::texts(r@) == substituted_all(crate::text::texts(items@), env@, vars@),
{
    let mut out: Vec<String> = Vec::new();
    let n: usize = items.len();
    let mut i: usize = 0;
    let ghost all = substituted_all(crate::text::texts(items@), env@, vars@);
    assert(crate::text::texts(out@) =~= all.take(0));
    while i < n
        invariant
            n == items.len(),
            i <= n,
            all == substituted_all(crate::text::texts(items@), env@, vars@),
            crate::text::texts(out@) == all.take(i as int),
        decreases n - i,
    {
        let ghost held = crate::text::texts(out@);
        let item = replace_variables(items[i].as_str(), env, vars);
        out.push(item);
        assert(crate::text::texts(out@) =~= held.push(item@));
        assert(crate::text::texts(out@) =~= all.take(i + 1));
        i += 1;
    }
    assert(all.take(n as int) =~= all);
    out
}

/// Substitutes variables into the second part of each pair.
pub fn substitute_values(items: &Option<Vec<(String, String)>>, env: &Variables, vars: &Variables) -> (r:
    Vec<(String, String)>)
    ensures
        crate::text::pairs(r@) == substituted_values(optional_pairs(*items), env@, vars@),
{
    let mut out: Vec<(String, String)> = Vec::new();
    let ghost all = substituted_values(optional_pairs(*items), env@, vars@);
    match items {
        Some(given) => {
            let n: usize = given.len();
            let mut i: usize = 0;
            assert(crate::text::pairs(out@) =~= all.take(0));
            while i < n
                invariant
                    n == given.len(),
                    i <= n,
                    *items == Some(*given),
                    all == substituted_values(optional_pairs(*items), env@, vars@),
                    crate::text::pairs(out@) == all.take(i as int),
                decreases n - i,
            {
                let ghost held = crate::text::pairs(out@);
                let value = replace_variables(given[i].1.as_str(), env, vars);
                let key = given[i].0.clone();
                out.push((key, value));
                assert(crate::text::pairs(out@) =~= held.push((key@, value@)));
                assert(crate::text::pairs(out@) =~= all.take(i + 1));
                i += 1;
            }
            assert(all.take(n as int) =~= all);
        },
        None => {
            assert(crate::text::pairs(out@) =~= all);
        },
    }
    out
}

/// What one character becomes inside a JSON string.
pub open spec fn escaped_char(c: char) -> Seq<char> {
    if c == '\\' {
        seq!['\\', '\\']
    } else if c == '"' {
        seq!['\\', '"']
    } else if c == '\n' {
        seq!['\\', 'n']
    } else if c == '\r' {
        seq!['\\', 'r']
    } else if c == '\t' {
        seq!['\\', 't']
    } else {
        seq![c]
    }
}

/// `s` with backslash, double quote, line feed, carriage return and tab
/// escaped as inside a JSON string.
pub open spec fn escaped(s: Seq<char>) -> Seq<char>
    decreases s.len(),
{
    if s.len() == 0 {
        Seq::empty()
    } else {
        escaped(s.drop_last()) + escaped_char(s.last())
    }
}

/// Escapes `input` for use inside a JSON string.
pub fn escape_json_string(input: &str) -> (r: String)
    ensures
        r@ == escaped(input@),
{
    let v = chars_of(input);
    let n: usize = v.len();
    let mut out = String::new();
    let mut i: usize = 0;
    while i < n
        invariant
            v@ == input@,
            n == v.len(),
            i <= n,
            out@ == escaped(v@.take(i as int)),
        decreases n - i,
    {
        let c: char = v[i];
        proof {
            reveal_strlit("\\\\");
            reveal_strlit("\\\"");
            reveal_strlit("\\n");
            reveal_strlit("\\r");
            reveal_strlit("\\t");
            assert(v@.take(i + 1).drop_last() =~= v@.take(i as int));
        }
        if c == '\\' {
            out.append("\\\\");
            assert("\\\\"@ =~= escaped_char(c));
        } else if c == '"' {
            out.append("\\\"");
            assert("\\\""@ =~= escaped_char(c));
        } else if c == '\n' {
            out.append("\\n");
            assert("\\n"@ =~= escaped_char(c));
        } else if c == '\r' {
            out.append("\\r");
            assert("\\r"@ =~= escaped_char(c));
        } else if c == '\t' {
            out.append("\\t");
            assert("\\t"@ =~= escaped_char(c));
        } else {
            let one = piece(input, i, i + 1);
            out.append(one.as_str());
            assert(one@ =~= escaped_char(c));
        }
        i += 1;
    }
    assert(v@.take(n as int) =~= v@);
    out
}

/// The path of the file marker that starts at index `i` of `s`: a marker
/// whose name is `file:` followed by at least one character.
pub open spec fn file_marker_at(s: Seq<char>, i: int) -> Option<Marker> {
    match marker_at(s, i) {
        Some(m) => if m.name.len() > 5 && m.name.subrange(0, 5) == seq!['f', 'i', 'l', 'e', ':'] {
            Some(Marker { name: m.name.subrange(5, m.name.len() as int), end: m.end })
        } else {
            None
        },
        None => None,
    }
}

/// Whether the file marker for `path` gives way to the text of a file:
/// the path does not hold `..`, and `files` has the file.
pub open spec fn includes(files: Map<Seq<char>, Seq<char>>, path: Seq<char>) -> bool {
    files.contains_key(path) && !crate::text::contains(path, seq!['.', '.'])
}

/// The file pass over `s` from index `from` on: from left to right,
/// every file marker whose file is included gives way to the escaped
/// text of the file, and everything else stays.
pub open spec fn with_files(s: Seq<char>, files: Map<Seq<char>, Seq<char>>, from: int) -> Seq<char>
    decreases s.len() - from,
{
    if from < 0 || from >= s.len() {
        Seq::empty()
    } else {
        match file_marker_at(s, from) {
            Some(m) => if from < m.end <= s.len() {
                (if includes(files, m.name) {
                    escaped(files[m.name])
                } else {
                    s.subrange(from, m.end)
                }) + with_files(s, files, m.end)
            } else {
                Seq::empty()
            },
            None => seq![s[from]] + with_files(s, files, from + 1),
        }
    }
}

/// The paths that the file markers of `s` name from index `from` on, in
/// order.
pub open spec fn referenced(s: Seq<char>, from: int) -> Seq<Seq<char>>
    decreases s.len() - from,
{
    if from < 0 || from >= s.len() {
        Seq::empty()
    } else {
        match file_marker_at(s, from) {
            Some(m) => if from < m.end <= s.len() {
                seq![m.name] + referenced(s, m.end)
            } else {
                Seq::empty()
            },
            None => referenced(s, from + 1),
        }
    }
}

/// The bounds of the path of the file marker that starts at index `i`,
/// where there is one.
fn find_file_marker(v: &Vec<char>, i: usize) -> (r: Option<(usize, usize)>)
    requires
        i < v.len(),
    ensures
        match r {
            Some((a, j)) => i < a < j && j + 2 <= v.len() && file_marker_at(v@, i as int) == Some(
                Marker { name: v@.subrange(a as int, j as int), end: j + 2 },
            ),
            None => file_marker_at(v@, i as int) is None,
        },
{
    match find_marker(v, i, false) {
        Some((a, j)) => {
            let prefix: Vec<char> = vec!['f', 'i', 'l', 'e', ':'];
            assert(prefix@ =~= seq!['f', 'i', 'l', 'e', ':']);
            let ghost name = v@.subrange(a as int, j as int);
            if j - a > 5 && crate::text::range_equals(v, a, a + 5, &prefix) {
                assert(name.subrange(0, 5) =~= v@.subrange(a as int, a + 5));
                assert(name.subrange(5, name.len() as int) =~= v@.subrange(a + 5, j as int));
                Some((a + 5, j))
            } else {
                proof {
                    if j - a > 5 {
                        assert(name.subrange(0, 5) =~= v@.subrange(a as int, a + 5));
                    }
                }
                None
            }
        },
        None => None,
    }
}

/// The paths that the file markers of `input` name, in order.
pub fn file_references(input: &str) -> (r: Vec<String>)
    ensures
        crate::text::texts(r@) == referenced(input@, 0),
{
    let v = chars_of(input);
    let n: usize = v.len();
    let mut out: Vec<String> = Vec::new();
    let mut i: usize = 0;
    assert(crate::text::texts(out@) =~= Seq::<Seq<char>>::empty());
    while i < n
        invariant
            v@ == input@,
            n == v.len(),
            i <= n,
            crate::text::texts(out@) + referenced(v@, i as int) == referenced(v@, 0),
        decreases n - i,
    {
        let ghost held = crate::text::texts(out@);
        match find_file_marker(&v, i) {
            Some((a, j)) => {
                let path = piece(input, a, j);
                out.push(path);
                assert(crate::text::texts(out@) =~= held.push(path@));
                assert(held.push(path@) + referenced(v@, j + 2) =~= held + (seq![path@]
                    + referenced(v@, j + 2)));
                i = j + 2;
            },
            None => {
                i += 1;
            },
        }
    }
    assert(crate::text::texts(out@) + Seq::<Seq<char>>::empty() =~= crate::text::texts(out@));
    out
}

/// The file pass over `input`.
fn include_files(input: &str, files: &Variables) -> (r: String)
    ensures
        r@ == with_files(input@, files@, 0),
{
    let v = chars_of(input);
    let n: usize = v.len();
    let mut out = String::new();
    let mut kept: usize = 0;
    let mut i: usize = 0;
    let dots: Vec<char> = vec!['.', '.'];
    assert(dots@ =~= seq!['.', '.']);
    while i < n
        invariant
            v@ == input@,
            n == v.len(),
            kept <= i <= n,
            dots@ == seq!['.', '.'],
            out@ + v@.subrange(kept as int, i as int) + with_files(v@, files@, i as int)
                == with_files(v@, files@, 0),
        decreases n - i,
    {
        let ghost before = out@ + v@.subrange(kept as int, i as int);
        match find_file_marker(&v, i) {
            Some((a, j)) => {
                let path = piece(input, a, j);
                let path_chars = chars_of(path.as_str());
                let leaves = crate::text::find_text(&path_chars, 0, &dots).is_some();
                let found = if leaves {
                    None
                } else {
                    files.get(path.as_str())
                };
                match found {
                    Some(content) => {
                        let literal = piece(input, kept, i);
                        out.append(literal.as_str());
                        let text = escape_json_string(content.as_str());
                        out.append(text.as_str());
                        kept = j + 2;
                        proof {
                            assert(v@.subrange(kept as int, kept as int) =~= Seq::<char>::empty());
                            assert(out@ + v@.subrange(kept as int, kept as int) =~= before
                                + escaped(files@[path@]));
                            assert(before + (escaped(files@[path@]) + with_files(
                                v@,
                                files@,
                                j + 2,
                            )) =~= before + escaped(files@[path@]) + with_files(
                                v@,
                                files@,
                                j + 2,
                            ));
                        }
                    },
                    None => {
                        proof {
                            assert(before + v@.subrange(i as int, j + 2) =~= out@ + v@.subrange(
                                kept as int,
                                j + 2,
                            ));
                            assert(before + (v@.subrange(i as int, j + 2) + with_files(
                                v@,
                                files@,
                                j + 2,
                            )) =~= before + v@.subrange(i as int, j + 2) + with_files(
                                v@,
                                files@,
                                j + 2,
                            ));
                        }
                    },
                }
                i = j + 2;
            },
            None => {
                proof {
                    assert(before + seq![v@[i as int]] =~= out@ + v@.subrange(
                        kept as int,
                        i + 1,
                    ));
                    assert(before + (seq![v@[i as int]] + with_files(v@, files@, i + 1)) =~= before
                        + seq![v@[i as int]] + with_files(v@, files@, i + 1));
                }
                i += 1;
            },
        }
    }
    let literal = piece(input, kept, n);
    out.append(literal.as_str());
    proof {
        assert(with_files(v@, files@, n as int) =~= Seq::<char>::empty());
    }
    out
}

/// Replaces the file markers of `input`, then its other markers.
///
/// A marker `{{file:path}}` gives way to the text that `files` holds
/// under `path`, escaped for use inside a JSON string. It stays as it is
/// where `files` does not hold the path, or where the path holds `..`.
pub fn replace_variables_with_files(
    input: &str,
    env: &Variables,
    vars: &Variables,
    files: &Variables,
) -> (r: Result<String, String>)
    ensures
        r matches Ok(text) && text@ == substituted(with_files(input@, files@, 0), env@, vars@),
{
    let with = include_files(input, files);
    Ok(replace_variables(with.as_str(), env, vars))
}

} // verus!
