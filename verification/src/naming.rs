//! Names and paths: sanitising path components and joining paths.

use vstd::prelude::*;

verus! {

/// Whether `c` may stand unchanged in an install-root name: an ASCII letter
/// or digit, `.`, `-` or `_`.
pub open spec fn is_path_safe_char(c: char) -> bool {
    ||| ('a' <= c && c <= 'z')
    ||| ('A' <= c && c <= 'Z')
    ||| ('0' <= c && c <= '9')
    ||| c == '.'
    ||| c == '-'
    ||| c == '_'
}

/// The character that stands for `c` in a sanitised component.
pub open spec fn sanitized_char(c: char) -> char {
    if is_path_safe_char(c) {
        c
    } else {
        '_'
    }
}

/// A component with every character that is not path safe replaced by `_`.
pub open spec fn sanitized(s: Seq<char>) -> Seq<char> {
    s.map_values(|c: char| sanitized_char(c))
}

fn is_path_safe(c: char) -> (b: bool)
    ensures
        b == is_path_safe_char(c),
{
    ('a' <= c && c <= 'z') || ('A' <= c && c <= 'Z') || ('0' <= c && c <= '9') || c == '.' || c
        == '-' || c == '_'
}

/// `String::push`: appends the character `c` to `s`.
#[verifier::external_body]
fn push_char(s: &mut String, c: char)
    ensures
        final(s)@ == old(s)@.push(c),
{
    s.push(c)
}

/// Replaces every character of `component` that is not an ASCII letter or
/// digit, `.`, `-` or `_` by `_`.
pub fn sanitize_path_component(component: &str) -> (r: String)
    ensures
        r@ == sanitized(component@),
{
    let mut out = String::new();
    let mut chars = component.chars();
    for c in it: chars
        invariant
            it.seq() == component@,
            out@ == sanitized(component@.take(it.index() as int)),
    {
        assert(component@.take(it.index() + 1) == component@.take(it.index() as int).push(c));
        push_char(&mut out, if is_path_safe(c) { c } else { '_' });
        assert(out@ =~= sanitized(component@.take(it.index() + 1)));
    }
    assert(component@.take(component@.len() as int) == component@);
    out
}


/// Whether `c` separates path components on a host whose main separator
/// is `separator` (`/` separates them on every host).
pub open spec fn is_separator(c: char, separator: char) -> bool {
    c == '/' || c == separator
}

/// `comp` appended to the path `base` as `Path::join` does on a host whose
/// main separator is `separator`: a `comp` that starts with a separator
/// replaces `base`; otherwise the main separator stands between the two
/// unless `base` is empty or already ends in a separator. On Unix (`/`) this
/// is `Path::join` exactly; on Windows (`\`) it is `Path::join` for every
/// `comp` without a drive prefix or leading separator, which is every
/// component this library joins but a binary name that holds one.
pub open spec fn join_path(base: Seq<char>, comp: Seq<char>, separator: char) -> Seq<char> {
    if comp.len() > 0 && is_separator(comp[0], separator) {
        comp
    } else if base.len() == 0 {
        comp
    } else if is_separator(base.last(), separator) {
        base + comp
    } else {
        base.push(separator) + comp
    }
}

/// The parts joined with `sep` between each two neighbours.
pub open spec fn join_with(parts: Seq<Seq<char>>, sep: Seq<char>) -> Seq<char>
    decreases parts.len(),
{
    if parts.len() == 0 {
        Seq::empty()
    } else if parts.len() == 1 {
        parts[0]
    } else {
        join_with(parts.drop_last(), sep) + sep + parts.last()
    }
}

/// The views of a sequence of strings.
pub open spec fn views(parts: Seq<String>) -> Seq<Seq<char>> {
    parts.map_values(|p: String| p@)
}

/// Joins the path `base` and the path `comp` on a host whose main separator
/// is `separator`.
pub fn join_path_str(base: &str, comp: &str, separator: char) -> (r: String)
    ensures
        r@ == join_path(base@, comp@, separator),
{
    let comp_len = comp.unicode_len();
    let base_len = base.unicode_len();
    if comp_len > 0 && (comp.get_char(0) == '/' || comp.get_char(0) == separator) {
        String::from_str(comp)
    } else if base_len == 0 {
        String::from_str(comp)
    } else if base.get_char(base_len - 1) == '/' || base.get_char(base_len - 1) == separator {
        let mut r = String::from_str(base);
        r.append(comp);
        r
    } else {
        let mut r = String::from_str(base);
        push_char(&mut r, separator);
        r.append(comp);
        r
    }
}

/// Joins `parts` with `sep` between each two neighbours.
pub fn join_with_separator(parts: &Vec<String>, sep: &str) -> (r: String)
    ensures
        r@ == join_with(views(parts@), sep@),
{
    let mut r = String::new();
    let n = parts.len();
    for i in 0..n
        invariant
            n == parts@.len(),
            r@ == join_with(views(parts@).take(i as int), sep@),
    {
        let ghost before = views(parts@).take(i as int);
        let ghost after = views(parts@).take(i + 1);
        assert(after.drop_last() =~= before);
        if i > 0 {
            r.append(sep);
        } else {
            assert(before.len() == 0);
        }
        r.append(parts[i].as_str());
        assert(after.last() == parts@[i as int]@);
    }
    assert(views(parts@).take(n as int) =~= views(parts@));
    r
}

/// `p + x == p + y` only when `x == y`.
proof fn lemma_cancel_prefix(p: Seq<char>, x: Seq<char>, y: Seq<char>)
    requires
        p + x == p + y,
    ensures
        x == y,
{
    assert(x =~= (p + x).subrange(p.len() as int, (p + x).len() as int));
    assert(y =~= (p + y).subrange(p.len() as int, (p + y).len() as int));
}

/// `x + s == y + s` only when `x == y`.
proof fn lemma_cancel_suffix(x: Seq<char>, y: Seq<char>, s: Seq<char>)
    requires
        x + s == y + s,
    ensures
        x == y,
{
    assert(x =~= (x + s).subrange(0, x.len() as int));
    assert(y =~= (y + s).subrange(0, y.len() as int));
}

/// Two equally long sequences of parts that differ at most at `i` join to the
/// same text only if they agree at `i` as well.
pub proof fn lemma_join_separates(a: Seq<Seq<char>>, b: Seq<Seq<char>>, sep: Seq<char>, i: int)
    requires
        a.len() == b.len(),
        0 <= i < a.len(),
        forall|j: int| 0 <= j < a.len() && j != i ==> a[j] == b[j],
        join_with(a, sep) == join_with(b, sep),
    ensures
        a[i] == b[i],
    decreases a.len(),
{
    if a.len() > 1 {
        let n = a.len() - 1;
        if i == n {
            assert(a.drop_last() =~= b.drop_last());
            lemma_cancel_prefix(join_with(a.drop_last(), sep) + sep, a.last(), b.last());
        } else {
            assert(a.last() == b.last());
            lemma_cancel_suffix(
                join_with(a.drop_last(), sep) + sep,
                join_with(b.drop_last(), sep) + sep,
                a.last(),
            );
            assert(join_with(a.drop_last(), sep) == join_with(b.drop_last(), sep)) by {
                let pa = join_with(a.drop_last(), sep);
                let pb = join_with(b.drop_last(), sep);
                assert(pa =~= (pa + sep).subrange(0, pa.len() as int));
                assert(pb =~= (pb + sep).subrange(0, pb.len() as int));
            }
            lemma_join_separates(a.drop_last(), b.drop_last(), sep, i);
        }
    }
}

/// Joining parts made only of path-safe characters with a path-safe
/// separator gives a text made only of path-safe characters.
pub proof fn lemma_join_path_safe(parts: Seq<Seq<char>>, sep: Seq<char>)
    requires
        forall|i: int, k: int|
            0 <= i < parts.len() && 0 <= k < parts[i].len() ==> is_path_safe_char(#[trigger] parts[i][k]),
        forall|k: int| 0 <= k < sep.len() ==> is_path_safe_char(#[trigger] sep[k]),
    ensures
        forall|k: int|
            0 <= k < join_with(parts, sep).len() ==> is_path_safe_char(#[trigger] join_with(parts, sep)[k]),
    decreases parts.len(),
{
    if parts.len() > 1 {
        lemma_join_path_safe(parts.drop_last(), sep);
        let p = join_with(parts.drop_last(), sep);
        let l = parts.last();
        assert forall|k: int| 0 <= k < join_with(parts, sep).len() implies is_path_safe_char(
            #[trigger] join_with(parts, sep)[k],
        ) by {
            if k < p.len() {
                assert(join_with(parts, sep)[k] == p[k]);
            } else if k < p.len() + sep.len() {
                assert(join_with(parts, sep)[k] == sep[k - p.len()]);
            } else {
                assert(join_with(parts, sep)[k] == l[k - p.len() - sep.len()]);
            }
        }
    } else if parts.len() == 1 {
        assert(join_with(parts, sep) == parts[0]);
    }
}

/// Every character of a sanitised component is path safe.
pub proof fn lemma_sanitized_path_safe(s: Seq<char>)
    ensures
        sanitized(s).len() == s.len(),
        forall|k: int| 0 <= k < s.len() ==> is_path_safe_char(#[trigger] sanitized(s)[k]),
{
}

/// Sanitising keeps each ASCII letter or digit, `.`, `-` and `_` of a
/// component where it stands and puts `_` in place of every other
/// character; so every character of the result is an ASCII letter or digit,
/// `.`, `-` or `_`, and the result holds neither `/` nor `\`.
pub proof fn lemma_sanitized_chars(s: Seq<char>)
    ensures
        sanitized(s).len() == s.len(),
        forall|k: int|
            #![trigger sanitized(s)[k]]
            0 <= k < s.len() ==> sanitized(s)[k] == if ('a' <= s[k] && s[k] <= 'z') || ('A' <= s[k]
                && s[k] <= 'Z') || ('0' <= s[k] && s[k] <= '9') || s[k] == '.' || s[k] == '-' || s[k]
                == '_' {
                s[k]
            } else {
                '_'
            },
        forall|k: int|
            #![trigger sanitized(s)[k]]
            0 <= k < s.len() ==> ('a' <= sanitized(s)[k] && sanitized(s)[k] <= 'z') || ('A'
                <= sanitized(s)[k] && sanitized(s)[k] <= 'Z') || ('0' <= sanitized(s)[k]
                && sanitized(s)[k] <= '9') || sanitized(s)[k] == '.' || sanitized(s)[k] == '-'
                || sanitized(s)[k] == '_',
        forall|k: int|
            #![trigger sanitized(s)[k]]
            0 <= k < s.len() ==> sanitized(s)[k] != '/' && sanitized(s)[k] != '\\',
{
}

/// Sanitising twice gives what sanitising once gives.
pub proof fn lemma_sanitize_idempotent(s: Seq<char>)
    ensures
        sanitized(sanitized(s)) == sanitized(s),
{
    assert(sanitized(sanitized(s)) =~= sanitized(s));
}

/// A component made only of path-safe characters is left as it is.
pub proof fn lemma_sanitize_keeps_safe(s: Seq<char>)
    requires
        forall|k: int| 0 <= k < s.len() ==> is_path_safe_char(#[trigger] s[k]),
    ensures
        sanitized(s) == s,
{
    assert(sanitized(s) =~= s);
}

} // verus!
