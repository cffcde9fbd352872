use vstd::prelude::*;

verus! {

/// Unicode `White_Space` characters.
pub open spec fn is_space_char(c: char) -> bool {
    ('\u{9}' <= c && c <= '\u{d}') || c == ' ' || c == '\u{85}' || c == '\u{a0}' || c
        == '\u{1680}' || ('\u{2000}' <= c && c <= '\u{200a}') || c == '\u{2028}' || c
        == '\u{2029}' || c == '\u{202f}' || c == '\u{205f}' || c == '\u{3000}'
}

/// Characters that a title may hold but a file name should not: whitespace and
/// the punctuation `:;[]{}<>=@#$%^&*.,?!'"|()/\•-`.
pub open spec fn is_separator(c: char) -> bool {
    is_space_char(c) || c == ':' || c == ';' || c == '[' || c == ']' || c == '{' || c == '}'
        || c == '<' || c == '>' || c == '=' || c == '@' || c == '#' || c == '$' || c == '%'
        || c == '^' || c == '&' || c == '*' || c == '.' || c == ',' || c == '?' || c == '!'
        || c == '\'' || c == '"' || c == '|' || c == '(' || c == ')' || c == '/' || c == '\\'
        || c == '\u{2022}' || c == '-'
}

/// A character as it stands in a file name: every separator becomes `-`.
pub open spec fn dashed(c: char) -> char {
    if is_separator(c) {
        '-'
    } else {
        c
    }
}

/// The characters of `s` with separators turned into `-`, each run of `-`
/// collapsed to one.
pub open spec fn squeezed(s: Seq<char>) -> Seq<char>
    decreases s.len(),
{
    if s.len() == 0 {
        Seq::empty()
    } else {
        let r = squeezed(s.drop_last());
        let c = dashed(s.last());
        if c == '-' && r.len() > 0 && r.last() == '-' {
            r
        } else {
            r.push(c)
        }
    }
}

/// The base name of the file that holds a note titled `title`: separators become
/// `-`, runs of `-` collapse to one, and a `-` at the end is dropped. A title
/// made only of separators gives the empty base name.
pub open spec fn base_name_of(title: Seq<char>) -> Seq<char> {
    let q = squeezed(title);
    if q.len() > 0 && q.last() == '-' {
        q.drop_last()
    } else {
        q
    }
}

/// The extension of every file written.
pub open spec fn extension() -> Seq<char> {
    seq!['.', 'm', 'd']
}

/// The file name of a note titled `title`.
pub open spec fn file_name_of(title: Seq<char>) -> Seq<char> {
    base_name_of(title) + extension()
}

/// No two `-` stand next to each other in `s`.
pub open spec fn no_double_dash(s: Seq<char>) -> bool {
    forall|i: int| 0 <= i < s.len() - 1 ==> !(#[trigger] s[i] == '-' && s[i + 1] == '-')
}

/// What a base name is made of: no separator but `-`, no run of `-`, no `-` at
/// the end.
pub open spec fn is_clean(s: Seq<char>) -> bool {
    &&& forall|i: int| 0 <= i < s.len() && is_separator(#[trigger] s[i]) ==> s[i] == '-'
    &&& no_double_dash(s)
    &&& s.len() > 0 ==> s.last() != '-'
}

/// Whether `c` is a separator.
pub fn is_separator_char(c: char) -> (r: bool)
    ensures
        r == is_separator(c),
{
    ('\u{9}' <= c && c <= '\u{d}') || c == ' ' || c == '\u{85}' || c == '\u{a0}' || c
        == '\u{1680}' || ('\u{2000}' <= c && c <= '\u{200a}') || c == '\u{2028}' || c
        == '\u{2029}' || c == '\u{202f}' || c == '\u{205f}' || c == '\u{3000}' || c == ':' || c
        == ';' || c == '[' || c == ']' || c == '{' || c == '}' || c == '<' || c == '>' || c
        == '=' || c == '@' || c == '#' || c == '$' || c == '%' || c == '^' || c == '&' || c
        == '*' || c == '.' || c == ',' || c == '?' || c == '!' || c == '\'' || c == '"' || c
        == '|' || c == '(' || c == ')' || c == '/' || c == '\\' || c == '\u{2022}' || c == '-'
}

/// Relies on `String::push`: the character is added at the end.
#[verifier::external_body]
fn push_char(s: &mut String, c: char)
    ensures
        final(s)@ == old(s)@.push(c),
{
    s.push(c);
}

/// Relies on `String::pop`: the last character is removed and returned.
#[verifier::external_body]
fn pop_char(s: &mut String) -> (r: Option<char>)
    ensures
        old(s)@.len() == 0 ==> r is None && final(s)@ == old(s)@,
        old(s)@.len() > 0 ==> r == Some(old(s)@.last()) && final(s)@ == old(s)@.drop_last(),
{
    s.pop()
}

/// The base name of the file that holds a note titled `title` (without the
/// extension).
pub fn base_name(title: &str) -> (r: String)
    ensures
        r@ == base_name_of(title@),
        is_clean(r@),
{
    let n = title.unicode_len();
    let mut out = String::new();
    let mut last_dash = false;
    let mut i: usize = 0;
    while i < n
        invariant
            n == title@.len(),
            0 <= i <= n,
            out@ == squeezed(title@.subrange(0, i as int)),
            last_dash == (out@.len() > 0 && out@.last() == '-'),
        decreases n - i,
    {
        let ghost pre = title@.subrange(0, i as int);
        let ghost next = title@.subrange(0, i + 1);
        assert(next.drop_last() == pre);
        assert(next.last() == title@[i as int]);
        let c = title.get_char(i);
        if is_separator_char(c) {
            if !last_dash {
                push_char(&mut out, '-');
                last_dash = true;
            }
        } else {
            push_char(&mut out, c);
            last_dash = false;
        }
        i = i + 1;
    }
    assert(title@.subrange(0, n as int) == title@);
    if last_dash {
        pop_char(&mut out);
    }
    proof {
        lemma_squeezed_clean(title@);
    }
    out
}

/// The file name of a note titled `title`: its base name and the extension `.md`.
pub fn file_name(title: &str) -> (r: String)
    ensures
        r@ == file_name_of(title@),
{
    let mut r = base_name(title);
    push_char(&mut r, '.');
    push_char(&mut r, 'm');
    push_char(&mut r, 'd');
    assert(r@ =~= file_name_of(title@));
    r
}

/// What `squeezed` gives holds no separator but `-` and no run of `-`.
proof fn lemma_squeezed_shape(s: Seq<char>)
    ensures
        forall|i: int| 0 <= i < squeezed(s).len() && is_separator(#[trigger] squeezed(s)[i]) ==> squeezed(s)[i] == '-',
        no_double_dash(squeezed(s)),
    decreases s.len(),
{
    if s.len() > 0 {
        lemma_squeezed_shape(s.drop_last());
        let r = squeezed(s.drop_last());
        let q = squeezed(s);
        if q != r {
            assert(q == r.push(dashed(s.last())));
            assert forall|i: int| 0 <= i < q.len() && is_separator(#[trigger] q[i]) implies q[i] == '-' by {
                if i < r.len() {
                    assert(q[i] == r[i]);
                }
            }
            assert forall|i: int| 0 <= i < q.len() - 1 implies !(#[trigger] q[i] == '-' && q[i + 1] == '-') by {
                assert(q[i] == r[i]);
                if i < r.len() - 1 {
                    assert(q[i + 1] == r[i + 1]);
                }
            }
        }
    }
}

proof fn lemma_squeezed_clean(s: Seq<char>)
    ensures
        is_clean(base_name_of(s)),
{
    lemma_squeezed_shape(s);
    let q = squeezed(s);
    let b = base_name_of(s);
    if q.len() > 0 && q.last() == '-' {
        assert(b == q.subrange(0, q.len() - 1));
        assert forall|i: int| 0 <= i < b.len() && is_separator(#[trigger] b[i]) implies b[i] == '-' by {
            assert(b[i] == q[i]);
        }
        assert forall|i: int| 0 <= i < b.len() - 1 implies !(#[trigger] b[i] == '-' && b[i + 1] == '-') by {
            assert(b[i] == q[i]);
            assert(b[i + 1] == q[i + 1]);
        }
        if b.len() > 0 {
            assert(b.last() == q[q.len() - 2]);
        }
    }
}

/// A string with no separator but `-` and no run of `-` is left as it is by
/// `squeezed`.
proof fn lemma_squeezed_fixed(s: Seq<char>)
    requires
        forall|i: int| 0 <= i < s.len() && is_separator(#[trigger] s[i]) ==> s[i] == '-',
        no_double_dash(s),
    ensures
        squeezed(s) == s,
    decreases s.len(),
{
    if s.len() > 0 {
        let p = s.drop_last();
        assert forall|i: int| 0 <= i < p.len() && is_separator(#[trigger] p[i]) implies p[i] == '-' by {
            assert(p[i] == s[i]);
        }
        assert forall|i: int| 0 <= i < p.len() - 1 implies !(#[trigger] p[i] == '-' && p[i + 1] == '-') by {
            assert(p[i] == s[i]);
            assert(p[i + 1] == s[i + 1]);
        }
        lemma_squeezed_fixed(p);
        let c = s.last();
        assert(c == s[s.len() - 1]);
        assert(dashed(c) == c);
        if c == '-' && p.len() > 0 {
            assert(p.last() == s[s.len() - 2]);
        }
        assert(s == p.push(c));
    }
}

/// Sanitizing is idempotent: the base name of a base name is itself, and so is
/// the base name of a file name with its extension taken off.
pub proof fn lemma_sanitize_idempotent(title: Seq<char>)
    ensures
        base_name_of(base_name_of(title)) == base_name_of(title),
        base_name_of(file_name_of(title).subrange(0, file_name_of(title).len() - 3))
            == base_name_of(title),
{
    let b = base_name_of(title);
    lemma_squeezed_clean(title);
    lemma_squeezed_fixed(b);
    assert(file_name_of(title).subrange(0, file_name_of(title).len() - 3) == b);
}

/// A file name never holds a run of two or more `-`.
pub proof fn lemma_file_name_no_double_dash(title: Seq<char>)
    ensures
        no_double_dash(file_name_of(title)),
{
    let b = base_name_of(title);
    let f = file_name_of(title);
    lemma_squeezed_clean(title);
    assert forall|i: int| 0 <= i < f.len() - 1 implies !(#[trigger] f[i] == '-' && f[i + 1] == '-') by {
        if i + 1 < b.len() {
            assert(f[i] == b[i] && f[i + 1] == b[i + 1]);
        } else if i + 1 == b.len() {
            assert(f[i] == b.last());
        } else {
            assert(f[i + 1] == extension()[i + 1 - b.len()]);
        }
    }
}

} // verus!
