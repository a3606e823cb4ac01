//! The escaping engine: mathematical models of SQL identifier quoting and
//! string-literal quoting, executable renderers proved against them, and the
//! round-trip laws that make the escaping safe to invert.

use vstd::prelude::*;

verus! {

/// Failure of identifier rendering: some fragment holds a `'` or `\`
/// character, which quoted identifiers cannot represent.
#[derive(Clone, Copy, Debug, PartialEq, Eq)]
pub struct UnsupportedIdentifierCharacter;

/// The concatenation of all fragments of a fragment list.
pub open spec fn concat_frags(frags: Seq<Seq<char>>) -> Seq<char>
    decreases frags.len(),
{
    if frags.len() == 0 {
        Seq::empty()
    } else {
        frags[0] + concat_frags(frags.drop_first())
    }
}

/// Does any fragment of the list contain the character `c`?
pub open spec fn any_frag_contains(frags: Seq<Seq<char>>, c: char) -> bool {
    exists|i: int| 0 <= i < frags.len() && #[trigger] frags[i].contains(c)
}

/// Identifier rendering fails exactly when a fragment holds `'` or `\`.
pub open spec fn identifier_rejected(frags: Seq<Seq<char>>) -> bool {
    any_frag_contains(frags, '\'') || any_frag_contains(frags, '\\')
}

/// The identifier is wrapped in `"` exactly when a fragment holds a space
/// or a `"`.
pub open spec fn identifier_needs_quoting(frags: Seq<Seq<char>>) -> bool {
    any_frag_contains(frags, ' ') || any_frag_contains(frags, '"')
}

/// `s` with every occurrence of `a` and of `b` doubled.
pub open spec fn double_chars(s: Seq<char>, a: char, b: char) -> Seq<char>
    decreases s.len(),
{
    if s.len() == 0 {
        Seq::empty()
    } else if s[0] == a || s[0] == b {
        seq![s[0], s[0]] + double_chars(s.drop_first(), a, b)
    } else {
        seq![s[0]] + double_chars(s.drop_first(), a, b)
    }
}

/// Reverse of `double_chars`: each doubled `a` or `b` collapses back to one
/// character.
pub open spec fn undouble_chars(s: Seq<char>, a: char, b: char) -> Seq<char>
    decreases s.len(),
{
    if s.len() == 0 {
        Seq::empty()
    } else if (s[0] == a || s[0] == b) && s.len() >= 2 {
        seq![s[0]] + undouble_chars(s.skip(2), a, b)
    } else {
        seq![s[0]] + undouble_chars(s.skip(1), a, b)
    }
}

/// The rendered identifier for a fragment list: when quoting is needed the
/// whole concatenation is wrapped in `"` with every `"` doubled, otherwise
/// it is the plain concatenation.
pub open spec fn identifier_text(frags: Seq<Seq<char>>) -> Seq<char> {
    if identifier_needs_quoting(frags) {
        seq!['"'] + double_chars(concat_frags(frags), '"', '"') + seq!['"']
    } else {
        concat_frags(frags)
    }
}

/// The rendered literal for a logical string: wrapped in `'`, with every
/// `'` and every `\` doubled.
pub open spec fn literal_text(s: Seq<char>) -> Seq<char> {
    seq!['\''] + double_chars(s, '\'', '\\') + seq!['\'']
}

/// Relies on `String::push`: appends the given character to the end of the
/// string.
pub assume_specification[ String::push ](s: &mut String, c: char)
    ensures
        final(s)@ == old(s)@.push(c),
;

fn str_contains_char(s: &str, c: char) -> (found: bool)
    ensures
        found == s@.contains(c),
{
    let n = s.unicode_len();
    let mut i: usize = 0;
    while i < n
        invariant
            n == s@.len(),
            i <= n,
            forall|j: int| 0 <= j < i ==> s@[j] != c,
        decreases n - i,
    {
        if s.get_char(i) == c {
            assert(s@.contains(c));
            return true;
        }
        i = i + 1;
    }
    assert(!s@.contains(c));
    false
}

fn frags_contain_char(frags: &[&str], c: char) -> (found: bool)
    ensures
        found == any_frag_contains(frags.deep_view(), c),
{
    let n = frags.len();
    let mut i: usize = 0;
    while i < n
        invariant
            n == frags@.len(),
            i <= n,
            forall|j: int| 0 <= j < i ==> !(#[trigger] frags.deep_view()[j].contains(c)),
        decreases n - i,
    {
        let f = *vstd::slice::slice_index_get(frags, i);
        if str_contains_char(f, c) {
            assert(frags.deep_view()[i as int].contains(c));
            return true;
        }
        i = i + 1;
    }
    false
}

proof fn lemma_double_chars_push(s: Seq<char>, c: char, a: char, b: char)
    ensures
        double_chars(s.push(c), a, b) == double_chars(s, a, b) + (if c == a || c == b {
            seq![c, c]
        } else {
            seq![c]
        }),
    decreases s.len(),
{
    let tail = (if c == a || c == b {
        seq![c, c]
    } else {
        seq![c]
    });
    let sc = s.push(c);
    if s.len() == 0 {
        assert(sc[0] == c);
        assert(sc.drop_first() =~= Seq::<char>::empty());
        assert(double_chars(sc.drop_first(), a, b) == Seq::<char>::empty());
        assert(double_chars(s, a, b) == Seq::<char>::empty());
        assert(double_chars(sc, a, b) =~= double_chars(s, a, b) + tail);
    } else {
        assert(sc[0] == s[0]);
        assert(sc.drop_first() =~= s.drop_first().push(c));
        lemma_double_chars_push(s.drop_first(), c, a, b);
        assert(double_chars(sc.drop_first(), a, b) == double_chars(s.drop_first(), a, b) + tail);
        if s[0] == a || s[0] == b {
            assert(double_chars(sc, a, b) == seq![s[0], s[0]] + double_chars(
                sc.drop_first(),
                a,
                b,
            ));
            assert(double_chars(s, a, b) == seq![s[0], s[0]] + double_chars(
                s.drop_first(),
                a,
                b,
            ));
        } else {
            assert(double_chars(sc, a, b) == seq![s[0]] + double_chars(sc.drop_first(), a, b));
            assert(double_chars(s, a, b) == seq![s[0]] + double_chars(s.drop_first(), a, b));
        }
        assert(double_chars(sc, a, b) =~= double_chars(s, a, b) + tail);
    }
}

proof fn lemma_concat_frags_push(frags: Seq<Seq<char>>, f: Seq<char>)
    ensures
        concat_frags(frags.push(f)) == concat_frags(frags) + f,
    decreases frags.len(),
{
    let fp = frags.push(f);
    if frags.len() == 0 {
        assert(fp[0] == f);
        assert(fp.drop_first() =~= Seq::<Seq<char>>::empty());
        assert(concat_frags(fp.drop_first()) == Seq::<char>::empty());
        assert(concat_frags(frags) == Seq::<char>::empty());
        assert(concat_frags(fp) =~= concat_frags(frags) + f);
    } else {
        assert(fp[0] == frags[0]);
        assert(fp.drop_first() =~= frags.drop_first().push(f));
        lemma_concat_frags_push(frags.drop_first(), f);
        assert(concat_frags(fp.drop_first()) == concat_frags(frags.drop_first()) + f);
        assert(concat_frags(fp) == fp[0] + concat_frags(fp.drop_first()));
        assert(concat_frags(frags) == frags[0] + concat_frags(frags.drop_first()));
        assert(concat_frags(fp) =~= concat_frags(frags) + f);
    }
}

proof fn lemma_undouble_double(s: Seq<char>, a: char, b: char)
    ensures
        undouble_chars(double_chars(s, a, b), a, b) == s,
    decreases s.len(),
{
    if s.len() == 0 {
    } else {
        let rest = double_chars(s.drop_first(), a, b);
        lemma_undouble_double(s.drop_first(), a, b);
        if s[0] == a || s[0] == b {
            let d = seq![s[0], s[0]] + rest;
            assert(d.skip(2) =~= rest);
            assert(undouble_chars(d, a, b) =~= s);
        } else {
            let d = seq![s[0]] + rest;
            assert(d.skip(1) =~= rest);
            assert(undouble_chars(d, a, b) =~= s);
        }
    }
}

/// Appends to `out` the fragment `s` with every `a` and `b` doubled.
fn append_doubled(out: &mut String, s: &str, a: char, b: char)
    ensures
        final(out)@ == old(out)@ + double_chars(s@, a, b),
{
    let n = s.unicode_len();
    let mut i: usize = 0;
    while i < n
        invariant
            n == s@.len(),
            i <= n,
            out@ == old(out)@ + double_chars(s@.take(i as int), a, b),
        decreases n - i,
    {
        let c = s.get_char(i);
        out.push(c);
        if c == a || c == b {
            out.push(c);
        }
        proof {
            lemma_double_chars_push(s@.take(i as int), s@[i as int], a, b);
            assert(s@.take(i + 1) =~= s@.take(i as int).push(s@[i as int]));
            assert(out@ =~= old(out)@ + double_chars(s@.take(i + 1), a, b));
        }
        i = i + 1;
    }
    proof {
        assert(s@.take(n as int) =~= s@);
    }
}

/// Appends to `out` the plain concatenation of all fragments.
fn append_concat(out: &mut String, frags: &[&str])
    ensures
        final(out)@ == old(out)@ + concat_frags(frags.deep_view()),
{
    let n = frags.len();
    let mut i: usize = 0;
    while i < n
        invariant
            n == frags@.len(),
            i <= n,
            out@ == old(out)@ + concat_frags(frags.deep_view().take(i as int)),
        decreases n - i,
    {
        let f = *vstd::slice::slice_index_get(frags, i);
        out.append(f);
        proof {
            lemma_concat_frags_push(frags.deep_view().take(i as int), frags.deep_view()[i as int]);
            assert(frags.deep_view().take(i + 1) =~= frags.deep_view().take(i as int).push(
                frags.deep_view()[i as int],
            ));
            assert(out@ =~= old(out)@ + concat_frags(frags.deep_view().take(i + 1)));
        }
        i = i + 1;
    }
    proof {
        assert(frags.deep_view().take(n as int) =~= frags.deep_view());
    }
}

/// Appends to `out` the concatenation of all fragments with every `a` and
/// `b` doubled.
fn append_concat_doubled(out: &mut String, frags: &[&str], a: char, b: char)
    ensures
        final(out)@ == old(out)@ + double_chars(concat_frags(frags.deep_view()), a, b),
{
    let n = frags.len();
    let mut i: usize = 0;
    while i < n
        invariant
            n == frags@.len(),
            i <= n,
            out@ == old(out)@ + double_chars(concat_frags(frags.deep_view().take(i as int)), a, b),
        decreases n - i,
    {
        let f = *vstd::slice::slice_index_get(frags, i);
        append_doubled(out, f, a, b);
        proof {
            lemma_concat_frags_push(frags.deep_view().take(i as int), frags.deep_view()[i as int]);
            lemma_double_chars_concat(
                concat_frags(frags.deep_view().take(i as int)),
                frags.deep_view()[i as int],
                a,
                b,
            );
            assert(frags.deep_view().take(i + 1) =~= frags.deep_view().take(i as int).push(
                frags.deep_view()[i as int],
            ));
            assert(out@ =~= old(out)@ + double_chars(
                concat_frags(frags.deep_view().take(i + 1)),
                a,
                b,
            ));
        }
        i = i + 1;
    }
    proof {
        assert(frags.deep_view().take(n as int) =~= frags.deep_view());
    }
}

proof fn lemma_double_chars_concat(s: Seq<char>, t: Seq<char>, a: char, b: char)
    ensures
        double_chars(s + t, a, b) == double_chars(s, a, b) + double_chars(t, a, b),
    decreases s.len(),
{
    if s.len() == 0 {
        assert(s + t =~= t);
        assert(double_chars(s, a, b) + double_chars(t, a, b) =~= double_chars(t, a, b));
    } else {
        lemma_double_chars_concat(s.drop_first(), t, a, b);
        assert((s + t).drop_first() =~= s.drop_first() + t);
        assert(double_chars(s + t, a, b) =~= double_chars(s, a, b) + double_chars(t, a, b));
    }
}

/// Renders a fragment list as one escaped SQL identifier: the quoting
/// decision is made once over the whole list.
pub(crate) fn format_identifier(frags: &[&str]) -> (r: Result<String, UnsupportedIdentifierCharacter>)
    ensures
        r is Err <==> identifier_rejected(frags.deep_view()),
        r is Ok ==> r->Ok_0@ == identifier_text(frags.deep_view()),
{
    if frags_contain_char(frags, '\'') || frags_contain_char(frags, '\\') {
        return Err(UnsupportedIdentifierCharacter);
    }
    let mut out = String::new();
    if frags_contain_char(frags, ' ') || frags_contain_char(frags, '"') {
        out.push('"');
        append_concat_doubled(&mut out, frags, '"', '"');
        out.push('"');
        proof {
            assert(out@ =~= identifier_text(frags.deep_view()));
        }
    } else {
        append_concat(&mut out, frags);
        proof {
            assert(out@ =~= identifier_text(frags.deep_view()));
        }
    }
    Ok(out)
}

/// Renders a fragment list as one single-quoted SQL string literal; this
/// never fails.
pub(crate) fn format_literal(frags: &[&str]) -> (r: String)
    ensures
        r@ == literal_text(concat_frags(frags.deep_view())),
{
    let mut out = String::new();
    out.push('\'');
    append_concat_doubled(&mut out, frags, '\'', '\\');
    out.push('\'');
    proof {
        assert(out@ =~= literal_text(concat_frags(frags.deep_view())));
    }
    out
}

/// The concatenation of a one-fragment list is that fragment.
pub proof fn lemma_concat_frags_single(f: Seq<char>)
    ensures
        concat_frags(seq![f]) == f,
{
    let s = seq![f];
    assert(s[0] == f);
    assert(s.drop_first() =~= Seq::<Seq<char>>::empty());
    assert(concat_frags(s.drop_first()) == Seq::<char>::empty());
    assert(concat_frags(s) == s[0] + concat_frags(s.drop_first()));
    assert(concat_frags(s) =~= f);
}

/// Renders one fragment as an escaped SQL identifier.
pub(crate) fn format_identifier_one(frag: &str) -> (r: Result<String, UnsupportedIdentifierCharacter>)
    ensures
        r is Err <==> identifier_rejected(seq![frag@]),
        r is Ok ==> r->Ok_0@ == identifier_text(seq![frag@]),
{
    let mut frags: Vec<&str> = Vec::new();
    frags.push(frag);
    let s = frags.as_slice();
    let r = format_identifier(s);
    proof {
        assert(s.deep_view() =~= seq![frag@]);
    }
    r
}

/// Renders one logical string as an escaped SQL string literal.
pub(crate) fn format_literal_one(frag: &str) -> (r: String)
    ensures
        r@ == literal_text(frag@),
{
    let mut frags: Vec<&str> = Vec::new();
    frags.push(frag);
    let s = frags.as_slice();
    let r = format_literal(s);
    proof {
        assert(s.deep_view() =~= seq![frag@]);
        lemma_concat_frags_single(frag@);
    }
    r
}

/// Law: a fragment list in which no fragment holds a space, `"`, `'` or `\`
/// renders as the plain concatenation of its fragments.
pub proof fn lemma_identifier_plain(frags: Seq<Seq<char>>)
    requires
        !identifier_needs_quoting(frags),
        !identifier_rejected(frags),
    ensures
        identifier_text(frags) == concat_frags(frags),
{
}

/// Law: when some fragment holds a space or a `"`, the rendered identifier
/// is wrapped in `"`, and undoing the doubling of `"` on what stands between
/// the wrapping quotes recovers the concatenated fragments exactly.
pub proof fn lemma_identifier_quoted_round_trip(frags: Seq<Seq<char>>)
    requires
        identifier_needs_quoting(frags),
    ensures
        identifier_text(frags).len() >= 2,
        identifier_text(frags)[0] == '"',
        identifier_text(frags)[identifier_text(frags).len() - 1] == '"',
        undouble_chars(
            identifier_text(frags).subrange(1, identifier_text(frags).len() - 1),
            '"',
            '"',
        ) == concat_frags(frags),
{
    let inner = double_chars(concat_frags(frags), '"', '"');
    let t = identifier_text(frags);
    assert(t =~= seq!['"'] + inner + seq!['"']);
    assert(t.subrange(1, t.len() - 1) =~= inner);
    lemma_undouble_double(concat_frags(frags), '"', '"');
}

/// Law: a rendered literal starts and ends with `'`, and undoing the
/// doubling of `'` and `\` on what stands between the wrapping quotes
/// recovers the original string exactly.
pub proof fn lemma_literal_round_trip(s: Seq<char>)
    ensures
        literal_text(s).len() >= 2,
        literal_text(s)[0] == '\'',
        literal_text(s)[literal_text(s).len() - 1] == '\'',
        undouble_chars(literal_text(s).subrange(1, literal_text(s).len() - 1), '\'', '\\') == s,
{
    let inner = double_chars(s, '\'', '\\');
    let t = literal_text(s);
    assert(t.subrange(1, t.len() - 1) =~= inner);
    lemma_undouble_double(s, '\'', '\\');
}

} // verus!
