//! Text-building helpers shared by the generators, and facts about the
//! braces that delimit template actions in such text.

use vstd::prelude::*;

verus! {

/// The character of a decimal digit.
pub open spec fn digit_char(d: nat) -> char
    recommends
        d < 10,
{
    (48 + d) as char
}

/// Decimal notation of a natural number, without sign or leading zeros.
pub open spec fn decimal(n: nat) -> Seq<char>
    decreases n,
{
    if n < 10 {
        seq![digit_char(n)]
    } else {
        decimal(n / 10).push(digit_char(n % 10))
    }
}

/// Appends one character to a string (`String::push`).
#[verifier::external_body]
pub(crate) fn push_char(s: &mut String, c: char)
    ensures
        final(s)@ == old(s)@.push(c),
{
    s.push(c);
}

/// Appends the decimal notation of `n` to `out`.
pub fn push_decimal(out: &mut String, n: u64)
    ensures
        final(out)@ == old(out)@ + decimal(n as nat),
    decreases n,
{
    if n >= 10 {
        push_decimal(out, n / 10);
    }
    let d: u64 = n % 10;
    let c: char = ((48u8 + d as u8) as char);
    assert(c == digit_char((n % 10) as nat));
    push_char(out, c);
    assert(decimal(n as nat) == (if n < 10 { Seq::<char>::empty() } else { decimal((n / 10) as nat) }).push(digit_char((n % 10) as nat)));
}

/// The decimal notation of `n` as a new string.
pub fn decimal_string(n: u64) -> (res: String)
    ensures
        res@ == decimal(n as nat),
{
    let mut s = String::new();
    push_decimal(&mut s, n);
    assert(s@ == Seq::<char>::empty() + decimal(n as nat));
    s
}

/// `s` holds no brace character.
pub open spec fn brace_free(s: Seq<char>) -> bool {
    forall|i: int| 0 <= i < s.len() ==> #[trigger] s[i] != '{' && s[i] != '}'
}

/// `s` never holds the character `c` three times in a row.
pub open spec fn no_run3(s: Seq<char>, c: char) -> bool {
    forall|i: int| 0 <= i && i + 2 < s.len() ==> !(#[trigger] s[i] == c && s[i + 1] == c && s[i + 2] == c)
}

/// Neither `{{{` nor `}}}` occurs in `s`.
pub open spec fn no_triple_braces(s: Seq<char>) -> bool {
    no_run3(s, '{') && no_run3(s, '}')
}

/// Text without `{{{` and `}}}`, and with as many `{{` as `}}`.
pub open spec fn well_braced(s: Seq<char>) -> bool {
    no_triple_braces(s) && opens(s) == closes(s)
}

/// No three braces in a row, no opening brace at the end and no closing
/// brace at the start: such texts can be put one after another without
/// forming three braces in a row.
pub open spec fn brace_safe(s: Seq<char>) -> bool {
    &&& no_run3(s, '{')
    &&& no_run3(s, '}')
    &&& s.len() > 0 ==> s.last() != '{'
    &&& s.len() > 0 ==> s[0] != '}'
}

/// Text without braces can be put next to any brace-safe text.
pub proof fn lemma_brace_free_safe(s: Seq<char>)
    requires
        brace_free(s),
    ensures
        brace_safe(s),
{
    if s.len() > 0 {
        assert(s[s.len() - 1] != '{');
        assert(s[0] != '}');
    }
}

/// Two texts without braces, one after the other, hold no braces.
pub proof fn lemma_brace_free_concat(a: Seq<char>, b: Seq<char>)
    requires
        brace_free(a),
        brace_free(b),
    ensures
        brace_free(a + b),
{
    assert forall|i: int| 0 <= i < (a + b).len() implies #[trigger] (a + b)[i] != '{' && (a + b)[i] != '}' by {
        if i < a.len() {
            assert((a + b)[i] == a[i]);
        } else {
            assert((a + b)[i] == b[i - a.len()]);
        }
    }
}

/// Two brace-safe texts, one after the other, are brace-safe.
pub proof fn lemma_safe_concat(a: Seq<char>, b: Seq<char>)
    requires
        brace_safe(a),
        brace_safe(b),
    ensures
        brace_safe(a + b),
{
    let s = a + b;
    assert forall|i: int| 0 <= i && i + 2 < s.len() implies !(#[trigger] s[i] == '{' && s[i + 1] == '{' && s[i + 2] == '{') by {
        if i + 2 < a.len() {
            assert(s[i] == a[i] && s[i + 1] == a[i + 1] && s[i + 2] == a[i + 2]);
        } else if i >= a.len() {
            assert(s[i] == b[i - a.len()] && s[i + 1] == b[i - a.len() + 1] && s[i + 2] == b[i - a.len() + 2]);
        } else if i + 1 == a.len() {
            assert(s[i] == a.last());
        } else {
            assert(s[i + 1] == a.last());
        }
    }
    assert forall|i: int| 0 <= i && i + 2 < s.len() implies !(#[trigger] s[i] == '}' && s[i + 1] == '}' && s[i + 2] == '}') by {
        if i + 2 < a.len() {
            assert(s[i] == a[i] && s[i + 1] == a[i + 1] && s[i + 2] == a[i + 2]);
        } else if i >= a.len() {
            assert(s[i] == b[i - a.len()] && s[i + 1] == b[i - a.len() + 1] && s[i + 2] == b[i - a.len() + 2]);
        } else if i + 1 == a.len() {
            assert(s[i + 1] == b[0]);
        } else {
            assert(s[i + 2] == b[0]);
        }
    }
    if s.len() > 0 {
        if b.len() > 0 {
            assert(s.last() == b.last());
        } else {
            assert(s =~= a);
        }
        if a.len() > 0 {
            assert(s[0] == a[0]);
        } else {
            assert(s =~= b);
        }
    }
}

/// Decimal notation holds no braces.
pub proof fn lemma_decimal_brace_free(n: nat)
    ensures
        brace_free(decimal(n)),
    decreases n,
{
    if n >= 10 {
        lemma_decimal_brace_free(n / 10);
        let d = decimal(n / 10);
        assert forall|i: int| 0 <= i < d.push(digit_char(n % 10)).len() implies #[trigger] d.push(
            digit_char(n % 10),
        )[i] != '{' && d.push(digit_char(n % 10))[i] != '}' by {
            if i < d.len() {
                assert(d.push(digit_char(n % 10))[i] == d[i]);
            }
        }
    }
}

/// A brace-safe text followed by one without braces is brace-safe.
pub proof fn lemma_safe_then_free(a: Seq<char>, b: Seq<char>)
    requires
        brace_safe(a),
        brace_free(b),
    ensures
        brace_safe(a + b),
{
    lemma_brace_free_safe(b);
    lemma_safe_concat(a, b);
}

/// The number of times `c c` occurs in `s`, counted from the left without
/// overlaps (as `str::matches` counts them).
pub open spec fn pair_count(s: Seq<char>, c: char) -> nat
    decreases s.len(),
{
    if s.len() < 2 {
        0
    } else if s[0] == c && s[1] == c {
        1 + pair_count(s.subrange(2, s.len() as int), c)
    } else {
        pair_count(s.subrange(1, s.len() as int), c)
    }
}

/// The number of `{{` in `s`.
pub open spec fn opens(s: Seq<char>) -> nat {
    pair_count(s, '{')
}

/// The number of `}}` in `s`.
pub open spec fn closes(s: Seq<char>) -> nat {
    pair_count(s, '}')
}

/// A text without `c` holds no `c c`.
pub proof fn lemma_count_absent(s: Seq<char>, c: char)
    requires
        forall|i: int| 0 <= i < s.len() ==> #[trigger] s[i] != c,
    ensures
        pair_count(s, c) == 0,
    decreases s.len(),
{
    if s.len() >= 2 {
        let t = s.subrange(1, s.len() as int);
        assert forall|i: int| 0 <= i < t.len() implies #[trigger] t[i] != c by {
            assert(t[i] == s[i + 1]);
        }
        lemma_count_absent(t, c);
        assert(s[0] != c);
    }
}

/// Counting over two texts one after the other adds up, unless the first
/// ends and the second starts with `c`.
pub proof fn lemma_count_concat(a: Seq<char>, b: Seq<char>, c: char)
    requires
        !(a.len() > 0 && b.len() > 0 && a.last() == c && b[0] == c),
    ensures
        pair_count(a + b, c) == pair_count(a, c) + pair_count(b, c),
    decreases a.len(),
{
    let s = a + b;
    if a.len() == 0 {
        assert(s =~= b);
    } else if a.len() == 1 {
        if b.len() == 0 {
            assert(s =~= a);
        } else {
            assert(s[0] == a[0] && s[1] == b[0]);
            assert(s.subrange(1, s.len() as int) =~= b);
        }
    } else if a[0] == c && a[1] == c {
        let t = a.subrange(2, a.len() as int);
        assert(s.subrange(2, s.len() as int) =~= t + b);
        if t.len() > 0 {
            assert(t.last() == a.last());
        }
        lemma_count_concat(t, b, c);
    } else {
        let t = a.subrange(1, a.len() as int);
        assert(s.subrange(1, s.len() as int) =~= t + b);
        assert(t.last() == a.last());
        lemma_count_concat(t, b, c);
    }
}

/// Text without braces holds neither `{{` nor `}}`.
pub proof fn lemma_counts_free(s: Seq<char>)
    requires
        brace_free(s),
    ensures
        opens(s) == 0,
        closes(s) == 0,
{
    lemma_count_absent(s, '{');
    lemma_count_absent(s, '}');
}

/// `{{` and `}}` add up over two texts whose meeting characters differ.
pub proof fn lemma_counts_join(a: Seq<char>, b: Seq<char>)
    requires
        a.len() == 0 || b.len() == 0 || a.last() != b[0],
    ensures
        opens(a + b) == opens(a) + opens(b),
        closes(a + b) == closes(a) + closes(b),
{
    lemma_count_concat(a, b, '{');
    lemma_count_concat(a, b, '}');
}

/// `{{` and `}}` add up over two brace-safe texts.
pub proof fn lemma_counts_safe(a: Seq<char>, b: Seq<char>)
    requires
        brace_safe(a),
        brace_safe(b),
    ensures
        opens(a + b) == opens(a) + opens(b),
        closes(a + b) == closes(a) + closes(b),
{
    lemma_count_concat(a, b, '{');
    lemma_count_concat(a, b, '}');
}

/// `{{` is one `{{` and no `}}`; `}}` the other way round.
pub proof fn lemma_token_counts()
    ensures
        opens("{{"@) == 1,
        closes("{{"@) == 0,
        opens("}}"@) == 0,
        closes("}}"@) == 1,
{
    reveal_strlit("{{");
    reveal_strlit("}}");
    let e = Seq::<char>::empty();
    assert(pair_count(e, '{') == 0);
    assert(pair_count(e, '}') == 0);
    assert("{{"@.subrange(2, 2) =~= e);
    assert("}}"@.subrange(2, 2) =~= e);
    assert("{{"@.subrange(1, 2) =~= seq!['{']);
    assert("}}"@.subrange(1, 2) =~= seq!['}']);
    assert(pair_count(seq!['{'], '}') == 0);
    assert(pair_count(seq!['}'], '{') == 0);
}


/// A brace-safe text followed by one without braces: still brace-safe, with
/// the same `{{` and `}}` counts.
pub proof fn lemma_safe_free_counts(a: Seq<char>, b: Seq<char>)
    requires
        brace_safe(a),
        brace_free(b),
    ensures
        brace_safe(a + b),
        opens(a + b) == opens(a),
        closes(a + b) == closes(a),
{
    lemma_safe_then_free(a, b);
    lemma_brace_free_safe(b);
    lemma_counts_free(b);
    lemma_counts_safe(a, b);
}

/// Two brace-safe texts one after the other: brace-safe, with the counts
/// added up.
pub proof fn lemma_safe_safe_counts(a: Seq<char>, b: Seq<char>)
    requires
        brace_safe(a),
        brace_safe(b),
    ensures
        brace_safe(a + b),
        opens(a + b) == opens(a) + opens(b),
        closes(a + b) == closes(a) + closes(b),
{
    lemma_safe_concat(a, b);
    lemma_counts_safe(a, b);
}

/// `{{` followed by text without braces.
pub proof fn lemma_open_then(x: Seq<char>)
    requires
        brace_free(x),
    ensures
        opens("{{"@ + x) == 1,
        closes("{{"@ + x) == 0,
{
    lemma_token_counts();
    lemma_counts_free(x);
    if x.len() > 0 {
        assert(x[0] != '{' && x[0] != '}');
    }
    reveal_strlit("{{");
    lemma_counts_join("{{"@, x);
}

/// Text without braces, `}}`, and text without braces.
pub proof fn lemma_then_close(x: Seq<char>, y: Seq<char>)
    requires
        brace_free(x),
        brace_free(y),
    ensures
        opens(x + "}}"@ + y) == 0,
        closes(x + "}}"@ + y) == 1,
{
    lemma_token_counts();
    lemma_counts_free(x);
    lemma_counts_free(y);
    reveal_strlit("}}");
    if x.len() > 0 {
        assert(x[x.len() - 1] != '}');
    }
    lemma_counts_join(x, "}}"@);
    if y.len() > 0 {
        assert(y[0] != '}');
        assert((x + "}}"@).last() == '}');
    }
    lemma_counts_join(x + "}}"@, y);
}

/// `{{`, text without braces, `}}`, and text without braces.
pub proof fn lemma_open_close(x: Seq<char>, y: Seq<char>)
    requires
        brace_free(x),
        brace_free(y),
    ensures
        opens("{{"@ + x + "}}"@ + y) == 1,
        closes("{{"@ + x + "}}"@ + y) == 1,
{
    lemma_open_then(x);
    lemma_then_close(Seq::<char>::empty(), y);
    reveal_strlit("{{");
    reveal_strlit("}}");
    let a = "{{"@ + x;
    let b = Seq::<char>::empty() + "}}"@ + y;
    if x.len() > 0 {
        assert(a.last() == x.last());
        assert(x[x.len() - 1] != '}');
    }
    assert(b[0] == '}');
    lemma_counts_join(a, b);
    assert(a + b =~= "{{"@ + x + "}}"@ + y);
}

/// Text without braces, `{{`, and text without braces.
pub proof fn lemma_free_open(x: Seq<char>, y: Seq<char>)
    requires
        brace_free(x),
        brace_free(y),
    ensures
        opens(x + "{{"@ + y) == 1,
        closes(x + "{{"@ + y) == 0,
{
    lemma_open_then(y);
    lemma_counts_free(x);
    reveal_strlit("{{");
    if x.len() > 0 {
        assert(x[x.len() - 1] != '{');
    }
    lemma_counts_join(x, "{{"@ + y);
    assert(x + ("{{"@ + y) =~= x + "{{"@ + y);
}

/// Text without braces, one brace, and text without braces: neither `{{`
/// nor `}}`.
pub proof fn lemma_lone_brace(x: Seq<char>, b: char, y: Seq<char>)
    requires
        brace_free(x),
        brace_free(y),
        b == '{' || b == '}',
    ensures
        opens(x + seq![b] + y) == 0,
        closes(x + seq![b] + y) == 0,
{
    lemma_counts_free(x);
    lemma_counts_free(y);
    assert(pair_count(seq![b], '{') == 0);
    assert(pair_count(seq![b], '}') == 0);
    if x.len() > 0 {
        assert(x[x.len() - 1] != b);
    }
    lemma_counts_join(x, seq![b]);
    if y.len() > 0 {
        assert(y[0] != b);
        assert((x + seq![b]).last() == b);
    }
    lemma_counts_join(x + seq![b], y);
}

/// `t` occurs in `s`.
pub open spec fn contains_text(s: Seq<char>, t: Seq<char>) -> bool {
    exists|i: int| 0 <= i && i + t.len() <= s.len() && #[trigger] s.subrange(i, i + t.len()) == t
}

/// A text occurs in itself with anything around it.
pub proof fn lemma_contains_middle(a: Seq<char>, t: Seq<char>, b: Seq<char>)
    ensures
        contains_text(a + t + b, t),
{
    let s = a + t + b;
    assert(s.subrange(a.len() as int, (a.len() + t.len()) as int) =~= t);
}

/// What occurs in `x` occurs in `x` with anything around it.
pub proof fn lemma_contains_widen(a: Seq<char>, x: Seq<char>, b: Seq<char>, t: Seq<char>)
    requires
        contains_text(x, t),
    ensures
        contains_text(a + x + b, t),
{
    let i = choose|i: int| 0 <= i && i + t.len() <= x.len() && #[trigger] x.subrange(i, i + t.len()) == t;
    let s = a + x + b;
    assert(s.subrange(a.len() + i, a.len() + i + t.len()) =~= x.subrange(i, i + t.len()));
}

/// What occurs in `x` occurs in `x` followed by anything.
pub proof fn lemma_contains_extend(x: Seq<char>, y: Seq<char>, t: Seq<char>)
    requires
        contains_text(x, t),
    ensures
        contains_text(x + y, t),
{
    lemma_contains_widen(Seq::<char>::empty(), x, y, t);
    assert(Seq::<char>::empty() + x + y =~= x + y);
}

/// What occurs in `x` occurs in `x` preceded by anything.
pub proof fn lemma_contains_prepend(a: Seq<char>, x: Seq<char>, t: Seq<char>)
    requires
        contains_text(x, t),
    ensures
        contains_text(a + x, t),
{
    lemma_contains_widen(a, x, Seq::<char>::empty(), t);
    assert(a + x + Seq::<char>::empty() =~= a + x);
}

} // verus!
