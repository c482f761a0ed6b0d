//! Character-level string helpers shared by the other modules.

use vstd::prelude::*;

verus! {

broadcast use vstd::string::group_string_axioms;

/// `String::push`: appends one character at the end.
#[verifier::external_body]
pub(crate) fn push_char(s: &mut String, c: char)
    ensures
        final(s)@ == old(s)@.push(c),
{
    s.push(c)
}

/// The characters of a string slice, in order.
pub fn chars_of(s: &str) -> (v: Vec<char>)
    ensures
        v@ == s@,
{
    let mut v: Vec<char> = Vec::new();
    for c in it: s.chars()
        invariant
            it.seq() == s@,
            v@ == it.seq().take(it.index() as int),
    {
        v.push(c);
    }
    v
}

/// A string made of the given characters.
pub fn string_from_chars(cs: &Vec<char>) -> (s: String)
    ensures
        s@ == cs@,
{
    let mut s = String::new();
    let mut i: usize = 0;
    while i < cs.len()
        invariant
            i <= cs.len(),
            s@ == cs@.take(i as int),
        decreases cs.len() - i,
    {
        push_char(&mut s, cs[i]);
        i += 1;
        assert(s@ =~= cs@.take(i as int));
    }
    assert(cs@.take(cs.len() as int) =~= cs@);
    s
}

} // verus!

verus! {

/// ASCII lower-casing of one character; other characters are unchanged.
pub open spec fn ascii_lower(c: char) -> char {
    if 'A' <= c && c <= 'Z' {
        ((c as u32) + 32) as char
    } else {
        c
    }
}

/// ASCII upper-casing of one character; other characters are unchanged.
pub open spec fn ascii_upper(c: char) -> char {
    if 'a' <= c && c <= 'z' {
        ((c as u32) - 32) as char
    } else {
        c
    }
}

/// `char::to_ascii_lowercase`.
pub fn to_ascii_lower(c: char) -> (r: char)
    ensures
        r == ascii_lower(c),
{
    if 'A' <= c && c <= 'Z' {
        ((c as u8) + 32) as char
    } else {
        c
    }
}

/// `char::to_ascii_uppercase`.
pub fn to_ascii_upper(c: char) -> (r: char)
    ensures
        r == ascii_upper(c),
{
    if 'a' <= c && c <= 'z' {
        ((c as u8) - 32) as char
    } else {
        c
    }
}

} // verus!

verus! {

/// Two character sequences are equal once ASCII letters are lower-cased.
pub open spec fn eq_ignore_ascii_case_spec(a: Seq<char>, b: Seq<char>) -> bool {
    &&& a.len() == b.len()
    &&& forall|i: int| 0 <= i < a.len() ==> ascii_lower(#[trigger] a[i]) == ascii_lower(b[i])
}

/// `str::eq_ignore_ascii_case`.
pub fn eq_ignore_ascii_case(a: &str, b: &str) -> (r: bool)
    ensures
        r == eq_ignore_ascii_case_spec(a@, b@),
{
    let av = chars_of(a);
    let bv = chars_of(b);
    if av.len() != bv.len() {
        return false;
    }
    let mut i: usize = 0;
    while i < av.len()
        invariant
            av@ == a@,
            bv@ == b@,
            av.len() == bv.len(),
            i <= av.len(),
            forall|k: int| 0 <= k < i ==> ascii_lower(#[trigger] av@[k]) == ascii_lower(bv@[k]),
        decreases av.len() - i,
    {
        if to_ascii_lower(av[i]) != to_ascii_lower(bv[i]) {
            return false;
        }
        i += 1;
    }
    true
}

/// Characters with every ASCII letter lower-cased.
pub open spec fn ascii_lower_seq(s: Seq<char>) -> Seq<char> {
    s.map_values(|c: char| ascii_lower(c))
}

/// `str::to_ascii_lowercase`.
pub fn to_ascii_lowercase(s: &str) -> (r: String)
    ensures
        r@ == ascii_lower_seq(s@),
{
    let cs = chars_of(s);
    let mut out = String::new();
    let mut i: usize = 0;
    while i < cs.len()
        invariant
            cs@ == s@,
            i <= cs.len(),
            out@ == ascii_lower_seq(cs@.take(i as int)),
        decreases cs.len() - i,
    {
        let c = to_ascii_lower(cs[i]);
        push_char(&mut out, c);
        i += 1;
        assert(ascii_lower_seq(cs@.take(i as int)) =~= ascii_lower_seq(cs@.take(i - 1)).push(c));
    }
    assert(cs@.take(cs.len() as int) =~= cs@);
    out
}

/// The decimal digit character for `d` (0 to 9).
pub open spec fn digit_char(d: nat) -> char {
    ((d + 48) as u32) as char
}

/// Decimal representation of a natural number, without leading zeros.
pub open spec fn decimal_nat(n: nat) -> Seq<char>
    decreases n,
{
    if n < 10 {
        seq![digit_char(n)]
    } else {
        decimal_nat(n / 10).push(digit_char(n % 10))
    }
}

/// Decimal representation of an integer, as `Display` writes it.
pub open spec fn decimal_int(n: int) -> Seq<char> {
    if n < 0 {
        seq!['-'] + decimal_nat((-n) as nat)
    } else {
        decimal_nat(n as nat)
    }
}

fn digit(d: u64) -> (c: char)
    requires
        d < 10,
    ensures
        c == digit_char(d as nat),
{
    ((d as u8) + 48) as char
}

/// Decimal text of an unsigned number.
pub fn u64_to_decimal(n: u64) -> (s: String)
    ensures
        s@ == decimal_nat(n as nat),
{
    // digits collected from the least significant one
    let mut rev: Vec<char> = Vec::new();
    let mut m: u64 = n;
    loop
        invariant_except_break
            decimal_nat(n as nat) == decimal_nat(m as nat) + rev@.reverse(),
        ensures
            decimal_nat(n as nat) == rev@.reverse(),
        decreases m,
    {
        let d = digit(m % 10);
        if m < 10 {
            let ghost before = rev@;
            rev.push(d);
            assert(rev@.reverse() =~= seq![d] + before.reverse());
            assert(decimal_nat(m as nat) =~= seq![d]);
            break;
        }
        rev.push(d);
        assert(rev@.reverse() =~= seq![d] + rev@.drop_last().reverse());
        assert(decimal_nat(m as nat) == decimal_nat((m / 10) as nat).push(d));
        assert(decimal_nat((m / 10) as nat) + rev@.reverse() =~= decimal_nat((m / 10) as nat).push(d) + rev@.drop_last().reverse());
        m = m / 10;
    }
    let mut out: Vec<char> = Vec::new();
    let mut i: usize = rev.len();
    while i > 0
        invariant
            i <= rev.len(),
            out@ == rev@.subrange(i as int, rev.len() as int).reverse(),
        decreases i,
    {
        i -= 1;
        out.push(rev[i]);
        assert(out@ =~= rev@.subrange(i as int, rev.len() as int).reverse());
    }
    assert(rev@.subrange(0, rev.len() as int) =~= rev@);
    assert(out@ =~= decimal_nat(n as nat));
    string_from_chars(&out)
}

/// `i64` formatted with `Display`.
pub fn i64_to_decimal(n: i64) -> (s: String)
    ensures
        s@ == decimal_int(n as int),
{
    if n < 0 {
        let m: u64 = (-(n as i128)) as u64;
        let digits = u64_to_decimal(m);
        let mut s = String::new();
        push_char(&mut s, '-');
        s.append(digits.as_str());
        assert(s@ =~= seq!['-'] + decimal_nat((-n) as nat));
        s
    } else {
        u64_to_decimal(n as u64)
    }
}

} // verus!

verus! {

/// `str == str`.
pub fn str_eq(a: &str, b: &str) -> (r: bool)
    ensures
        r == (a@ == b@),
{
    let av = chars_of(a);
    let bv = chars_of(b);
    if av.len() != bv.len() {
        return false;
    }
    let mut i: usize = 0;
    while i < av.len()
        invariant
            av@ == a@,
            bv@ == b@,
            av.len() == bv.len(),
            i <= av.len(),
            forall|k: int| 0 <= k < i ==> av@[k] == bv@[k],
        decreases av.len() - i,
    {
        if av[i] != bv[i] {
            return false;
        }
        i += 1;
    }
    assert(av@ =~= bv@);
    true
}

/// What `str::to_lowercase` returns for a string: its Unicode lower-case form.
pub uninterp spec fn unicode_lowercase(s: Seq<char>) -> Seq<char>;

/// `str::to_lowercase`. The result is named by `unicode_lowercase` of the
/// characters given; nothing more is claimed of it (the mapping follows the
/// Unicode tables, with context-dependent rules for some letters).
#[verifier::external_body]
pub(crate) fn to_lowercase(s: &str) -> (r: String)
    ensures
        r@ == unicode_lowercase(s@),
{
    s.to_lowercase()
}

/// Whether a character has the Unicode `White_Space` property: the ASCII
/// tab, line feed, vertical tab, form feed, carriage return and space, next
/// line, no-break space, Ogham space mark, the spaces from en quad to hair
/// space, line and paragraph separators, narrow no-break space, medium
/// mathematical space and ideographic space.
pub open spec fn unicode_whitespace(c: char) -> bool {
    ||| '\u{9}' <= c <= '\u{d}'
    ||| c == ' '
    ||| c == '\u{85}'
    ||| c == '\u{a0}'
    ||| c == '\u{1680}'
    ||| '\u{2000}' <= c <= '\u{200a}'
    ||| c == '\u{2028}'
    ||| c == '\u{2029}'
    ||| c == '\u{202f}'
    ||| c == '\u{205f}'
    ||| c == '\u{3000}'
}

/// `char::is_whitespace`: the Unicode `White_Space` property.
pub(crate) fn is_whitespace(c: char) -> (r: bool)
    ensures
        r == unicode_whitespace(c),
{
    ('\u{9}' <= c && c <= '\u{d}') || c == ' ' || c == '\u{85}' || c == '\u{a0}' || c == '\u{1680}'
        || ('\u{2000}' <= c && c <= '\u{200a}') || c == '\u{2028}' || c == '\u{2029}' || c
        == '\u{202f}' || c == '\u{205f}' || c == '\u{3000}'
}

/// Characters with leading and trailing white space removed.
pub open spec fn trim_spec(s: Seq<char>) -> Seq<char> {
    let t = s.take(trim_end_index(s));
    t.skip(trim_start_index(t))
}

/// Number of leading characters that are white space.
pub open spec fn trim_start_index(s: Seq<char>) -> int
    decreases s.len(),
{
    if s.len() == 0 {
        0
    } else if unicode_whitespace(s[0]) {
        1 + trim_start_index(s.drop_first())
    } else {
        0
    }
}

/// Index after the last character that is not white space.
pub open spec fn trim_end_index(s: Seq<char>) -> int
    decreases s.len(),
{
    if s.len() == 0 {
        0
    } else if unicode_whitespace(s.last()) {
        trim_end_index(s.drop_last())
    } else {
        s.len() as int
    }
}

} // verus!

verus! {

proof fn lemma_trim_end_bound(s: Seq<char>)
    ensures
        0 <= trim_end_index(s) <= s.len(),
    decreases s.len(),
{
    if s.len() > 0 && unicode_whitespace(s.last()) {
        lemma_trim_end_bound(s.drop_last());
    }
}

proof fn lemma_trim_start_bound(s: Seq<char>)
    ensures
        0 <= trim_start_index(s) <= s.len(),
    decreases s.len(),
{
    if s.len() > 0 && unicode_whitespace(s[0]) {
        lemma_trim_start_bound(s.drop_first());
    }
}

/// `str::trim`: the characters without leading and trailing white space.
pub fn trim(s: &str) -> (r: String)
    ensures
        r@ == trim_spec(s@),
{
    let cs = chars_of(s);
    let mut e: usize = cs.len();
    assert(s@.take(e as int) =~= s@);
    while e > 0 && is_whitespace(cs[e - 1])
        invariant
            cs@ == s@,
            e <= cs.len(),
            trim_end_index(s@) == trim_end_index(s@.take(e as int)),
        decreases e,
    {
        assert(s@.take(e as int).drop_last() =~= s@.take(e - 1));
        e -= 1;
    }
    assert(trim_end_index(s@.take(e as int)) == e as int) by {
        if e > 0 {
            assert(s@.take(e as int).last() == cs@[e - 1]);
        }
    }
    let ghost t = s@.take(e as int);
    let mut b: usize = 0;
    assert(t.skip(0) =~= t);
    while b < e && is_whitespace(cs[b])
        invariant
            cs@ == s@,
            e <= cs.len(),
            t == s@.take(e as int),
            b <= e,
            b + trim_start_index(t.skip(b as int)) == trim_start_index(t),
        decreases e - b,
    {
        assert(t.skip(b as int).drop_first() =~= t.skip(b + 1));
        assert(t.skip(b as int)[0] == cs@[b as int]);
        b += 1;
    }
    assert(trim_start_index(t.skip(b as int)) == 0) by {
        if b < e {
            assert(t.skip(b as int)[0] == cs@[b as int]);
        }
    }
    let mut out = String::new();
    let mut i: usize = b;
    while i < e
        invariant
            cs@ == s@,
            b <= i <= e <= cs.len(),
            out@ == s@.subrange(b as int, i as int),
        decreases e - i,
    {
        push_char(&mut out, cs[i]);
        i += 1;
        assert(out@ =~= s@.subrange(b as int, i as int));
    }
    assert(trim_spec(s@) =~= s@.subrange(b as int, e as int));
    out
}

} // verus!

verus! {

/// Characters without the `/` characters that end them.
pub open spec fn without_trailing_slashes(s: Seq<char>) -> Seq<char>
    decreases s.len(),
{
    if s.len() > 0 && s.last() == '/' {
        without_trailing_slashes(s.drop_last())
    } else {
        s
    }
}

/// `str::trim_end_matches('/')`.
pub fn trim_end_slashes(s: &str) -> (r: String)
    ensures
        r@ == without_trailing_slashes(s@),
{
    let cs = chars_of(s);
    let mut e: usize = cs.len();
    assert(s@.take(e as int) =~= s@);
    while e > 0 && cs[e - 1] == '/'
        invariant
            cs@ == s@,
            e <= cs.len(),
            without_trailing_slashes(s@) == without_trailing_slashes(s@.take(e as int)),
        decreases e,
    {
        assert(s@.take(e as int).drop_last() =~= s@.take(e - 1));
        e -= 1;
    }
    let mut out = String::new();
    let mut i: usize = 0;
    while i < e
        invariant
            cs@ == s@,
            i <= e <= cs.len(),
            out@ == s@.take(i as int),
        decreases e - i,
    {
        push_char(&mut out, cs[i]);
        i += 1;
        assert(out@ =~= s@.take(i as int));
    }
    out
}

/// Parts joined with a separator between each two of them.
pub open spec fn join(parts: Seq<Seq<char>>, sep: Seq<char>) -> Seq<char>
    decreases parts.len(),
{
    if parts.len() == 0 {
        Seq::empty()
    } else if parts.len() == 1 {
        parts[0]
    } else {
        join(parts.drop_last(), sep) + sep + parts.last()
    }
}

/// `[&str]::join`.
pub fn join_strs(parts: &Vec<&str>, sep: &str) -> (r: String)
    ensures
        r@ == join(parts@.map_values(|p: &str| p@), sep@),
{
    let ghost views = parts@.map_values(|p: &str| p@);
    let mut out = String::new();
    let mut i: usize = 0;
    while i < parts.len()
        invariant
            i <= parts.len(),
            views == parts@.map_values(|p: &str| p@),
            out@ == join(views.take(i as int), sep@),
        decreases parts.len() - i,
    {
        if i > 0 {
            out.append(sep);
        }
        out.append(parts[i]);
        assert(views.take(i + 1).drop_last() =~= views.take(i as int));
        i += 1;
    }
    assert(views.take(parts.len() as int) =~= views);
    out
}

/// Joins owned strings with a separator.
pub fn join_strings(parts: &Vec<String>, sep: &str) -> (r: String)
    ensures
        r@ == join(parts@.map_values(|p: String| p@), sep@),
{
    let ghost views = parts@.map_values(|p: String| p@);
    let mut out = String::new();
    let mut i: usize = 0;
    while i < parts.len()
        invariant
            i <= parts.len(),
            views == parts@.map_values(|p: String| p@),
            out@ == join(views.take(i as int), sep@),
        decreases parts.len() - i,
    {
        if i > 0 {
            out.append(sep);
        }
        out.append(parts[i].as_str());
        assert(views.take(i + 1).drop_last() =~= views.take(i as int));
        i += 1;
    }
    assert(views.take(parts.len() as int) =~= views);
    out
}

} // verus!

verus! {

/// `a` comes strictly before `b` in lexicographic order of characters (the
/// order in which `String` compares).
pub open spec fn lex_lt(a: Seq<char>, b: Seq<char>) -> bool
    decreases a.len(),
{
    if a.len() == 0 {
        b.len() > 0
    } else if b.len() == 0 {
        false
    } else if a[0] != b[0] {
        a[0] < b[0]
    } else {
        lex_lt(a.drop_first(), b.drop_first())
    }
}

/// `a` does not come after `b`.
pub open spec fn lex_le(a: Seq<char>, b: Seq<char>) -> bool {
    !lex_lt(b, a)
}

/// Strict lexicographic order is asymmetric.
pub proof fn lemma_lex_lt_asymmetric(a: Seq<char>, b: Seq<char>)
    ensures
        lex_lt(a, b) ==> !lex_lt(b, a),
    decreases a.len(),
{
    if a.len() > 0 && b.len() > 0 && a[0] == b[0] {
        lemma_lex_lt_asymmetric(a.drop_first(), b.drop_first());
    }
}

/// Whether `a` comes strictly before `b`.
pub fn str_lt(a: &str, b: &str) -> (r: bool)
    ensures
        r == lex_lt(a@, b@),
{
    let av = chars_of(a);
    let bv = chars_of(b);
    let mut i: usize = 0;
    assert(a@.skip(0) =~= a@);
    assert(b@.skip(0) =~= b@);
    while i < av.len() && i < bv.len() && av[i] == bv[i]
        invariant
            av@ == a@,
            bv@ == b@,
            i <= av.len(),
            i <= bv.len(),
            lex_lt(a@, b@) == lex_lt(a@.skip(i as int), b@.skip(i as int)),
        decreases av.len() - i,
    {
        assert(a@.skip(i as int).drop_first() =~= a@.skip(i + 1));
        assert(b@.skip(i as int).drop_first() =~= b@.skip(i + 1));
        i += 1;
    }
    if i == av.len() {
        i < bv.len()
    } else if i == bv.len() {
        false
    } else {
        assert(a@.skip(i as int)[0] == av@[i as int]);
        assert(b@.skip(i as int)[0] == bv@[i as int]);
        av[i] < bv[i]
    }
}

} // verus!

verus! {

/// Lexicographic order is total: of two different sequences one comes first.
pub proof fn lemma_lex_trichotomy(a: Seq<char>, b: Seq<char>)
    ensures
        lex_lt(a, b) || lex_lt(b, a) || a == b,
    decreases a.len(),
{
    if a.len() == 0 {
        if b.len() == 0 {
            assert(a =~= b);
        }
    } else if b.len() > 0 && a[0] == b[0] {
        lemma_lex_trichotomy(a.drop_first(), b.drop_first());
        if a.drop_first() == b.drop_first() {
            assert(a =~= seq![a[0]] + a.drop_first());
            assert(b =~= seq![b[0]] + b.drop_first());
        }
    }
}

/// Strict lexicographic order is transitive.
pub proof fn lemma_lex_lt_transitive(a: Seq<char>, b: Seq<char>, c: Seq<char>)
    requires
        lex_lt(a, b),
        lex_lt(b, c),
    ensures
        lex_lt(a, c),
    decreases a.len(),
{
    if a.len() > 0 && b.len() > 0 && c.len() > 0 && a[0] == b[0] && b[0] == c[0] {
        lemma_lex_lt_transitive(a.drop_first(), b.drop_first(), c.drop_first());
    }
}

/// Lexicographic `<=` is transitive.
pub proof fn lemma_lex_le_transitive(a: Seq<char>, b: Seq<char>, c: Seq<char>)
    requires
        lex_le(a, b),
        lex_le(b, c),
    ensures
        lex_le(a, c),
{
    lemma_lex_trichotomy(a, b);
    lemma_lex_trichotomy(b, c);
    if lex_lt(c, a) {
        if lex_lt(a, b) {
            lemma_lex_lt_transitive(c, a, b);
        }
    }
}

} // verus!

verus! {

/// The pieces of a text between separators, empty pieces included (as
/// `str::split` gives them).
pub open spec fn split_on(s: Seq<char>, sep: char) -> Seq<Seq<char>>
    decreases s.len(),
{
    if s.len() == 0 {
        seq![Seq::empty()]
    } else if s.last() == sep {
        split_on(s.drop_last(), sep).push(Seq::empty())
    } else {
        let parts = split_on(s.drop_last(), sep);
        parts.update(parts.len() - 1, parts.last().push(s.last()))
    }
}

proof fn lemma_split_on_nonempty(s: Seq<char>, sep: char)
    ensures
        split_on(s, sep).len() >= 1,
    decreases s.len(),
{
    if s.len() > 0 {
        lemma_split_on_nonempty(s.drop_last(), sep);
    }
}

/// `str::split` on a character: all pieces between separators.
pub fn split_all(s: &str, sep: char) -> (r: Vec<String>)
    ensures
        r@.map_values(|w: String| w@) == split_on(s@, sep),
{
    let cs = chars_of(s);
    let mut pieces: Vec<String> = Vec::new();
    let mut cur = String::new();
    let mut i: usize = 0;
    assert(s@.take(0) =~= Seq::<char>::empty());
    assert(split_on(Seq::<char>::empty(), sep).drop_last() =~= Seq::<Seq<char>>::empty());
    while i < cs.len()
        invariant
            cs@ == s@,
            i <= cs.len(),
            pieces@.map_values(|w: String| w@) == split_on(s@.take(i as int), sep).drop_last(),
            cur@ == split_on(s@.take(i as int), sep).last(),
        decreases cs.len() - i,
    {
        let ghost sp = split_on(s@.take(i as int), sep);
        proof {
            lemma_split_on_nonempty(s@.take(i as int), sep);
            assert(s@.take(i + 1).drop_last() =~= s@.take(i as int));
        }
        if cs[i] == sep {
            let ghost before = pieces@.map_values(|w: String| w@);
            let ghost curv = cur@;
            pieces.push(cur);
            cur = String::new();
            assert(pieces@.map_values(|w: String| w@) =~= before.push(curv));
            assert(sp =~= sp.drop_last().push(sp.last()));
            assert(split_on(s@.take(i + 1), sep).drop_last() =~= sp);
        } else {
            push_char(&mut cur, cs[i]);
            assert(split_on(s@.take(i + 1), sep).drop_last() =~= sp.drop_last());
        }
        i += 1;
    }
    proof {
        assert(s@.take(cs.len() as int) =~= s@);
        lemma_split_on_nonempty(s@, sep);
    }
    let ghost sp = split_on(s@, sep);
    let ghost before = pieces@.map_values(|w: String| w@);
    let ghost curv = cur@;
    pieces.push(cur);
    assert(pieces@.map_values(|w: String| w@) =~= before.push(curv));
    assert(sp =~= sp.drop_last().push(sp.last()));
    pieces
}

/// The non-empty strings of a list, in order.
pub fn keep_nonempty(parts: &Vec<String>) -> (r: Vec<String>)
    ensures
        r@.map_values(|w: String| w@) == parts@.map_values(|w: String| w@).filter(
            |w: Seq<char>| w.len() > 0,
        ),
{
    let ghost f = |w: Seq<char>| w.len() > 0;
    let ghost pv = parts@.map_values(|w: String| w@);
    let mut r: Vec<String> = Vec::new();
    let mut i: usize = 0;
    assert(pv.take(0) =~= Seq::<Seq<char>>::empty());
    while i < parts.len()
        invariant
            i <= parts.len(),
            f == (|w: Seq<char>| w.len() > 0),
            pv == parts@.map_values(|w: String| w@),
            r@.map_values(|w: String| w@) == pv.take(i as int).filter(f),
        decreases parts.len() - i,
    {
        proof {
            assert(pv.take(i + 1) =~= pv.take(i as int).push(pv[i as int]));
            pv.take(i as int).lemma_filter_push(pv[i as int], f);
        }
        if parts[i].as_str().unicode_len() > 0 {
            r.push(parts[i].clone());
            assert(r@.map_values(|w: String| w@) =~= pv.take(i as int).filter(f).push(pv[i as int]));
        }
        i += 1;
    }
    assert(pv.take(parts.len() as int) =~= pv);
    r
}

} // verus!

verus! {

/// Value of a sequence of ASCII digits, most significant first.
pub open spec fn digits_value(d: Seq<char>) -> nat
    decreases d.len(),
{
    if d.len() == 0 {
        0
    } else {
        digits_value(d.drop_last()) * 10 + ((d.last() as u32) - 48) as nat
    }
}

/// All characters are ASCII digits.
pub open spec fn all_digits(d: Seq<char>) -> bool {
    forall|i: int| 0 <= i < d.len() ==> '0' <= #[trigger] d[i] && d[i] <= '9'
}

/// What `str::parse::<i64>` accepts: an optional `+` or `-` sign and at
/// least one ASCII digit, whose value fits in `i64`.
pub open spec fn parse_i64_spec(s: Seq<char>) -> Option<i64> {
    let neg = s.len() > 0 && s[0] == '-';
    let signed = s.len() > 0 && (s[0] == '-' || s[0] == '+');
    let d = if signed { s.skip(1) } else { s };
    let v: int = if neg { -(digits_value(d) as int) } else { digits_value(d) as int };
    if d.len() > 0 && all_digits(d) && i64::MIN <= v <= i64::MAX {
        Some(v as i64)
    } else {
        None
    }
}

proof fn lemma_digits_value_grows(d: Seq<char>, c: char)
    requires
        '0' <= c <= '9',
    ensures
        digits_value(d.push(c)) >= digits_value(d),
        digits_value(d.push(c)) == digits_value(d) * 10 + ((c as u32) - 48) as nat,
{
    assert(d.push(c).drop_last() =~= d);
}

/// `str::parse::<i64>`.
pub fn parse_i64(s: &str) -> (r: Option<i64>)
    ensures
        r == parse_i64_spec(s@),
{
    let cs = chars_of(s);
    if cs.len() == 0 {
        return None;
    }
    let neg = cs[0] == '-';
    let start: usize = if cs[0] == '-' || cs[0] == '+' { 1 } else { 0 };
    let ghost d = if start == 1 { s@.skip(1) } else { s@ };
    assert(d =~= s@.subrange(start as int, s@.len() as int));
    assert(s@[0] == cs@[0]);
    assert(d == (if s@.len() > 0 && (s@[0] == '-' || s@[0] == '+') { s@.skip(1) } else { s@ }));
    assert(neg == (s@.len() > 0 && s@[0] == '-'));
    if start >= cs.len() {
        return None;
    }
    // value so far, stopped from growing once it is past every `i64`
    let limit: u128 = 0x8000_0000_0000_0000;
    let mut v: u128 = 0;
    let mut big = false;
    let mut i: usize = start;
    assert(s@.subrange(start as int, start as int) =~= Seq::<char>::empty());
    while i < cs.len()
        invariant
            cs@ == s@,
            start <= i <= cs.len(),
            start <= 1,
            d == s@.subrange(start as int, s@.len() as int),
            d == (if s@.len() > 0 && (s@[0] == '-' || s@[0] == '+') { s@.skip(1) } else { s@ }),
            all_digits(s@.subrange(start as int, i as int)),
            !big ==> v == digits_value(s@.subrange(start as int, i as int)) && v <= limit,
            big ==> digits_value(s@.subrange(start as int, i as int)) > limit,
            limit == 0x8000_0000_0000_0000,
        decreases cs.len() - i,
    {
        let c = cs[i];
        if c < '0' || c > '9' {
            assert(d[i - start] == c);
            assert(!all_digits(d));
            assert(parse_i64_spec(s@) is None);
            return None;
        }
        let ghost pre = s@.subrange(start as int, i as int);
        assert(s@.subrange(start as int, i + 1) =~= pre.push(c));
        proof {
            lemma_digits_value_grows(pre, c);
        }
        if !big {
            let nv = v * 10 + ((c as u32) - 48) as u128;
            if nv > limit {
                big = true;
            } else {
                v = nv;
            }
        }
        i += 1;
    }
    assert(s@.subrange(start as int, cs.len() as int) =~= d);
    if big {
        return None;
    }
    if neg {
        if v == limit {
            Some(i64::MIN)
        } else {
            Some(-(v as i64))
        }
    } else {
        if v >= limit {
            None
        } else {
            Some(v as i64)
        }
    }
}

} // verus!
