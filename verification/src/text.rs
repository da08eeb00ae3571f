//! Text utilities: character access, ordering of names, path fragments.

use vstd::prelude::*;
use vstd::string::*;
use itertools::Itertools;
use crate::platform::Platform;

verus! {

/// Appends one character to a string.
///
/// Trusted: `String::push` of the standard library, which appends the given
/// character to the end of the string.
#[verifier::external_body]
pub(crate) fn push_char(s: &mut String, c: char)
    ensures
        final(s)@ == old(s)@.push(c),
{
    s.push(c)
}

/// The characters of `s`, in order.
pub fn to_chars(s: &str) -> (v: Vec<char>)
    ensures
        v@ == s@,
{
    let mut v: Vec<char> = Vec::new();
    for c in it: s.chars()
        invariant
            v@ == it.seq().take(it.index() as int),
            it.seq() == s@,
    {
        v.push(c);
    }
    v
}

/// The string made of the characters `v[from..to]`.
pub fn from_chars(v: &Vec<char>, from: usize, to: usize) -> (s: String)
    requires
        from <= to <= v.len(),
    ensures
        s@ == v@.subrange(from as int, to as int),
{
    let mut s = String::new();
    let mut i: usize = from;
    while i < to
        invariant
            from <= i <= to <= v.len(),
            s@ == v@.subrange(from as int, i as int),
        decreases to - i,
    {
        push_char(&mut s, v[i]);
        i += 1;
    }
    s
}

/// Lexicographic "less than or equal" on character sequences from position
/// `i` on, comparing characters by code point.
pub open spec fn le_from(a: Seq<char>, b: Seq<char>, i: int) -> bool
    decreases a.len() - i,
{
    if i < 0 || i >= a.len() {
        true
    } else if i >= b.len() {
        false
    } else if a[i] != b[i] {
        (a[i] as u32) < (b[i] as u32)
    } else {
        le_from(a, b, i + 1)
    }
}

/// The order in which names are listed: lexicographic by code point, a proper
/// prefix before its extensions.
pub open spec fn name_le(a: Seq<char>, b: Seq<char>) -> bool {
    le_from(a, b, 0)
}

/// Any two names are comparable.
pub proof fn lemma_name_le_total(a: Seq<char>, b: Seq<char>)
    ensures
        name_le(a, b) || name_le(b, a),
{
    lemma_le_from_total(a, b, 0);
}

/// Totality of the order, from position `i` on.
proof fn lemma_le_from_total(a: Seq<char>, b: Seq<char>, i: int)
    requires
        0 <= i,
    ensures
        le_from(a, b, i) || le_from(b, a, i),
    decreases a.len() - i,
{
    if i < a.len() && i < b.len() {
        if a[i] == b[i] {
            lemma_le_from_total(a, b, i + 1);
        } else {
            vstd::utf8::char_u32_cast(a[i], a[i] as u32);
            vstd::utf8::char_u32_cast(b[i], b[i] as u32);
        }
    }
}

/// Every name is listed no later than itself.
pub proof fn lemma_name_le_reflexive(a: Seq<char>)
    ensures
        name_le(a, a),
{
    lemma_le_from_reflexive(a, 0);
}

/// Reflexivity of the order, from position `i` on.
proof fn lemma_le_from_reflexive(a: Seq<char>, i: int)
    requires
        0 <= i,
    ensures
        le_from(a, a, i),
    decreases a.len() - i,
{
    if i < a.len() {
        lemma_le_from_reflexive(a, i + 1);
    }
}

/// The order of names is transitive.
pub proof fn lemma_name_le_transitive(a: Seq<char>, b: Seq<char>, c: Seq<char>)
    requires
        name_le(a, b),
        name_le(b, c),
    ensures
        name_le(a, c),
{
    lemma_le_from_transitive(a, b, c, 0);
}

/// Transitivity of the order, from position `i` on.
proof fn lemma_le_from_transitive(a: Seq<char>, b: Seq<char>, c: Seq<char>, i: int)
    requires
        0 <= i,
        le_from(a, b, i),
        le_from(b, c, i),
    ensures
        le_from(a, c, i),
    decreases a.len() - i,
{
    if i < a.len() && a[i] == b[i] && b[i] == c[i] {
        lemma_le_from_transitive(a, b, c, i + 1);
    }
}

/// Two names that each come no later than the other are the same name.
pub proof fn lemma_name_le_antisymmetric(a: Seq<char>, b: Seq<char>)
    requires
        name_le(a, b),
        name_le(b, a),
    ensures
        a == b,
{
    assert(a.take(0) =~= b.take(0));
    lemma_le_from_antisymmetric(a, b, 0);
}

/// Antisymmetry of the order, for names that agree before position `i`.
proof fn lemma_le_from_antisymmetric(a: Seq<char>, b: Seq<char>, i: int)
    requires
        0 <= i <= a.len(),
        i <= b.len(),
        a.take(i) == b.take(i),
        le_from(a, b, i),
        le_from(b, a, i),
    ensures
        a == b,
    decreases a.len() - i,
{
    if i < a.len() {
        assert(a.take(i + 1) =~= a.take(i).push(a[i]));
        assert(b.take(i + 1) =~= b.take(i).push(b[i]));
        lemma_le_from_antisymmetric(a, b, i + 1);
    } else {
        assert(a.take(i) =~= a);
        assert(b.take(i) =~= b);
    }
}

/// Whether `a` is listed no later than `b`.
pub fn str_le(a: &str, b: &str) -> (r: bool)
    ensures
        r == name_le(a@, b@),
{
    let x = to_chars(a);
    let y = to_chars(b);
    let mut i: usize = 0;
    while i < x.len()
        invariant
            i <= x.len(),
            x@ == a@,
            y@ == b@,
            name_le(a@, b@) == le_from(a@, b@, i as int),
        decreases x.len() - i,
    {
        if i >= y.len() {
            return false;
        }
        let cx: char = x[i];
        let cy: char = y[i];
        if cx != cy {
            return (cx as u32) < (cy as u32);
        }
        i += 1;
    }
    true
}

/// The character that separates the components of a path on `platform`.
pub open spec fn separator(platform: Platform) -> char {
    match platform {
        Platform::Windows => '\\',
        Platform::Other => '/',
    }
}

/// `base` and `component` as one path: the two separated by the platform's
/// separator.
pub open spec fn join_path_spec(base: Seq<char>, component: Seq<char>, platform: Platform) -> Seq<
    char,
> {
    base.push(separator(platform)) + component
}

/// The path of `component` inside the directory `base`. `base` is expected
/// not to end in a separator and `component` to be relative.
pub fn join_path(base: &str, component: &str, platform: Platform) -> (path: String)
    ensures
        path@ == join_path_spec(base@, component@, platform),
{
    let mut path = String::from_str(base);
    match platform {
        Platform::Windows => push_char(&mut path, '\\'),
        Platform::Other => push_char(&mut path, '/'),
    }
    path.append(component);
    path
}

/// `text` with every backslash turned into a slash.
pub open spec fn slashed(text: Seq<char>) -> Seq<char> {
    Seq::new(text.len(), |i: int| if text[i] == '\\' { '/' } else { text[i] })
}

/// `text` with forward slashes only.
pub fn forward_slashes(text: &str) -> (out: String)
    ensures
        out@ == slashed(text@),
{
    let chars = to_chars(text);
    let mut out = String::new();
    let mut i: usize = 0;
    while i < chars.len()
        invariant
            i <= chars.len(),
            chars@ == text@,
            out@ == slashed(text@).take(i as int),
        decreases chars.len() - i,
    {
        let c: char = chars[i];
        if c == '\\' {
            push_char(&mut out, '/');
        } else {
            push_char(&mut out, c);
        }
        assert(slashed(text@).take(i + 1) =~= slashed(text@).take(i as int).push(
            slashed(text@)[i as int],
        ));
        i += 1;
    }
    assert(slashed(text@).take(i as int) =~= slashed(text@));
    out
}

/// The lines of `text`: what stands between its line feeds. A text with
/// `n` line feeds has `n + 1` lines, the last of them empty if the text
/// ends in a line feed.
pub open spec fn lines_of(text: Seq<char>) -> Seq<Seq<char>>
    decreases text.len(),
{
    if text.len() == 0 {
        seq![Seq::<char>::empty()]
    } else if text.last() == '\n' {
        lines_of(text.drop_last()).push(Seq::<char>::empty())
    } else {
        let before = lines_of(text.drop_last());
        before.drop_last().push(before.last().push(text.last()))
    }
}

/// Every text has a line, and no line holds a line feed.
pub proof fn lemma_lines_of(text: Seq<char>)
    ensures
        lines_of(text).len() >= 1,
        forall|i: int, j: int|
            0 <= i < lines_of(text).len() && 0 <= j < lines_of(text)[i].len() ==> lines_of(
                text,
            )[i][j] != '\n',
    decreases text.len(),
{
    if text.len() > 0 {
        lemma_lines_of(text.drop_last());
    }
}

/// The lines of a text, joined by line feeds, are the text.
pub proof fn lemma_lines_round_trip(text: Seq<char>)
    ensures
        joined(lines_of(text), seq!['\n']) == text,
    decreases text.len(),
{
    let sep = seq!['\n'];
    if text.len() == 0 {
        assert(joined(lines_of(text), sep) =~= text);
    } else {
        let before = lines_of(text.drop_last());
        lemma_lines_of(text.drop_last());
        lemma_lines_round_trip(text.drop_last());
        let now = lines_of(text);
        if text.last() == '\n' {
            assert(now.drop_last() =~= before);
            assert(joined(now, sep) =~= text.drop_last() + sep + Seq::<char>::empty());
            assert(joined(now, sep) =~= text);
        } else if before.len() == 1 {
            assert(now =~= seq![before[0].push(text.last())]);
            assert(joined(now, sep) =~= text.drop_last().push(text.last()));
            assert(joined(now, sep) =~= text);
        } else {
            assert(now.drop_last() =~= before.drop_last());
            assert(joined(now, sep) =~= (joined(before.drop_last(), sep) + sep + before.last()).push(
                text.last(),
            ));
            assert(joined(now, sep) =~= text);
        }
    }
}

/// Splits `text` at its line feeds.
pub fn split_lines(text: &str) -> (lines: Vec<String>)
    ensures
        lines.deep_view() == lines_of(text@),
{
    let chars = to_chars(text);
    let mut lines: Vec<String> = Vec::new();
    let mut current = String::new();
    let mut i: usize = 0;
    assert(text@.take(0) =~= Seq::<char>::empty());
    assert(lines.deep_view().push(current@) =~= lines_of(text@.take(0)));
    while i < chars.len()
        invariant
            i <= chars.len(),
            chars@ == text@,
            lines.deep_view().push(current@) == lines_of(text@.take(i as int)),
        decreases chars.len() - i,
    {
        let c: char = chars[i];
        let ghost before = lines.deep_view();
        let ghost line = current@;
        assert(text@.take(i + 1).drop_last() =~= text@.take(i as int));
        if c == '\n' {
            lines.push(current);
            current = String::new();
            assert(lines.deep_view() =~= before.push(line));
        } else {
            push_char(&mut current, c);
            assert(before.push(line).drop_last() =~= before);
        }
        i += 1;
    }
    assert(text@.take(i as int) =~= text@);
    let ghost before = lines.deep_view();
    lines.push(current);
    assert(lines.deep_view() =~= before.push(current@));
    lines
}

/// Whether `needle` stands in `text` at position `k`.
pub open spec fn occurs_at(text: Seq<char>, needle: Seq<char>, k: int) -> bool {
    0 <= k && k + needle.len() <= text.len() && text.subrange(k, k + needle.len()) == needle
}

/// Whether `needle` stands somewhere in `text`.
pub open spec fn occurs(text: Seq<char>, needle: Seq<char>) -> bool {
    exists|k: int| occurs_at(text, needle, k)
}

/// `text` with every occurrence of `from` replaced by `to`, the occurrences
/// taken from left to right and none overlapping another. An empty `from`
/// occurs nowhere.
pub open spec fn replaced(text: Seq<char>, from: Seq<char>, to: Seq<char>) -> Seq<char>
    decreases text.len(),
{
    if from.len() == 0 || text.len() < from.len() {
        text
    } else if occurs_at(text, from, 0) {
        to + replaced(text.skip(from.len() as int), from, to)
    } else {
        seq![text[0]] + replaced(text.skip(1), from, to)
    }
}

/// A text in which `from` does not occur is left as it is.
pub proof fn lemma_replaced_without_occurrence(text: Seq<char>, from: Seq<char>, to: Seq<char>)
    requires
        !occurs(text, from),
    ensures
        replaced(text, from, to) == text,
    decreases text.len(),
{
    if from.len() == 0 || text.len() < from.len() {
    } else {
        assert(!occurs_at(text, from, 0));
        let rest = text.skip(1);
        assert(!occurs(rest, from)) by {
            if occurs(rest, from) {
                let k = choose|k: int| occurs_at(rest, from, k);
                assert(text.subrange(k + 1, k + 1 + from.len()) =~= rest.subrange(
                    k,
                    k + from.len(),
                ));
                assert(occurs_at(text, from, k + 1));
            }
        }
        lemma_replaced_without_occurrence(rest, from, to);
        assert(seq![text[0]] + rest =~= text);
    }
}

/// Whether `needle` stands in `text` at position `at`.
fn stands_at(text: &Vec<char>, at: usize, needle: &Vec<char>) -> (found: bool)
    requires
        at <= text.len(),
    ensures
        found == occurs_at(text@, needle@, at as int),
{
    if needle.len() > text.len() - at {
        return false;
    }
    let mut j: usize = 0;
    while j < needle.len()
        invariant
            j <= needle.len(),
            at + needle.len() <= text.len(),
            forall|k: int| 0 <= k < j ==> text@[at + k] == needle@[k],
        decreases needle.len() - j,
    {
        if text[at + j] != needle[j] {
            assert(text@.subrange(at as int, at + needle.len())[j as int] != needle@[j as int]);
            return false;
        }
        j += 1;
    }
    assert(text@.subrange(at as int, at + needle.len()) =~= needle@);
    true
}

/// Replaces every occurrence of `from` in `text` by `to`.
pub fn replace_literal(text: &str, from: &str, to: &str) -> (out: String)
    ensures
        out@ == replaced(text@, from@, to@),
{
    let chars = to_chars(text);
    let needle = to_chars(from);
    if needle.len() == 0 {
        return String::from_str(text);
    }
    let mut out = String::new();
    let mut i: usize = 0;
    assert(text@.skip(0) =~= text@);
    while i < chars.len()
        invariant
            i <= chars.len(),
            chars@ == text@,
            needle@ == from@,
            needle.len() > 0,
            out@ + replaced(text@.skip(i as int), from@, to@) == replaced(text@, from@, to@),
        decreases chars.len() - i,
    {
        let ghost rest = text@.skip(i as int);
        let ghost before = out@;
        if stands_at(&chars, i, &needle) {
            assert(rest.subrange(0, from@.len() as int) =~= text@.subrange(
                i as int,
                i + from@.len(),
            ));
            assert(rest.skip(from@.len() as int) =~= text@.skip(i + from@.len()));
            out.append(to);
            i += needle.len();
            assert(out@ + replaced(text@.skip(i as int), from@, to@) =~= before + replaced(
                rest,
                from@,
                to@,
            ));
        } else {
            proof {
                assert(rest.len() >= from@.len() ==> rest.subrange(0, from@.len() as int)
                    =~= text@.subrange(i as int, i + from@.len()));
                assert(rest.skip(1) =~= text@.skip(i + 1));
                assert(rest[0] == chars@[i as int]);
                if rest.len() < from@.len() {
                    assert(replaced(rest, from@, to@) == rest);
                    assert(replaced(rest.skip(1), from@, to@) == rest.skip(1));
                    assert(seq![rest[0]] + rest.skip(1) =~= rest);
                }
            }
            push_char(&mut out, chars[i]);
            i += 1;
            assert(out@ + replaced(text@.skip(i as int), from@, to@) =~= before + replaced(
                rest,
                from@,
                to@,
            ));
        }
    }
    assert(text@.skip(i as int) =~= Seq::<char>::empty());
    assert(out@ + Seq::<char>::empty() =~= out@);
    out
}

/// The decimal digit for `d`.
pub open spec fn digit(d: int) -> char {
    if d == 0 {
        '0'
    } else if d == 1 {
        '1'
    } else if d == 2 {
        '2'
    } else if d == 3 {
        '3'
    } else if d == 4 {
        '4'
    } else if d == 5 {
        '5'
    } else if d == 6 {
        '6'
    } else if d == 7 {
        '7'
    } else if d == 8 {
        '8'
    } else {
        '9'
    }
}

/// The decimal digits of `n`, most significant first, without leading
/// zeros.
pub open spec fn digits(n: nat) -> Seq<char>
    decreases n,
{
    if n < 10 {
        seq![digit(n as int)]
    } else {
        digits(n / 10).push(digit((n % 10) as int))
    }
}

/// `n` in decimal notation, with a minus sign if it is negative.
pub open spec fn decimal_spec(n: int) -> Seq<char> {
    if n < 0 {
        seq!['-'] + digits((-n) as nat)
    } else {
        digits(n as nat)
    }
}

/// The character for the digit `d`.
fn digit_char(d: u64) -> (c: char)
    requires
        d < 10,
    ensures
        c == digit(d as int),
{
    if d == 0 {
        '0'
    } else if d == 1 {
        '1'
    } else if d == 2 {
        '2'
    } else if d == 3 {
        '3'
    } else if d == 4 {
        '4'
    } else if d == 5 {
        '5'
    } else if d == 6 {
        '6'
    } else if d == 7 {
        '7'
    } else if d == 8 {
        '8'
    } else {
        '9'
    }
}

/// Appends the decimal digits of `n` to `out`.
fn push_digits(out: &mut String, n: u64)
    ensures
        final(out)@ == old(out)@ + digits(n as nat),
    decreases n,
{
    if n < 10 {
        push_char(out, digit_char(n));
        assert(out@ =~= old(out)@ + digits(n as nat));
    } else {
        push_digits(out, n / 10);
        push_char(out, digit_char(n % 10));
        assert(out@ =~= old(out)@ + digits(n as nat));
    }
}

/// `n` in decimal notation.
pub fn decimal(n: i32) -> (out: String)
    ensures
        out@ == decimal_spec(n as int),
{
    let mut out = String::new();
    if n < 0 {
        push_char(&mut out, '-');
        let magnitude: u64 = (-(n as i64)) as u64;
        push_digits(&mut out, magnitude);
        assert(out@ =~= decimal_spec(n as int));
    } else {
        push_digits(&mut out, n as u64);
        assert(out@ =~= decimal_spec(n as int));
    }
    out
}

/// `items` written one after the other with `sep` between neighbours.
pub open spec fn joined(items: Seq<Seq<char>>, sep: Seq<char>) -> Seq<char>
    decreases items.len(),
{
    if items.len() == 0 {
        Seq::<char>::empty()
    } else if items.len() == 1 {
        items[0]
    } else {
        joined(items.drop_last(), sep) + sep + items.last()
    }
}

/// The items as one string, separated by `sep`.
///
/// Trusted: `itertools::Itertools::join` on the iterator over `items`. It
/// returns the empty string for no items; otherwise it writes the first
/// item and then, for each further item, `sep` followed by the item.
#[verifier::external_body]
pub(crate) fn join(items: &Vec<String>, sep: &str) -> (out: String)
    ensures
        out@ == joined(items.deep_view(), sep@),
{
    items.iter().join(sep)
}

} // verus!
