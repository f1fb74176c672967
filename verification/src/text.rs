//! Text helpers over the `Seq<char>` view of strings.
//!
//! Every executable function here is specified by a spec function on
//! sequences of characters, so that callers can state exactly which text
//! they produce.

use vstd::prelude::*;

verus! {

/// `s` begins with `prefix`.
pub open spec fn has_prefix(s: Seq<char>, prefix: Seq<char>) -> bool {
    prefix.len() <= s.len() && s.subrange(0, prefix.len() as int) == prefix
}

/// `s` ends with `suffix`.
pub open spec fn has_suffix(s: Seq<char>, suffix: Seq<char>) -> bool {
    suffix.len() <= s.len() && s.subrange(s.len() - suffix.len(), s.len() as int) == suffix
}

/// `needle` stands in `hay` at index `at`.
pub open spec fn occurs_at(hay: Seq<char>, needle: Seq<char>, at: int) -> bool {
    0 <= at && at + needle.len() <= hay.len() && hay.subrange(at, at + needle.len()) == needle
}

/// `needle` stands somewhere in `hay`.
pub open spec fn contains_text(hay: Seq<char>, needle: Seq<char>) -> bool {
    exists|at: int| occurs_at(hay, needle, at)
}

/// The characters of a string slice, in order.
pub fn chars_of(s: &str) -> (out: Vec<char>)
    ensures
        out@ == s@,
{
    let mut out: Vec<char> = Vec::new();
    for c in it: s.chars()
        invariant
            out@ == it.seq().take(it.index() as int),
            it.seq() == s@,
    {
        out.push(c);
    }
    out
}

/// Appends one character to a string, as `String::push` does.
#[verifier::external_body]
pub(crate) fn push_char(s: &mut String, c: char)
    ensures
        final(s)@ == old(s)@.push(c),
{
    s.push(c);
}

/// The string made of the characters `v[from..to]`.
pub fn string_of(v: &Vec<char>, from: usize, to: usize) -> (out: String)
    requires
        from <= to <= v.len(),
    ensures
        out@ == v@.subrange(from as int, to as int),
{
    let mut out = String::new();
    let mut i: usize = from;
    while i < to
        invariant
            from <= i <= to <= v.len(),
            out@ == v@.subrange(from as int, i as int),
        decreases to - i,
    {
        push_char(&mut out, v[i]);
        i = i + 1;
    }
    out
}

/// Whether two string slices hold the same characters.
pub fn str_eq(a: &str, b: &str) -> (r: bool)
    ensures
        r == (a@ == b@),
{
    let av = chars_of(a);
    let bv = chars_of(b);
    if av.len() != bv.len() {
        return false;
    }
    let mut i: usize = 0;
    while i < av.len()
        invariant
            av@ == a@,
            bv@ == b@,
            av.len() == bv.len(),
            i <= av.len(),
            forall|k: int| 0 <= k < i ==> av@[k] == bv@[k],
        decreases av.len() - i,
    {
        if av[i] != bv[i] {
            return false;
        }
        i = i + 1;
    }
    assert(av@ =~= bv@);
    true
}

/// Whether `needle` stands in `hay` at index `at`.
pub fn matches_at(hay: &Vec<char>, needle: &Vec<char>, at: usize) -> (r: bool)
    ensures
        r == occurs_at(hay@, needle@, at as int),
{
    if at > hay.len() || needle.len() > hay.len() - at {
        return false;
    }
    let mut j: usize = 0;
    while j < needle.len()
        invariant
            at + needle.len() <= hay.len(),
            j <= needle.len(),
            forall|k: int| 0 <= k < j ==> hay@[at + k] == needle@[k],
        decreases needle.len() - j,
    {
        if hay[at + j] != needle[j] {
            assert(hay@.subrange(at as int, at + needle.len())[j as int] == hay@[at + j]);
            return false;
        }
        j = j + 1;
    }
    assert(hay@.subrange(at as int, at + needle.len()) =~= needle@);
    true
}

/// The first index at which `needle` stands in `hay`, if any.
pub fn find_in(hay: &Vec<char>, needle: &Vec<char>, from: usize) -> (r: Option<usize>)
    ensures
        match r {
            Some(at) => from <= at && occurs_at(hay@, needle@, at as int) && forall|j: int|
                from <= j < at ==> !occurs_at(hay@, needle@, j),
            None => forall|j: int| from <= j ==> !occurs_at(hay@, needle@, j),
        },
{
    if from > hay.len() || needle.len() > hay.len() - from {
        return None;
    }
    let last: usize = hay.len() - needle.len();
    let mut i: usize = from;
    loop
        invariant
            from <= i <= last,
            last == hay.len() - needle.len(),
            forall|j: int| from <= j < i ==> !occurs_at(hay@, needle@, j),
        decreases last - i,
    {
        if matches_at(hay, needle, i) {
            return Some(i);
        }
        if i == last {
            return None;
        }
        i = i + 1;
    }
}

/// Whether `s` begins with `prefix`.
pub fn starts_with(s: &str, prefix: &str) -> (r: bool)
    ensures
        r == has_prefix(s@, prefix@),
{
    let sv = chars_of(s);
    let pv = chars_of(prefix);
    matches_at(&sv, &pv, 0)
}

/// Whether `s` ends with `suffix`.
pub fn ends_with(s: &str, suffix: &str) -> (r: bool)
    ensures
        r == has_suffix(s@, suffix@),
{
    let sv = chars_of(s);
    let pv = chars_of(suffix);
    if pv.len() > sv.len() {
        return false;
    }
    matches_at(&sv, &pv, sv.len() - pv.len())
}

/// Whether `needle` stands somewhere in `hay`.
pub fn contains(hay: &str, needle: &str) -> (r: bool)
    ensures
        r == contains_text(hay@, needle@),
{
    let hv = chars_of(hay);
    let nv = chars_of(needle);
    match find_in(&hv, &nv, 0) {
        Some(at) => true,
        None => false,
    }
}

/// What is left of `s` after `prefix`, where `s` begins with it.
pub fn strip_prefix(s: &str, prefix: &str) -> (r: Option<String>)
    ensures
        match r {
            Some(rest) => has_prefix(s@, prefix@) && rest@ == s@.skip(prefix@.len() as int),
            None => !has_prefix(s@, prefix@),
        },
{
    let sv = chars_of(s);
    let pv = chars_of(prefix);
    if matches_at(&sv, &pv, 0) {
        Some(string_of(&sv, pv.len(), sv.len()))
    } else {
        None
    }
}

/// Whether `char::is_whitespace` holds of a character: whether it has the
/// Unicode property `White_Space`.
pub uninterp spec fn is_space(c: char) -> bool;

/// Tests a character with `char::is_whitespace`. The contract names the
/// answer [`is_space`].
#[verifier::external_body]
pub(crate) fn char_is_whitespace(c: char) -> (r: bool)
    ensures
        r == is_space(c),
{
    c.is_whitespace()
}

/// `s` without the white space it begins with.
pub open spec fn trimmed_start(s: Seq<char>) -> Seq<char>
    decreases s.len(),
{
    if s.len() > 0 && is_space(s[0]) {
        trimmed_start(s.skip(1))
    } else {
        s
    }
}

/// `s` without the white space it ends with.
pub open spec fn trimmed_end(s: Seq<char>) -> Seq<char>
    decreases s.len(),
{
    if s.len() > 0 && is_space(s.last()) {
        trimmed_end(s.drop_last())
    } else {
        s
    }
}

/// `s` without the white space at either end.
pub open spec fn trimmed(s: Seq<char>) -> Seq<char> {
    trimmed_end(trimmed_start(s))
}

/// `s` without the white space at either end.
pub fn trim(s: &str) -> (out: String)
    ensures
        out@ == trimmed(s@),
{
    let v = chars_of(s);
    let mut from: usize = 0;
    assert(v@.skip(0) =~= v@);
    while from < v.len() && char_is_whitespace(v[from])
        invariant
            from <= v.len(),
            trimmed_start(v@) == trimmed_start(v@.skip(from as int)),
        decreases v.len() - from,
    {
        assert(v@.skip(from as int).skip(1) =~= v@.skip(from + 1));
        from = from + 1;
    }
    assert(trimmed_start(v@) == v@.skip(from as int));
    let mut to: usize = v.len();
    assert(v@.subrange(from as int, to as int) =~= v@.skip(from as int));
    while to > from && char_is_whitespace(v[to - 1])
        invariant
            from <= to <= v.len(),
            trimmed(v@) == trimmed_end(v@.subrange(from as int, to as int)),
        decreases to - from,
    {
        assert(v@.subrange(from as int, to as int).drop_last() =~= v@.subrange(
            from as int,
            to - 1,
        ));
        to = to - 1;
    }
    string_of(&v, from, to)
}

/// The parts of `parts` put one after the other, with `sep` between each two.
pub open spec fn joined_with(parts: Seq<Seq<char>>, sep: Seq<char>) -> Seq<char>
    decreases parts.len(),
{
    if parts.len() == 0 {
        Seq::empty()
    } else if parts.len() == 1 {
        parts[0]
    } else {
        joined_with(parts.drop_last(), sep) + sep + parts.last()
    }
}

/// The views of a vector of strings, item by item.
pub open spec fn views(items: Seq<String>) -> Seq<Seq<char>> {
    Seq::new(items.len(), |i: int| items[i]@)
}

/// The strings of `parts` put one after the other, with `sep` between each
/// two.
pub fn join_strings(parts: &Vec<String>, sep: &str) -> (out: String)
    ensures
        out@ == joined_with(views(parts@), sep@),
{
    let mut out = String::new();
    let mut i: usize = 0;
    let ghost all = views(parts@);
    assert(all.take(0) =~= Seq::<Seq<char>>::empty());
    while i < parts.len()
        invariant
            i <= parts.len(),
            all == views(parts@),
            out@ == joined_with(all.take(i as int), sep@),
        decreases parts.len() - i,
    {
        proof {
            assert(all.take(i + 1).drop_last() =~= all.take(i as int));
            assert(all.take(i + 1).last() == parts@[i as int]@);
        }
        if i > 0 {
            out.append(sep);
        }
        out.append(parts[i].as_str());
        i = i + 1;
    }
    assert(all.take(parts.len() as int) =~= all);
    out
}

/// Every part of a joined text stands in it.
pub proof fn lemma_joined_contains(parts: Seq<Seq<char>>, sep: Seq<char>, i: int)
    requires
        0 <= i < parts.len(),
    ensures
        contains_text(joined_with(parts, sep), parts[i]),
    decreases parts.len(),
{
    let whole = joined_with(parts, sep);
    if parts.len() == 1 {
        assert(whole.subrange(0, 0int + parts[i].len()) =~= parts[i]);
        assert(occurs_at(whole, parts[i], 0));
    } else if i == parts.len() - 1 {
        let at = whole.len() - parts[i].len();
        assert(whole.subrange(at, at + parts[i].len()) =~= parts[i]);
        assert(occurs_at(whole, parts[i], at));
    } else {
        let head = joined_with(parts.drop_last(), sep);
        lemma_joined_contains(parts.drop_last(), sep, i);
        let at = choose|at: int| occurs_at(head, parts.drop_last()[i], at);
        assert(whole.subrange(at, at + parts[i].len()) =~= head.subrange(at, at + parts[i].len()));
        assert(occurs_at(whole, parts[i], at));
    }
}

/// A text that stands in a part of a concatenation stands in the whole.
pub proof fn lemma_contains_in_concat(
    before: Seq<char>,
    middle: Seq<char>,
    after: Seq<char>,
    needle: Seq<char>,
)
    requires
        contains_text(middle, needle),
    ensures
        contains_text(before + middle + after, needle),
{
    let at = choose|at: int| occurs_at(middle, needle, at);
    let whole = before + middle + after;
    let shifted = before.len() + at;
    assert(whole.subrange(shifted, shifted + needle.len()) =~= middle.subrange(
        at,
        at + needle.len(),
    ));
    assert(occurs_at(whole, needle, shifted));
}

/// A text stands in itself.
pub proof fn lemma_contains_self(s: Seq<char>)
    ensures
        contains_text(s, s),
{
    assert(s.subrange(0, 0int + s.len()) =~= s);
    assert(occurs_at(s, s, 0));
}

/// The digit that stands for a number below ten.
pub open spec fn digit_char(d: nat) -> char {
    if d == 0 {
        '0'
    } else if d == 1 {
        '1'
    } else if d == 2 {
        '2'
    } else if d == 3 {
        '3'
    } else if d == 4 {
        '4'
    } else if d == 5 {
        '5'
    } else if d == 6 {
        '6'
    } else if d == 7 {
        '7'
    } else if d == 8 {
        '8'
    } else {
        '9'
    }
}

/// A number written in decimal, without leading zeros.
pub open spec fn decimal_text(n: nat) -> Seq<char>
    decreases n,
{
    if n < 10 {
        seq![digit_char(n)]
    } else {
        decimal_text(n / 10).push(digit_char(n % 10))
    }
}

/// The digit that stands for `d`.
pub fn digit(d: u8) -> (c: char)
    requires
        d < 10,
    ensures
        c == digit_char(d as nat),
{
    if d == 0 {
        '0'
    } else if d == 1 {
        '1'
    } else if d == 2 {
        '2'
    } else if d == 3 {
        '3'
    } else if d == 4 {
        '4'
    } else if d == 5 {
        '5'
    } else if d == 6 {
        '6'
    } else if d == 7 {
        '7'
    } else if d == 8 {
        '8'
    } else {
        '9'
    }
}

/// `n` written in decimal.
pub fn decimal(n: u64) -> (out: String)
    ensures
        out@ == decimal_text(n as nat),
{
    let mut digits: Vec<char> = Vec::new();
    let mut rest: u64 = n;
    while rest >= 10
        invariant
            decimal_text(n as nat) == decimal_text(rest as nat) + digits@.reverse(),
        decreases rest,
    {
        let d: u8 = (rest % 10) as u8;
        let c = digit(d);
        proof {
            let before = digits@;
            assert(before.push(c).reverse() =~= seq![c] + before.reverse());
            assert(decimal_text(rest as nat) == decimal_text((rest / 10) as nat).push(c));
            assert(decimal_text((rest / 10) as nat).push(c) + before.reverse() =~= decimal_text(
                (rest / 10) as nat,
            ) + (seq![c] + before.reverse()));
        }
        digits.push(c);
        rest = rest / 10;
    }
    let mut out = String::new();
    push_char(&mut out, digit(rest as u8));
    let mut i: usize = digits.len();
    while i > 0
        invariant
            i <= digits.len(),
            out@ == decimal_text(rest as nat) + digits@.reverse().take(digits.len() - i),
        decreases i,
    {
        i = i - 1;
        proof {
            let r = digits@.reverse();
            assert(r.take(digits.len() - i) =~= r.take(digits.len() - i - 1).push(digits@[i as int]));
        }
        push_char(&mut out, digits[i]);
    }
    assert(digits@.reverse().take(digits.len() as int) =~= digits@.reverse());
    out
}

/// Every decimal text has a digit.
pub proof fn lemma_decimal_nonempty(n: nat)
    ensures
        decimal_text(n).len() >= 1,
    decreases n,
{
    if n >= 10 {
        lemma_decimal_nonempty(n / 10);
    }
}

/// Different digits are written differently.
pub proof fn lemma_digit_injective(a: nat, b: nat)
    requires
        a < 10,
        b < 10,
        digit_char(a) == digit_char(b),
    ensures
        a == b,
{
}

/// Different numbers are written differently.
pub proof fn lemma_decimal_injective(a: nat, b: nat)
    requires
        decimal_text(a) == decimal_text(b),
    ensures
        a == b,
    decreases a,
{
    if a < 10 && b < 10 {
        assert(decimal_text(a)[0] == digit_char(a));
        assert(decimal_text(b)[0] == digit_char(b));
        lemma_digit_injective(a, b);
    } else if a < 10 {
        lemma_decimal_nonempty(b / 10);
        assert(decimal_text(b).len() >= 2);
    } else if b < 10 {
        lemma_decimal_nonempty(a / 10);
        assert(decimal_text(a).len() >= 2);
    } else {
        let x = decimal_text(a / 10);
        let y = decimal_text(b / 10);
        let da = digit_char(a % 10);
        let db = digit_char(b % 10);
        assert(decimal_text(a) == x.push(da));
        assert(decimal_text(b) == y.push(db));
        assert(x.push(da).drop_last() =~= x);
        assert(y.push(db).drop_last() =~= y);
        assert(x.push(da).last() == da);
        assert(y.push(db).last() == db);
        assert(x == y);
        assert(da == db);
        lemma_digit_injective(a % 10, b % 10);
        lemma_decimal_injective(a / 10, b / 10);
        assert(a == 10 * (a / 10) + a % 10);
        assert(b == 10 * (b / 10) + b % 10);
    }
}

/// `s` with every occurrence of `from` replaced by `to`, going from the left
/// and never looking into what was put in. An empty `from` replaces nothing.
pub open spec fn replaced(s: Seq<char>, from: Seq<char>, to: Seq<char>) -> Seq<char>
    decreases s.len(),
{
    if from.len() == 0 || s.len() < from.len() {
        s
    } else if occurs_at(s, from, 0) {
        to + replaced(s.skip(from.len() as int), from, to)
    } else {
        seq![s[0]] + replaced(s.skip(1), from, to)
    }
}

/// `s` with every occurrence of `from` replaced by `to`.
pub fn replace(s: &str, from: &str, to: &str) -> (out: String)
    ensures
        out@ == replaced(s@, from@, to@),
{
    let sv = chars_of(s);
    let fv = chars_of(from);
    if fv.len() == 0 {
        return s.to_owned();
    }
    let mut out = String::new();
    let mut i: usize = 0;
    assert(sv@.skip(0) =~= sv@);
    while i < sv.len()
        invariant
            i <= sv.len(),
            fv.len() > 0,
            sv@ == s@,
            fv@ == from@,
            replaced(s@, from@, to@) == out@ + replaced(sv@.skip(i as int), from@, to@),
        decreases sv.len() - i,
    {
        let ghost rest = sv@.skip(i as int);
        if matches_at(&sv, &fv, i) {
            proof {
                assert(rest.subrange(0, 0int + fv@.len()) =~= sv@.subrange(
                    i as int,
                    i + fv@.len(),
                ));
                assert(rest.skip(fv@.len() as int) =~= sv@.skip(i + fv@.len()));
                assert(out@ + (to@ + replaced(rest.skip(fv@.len() as int), from@, to@)) =~= out@
                    + to@ + replaced(rest.skip(fv@.len() as int), from@, to@));
            }
            out.append(to);
            i = i + fv.len();
        } else {
            proof {
                if rest.len() >= fv@.len() {
                    assert(rest.subrange(0, 0int + fv@.len()) =~= sv@.subrange(
                        i as int,
                        i + fv@.len(),
                    ));
                    assert(rest.skip(1) =~= sv@.skip(i + 1));
                    assert(out@ + (seq![rest[0]] + replaced(rest.skip(1), from@, to@)) =~= out@.push(
                        sv@[i as int],
                    ) + replaced(rest.skip(1), from@, to@));
                } else {
                    assert(rest.skip(1) =~= sv@.skip(i + 1));
                    lemma_replaced_short(rest, from@, to@);
                    lemma_replaced_short(rest.skip(1), from@, to@);
                    assert(out@ + rest =~= out@.push(sv@[i as int]) + rest.skip(1));
                }
            }
            push_char(&mut out, sv[i]);
            i = i + 1;
        }
    }
    out
}

/// A text shorter than `from` holds no occurrence of it.
pub proof fn lemma_replaced_short(s: Seq<char>, from: Seq<char>, to: Seq<char>)
    requires
        s.len() < from.len(),
    ensures
        replaced(s, from, to) == s,
{
}

/// The index of the first `c` in `s`, or the length of `s` where it holds
/// none.
pub open spec fn first_index_of(s: Seq<char>, c: char) -> int
    decreases s.len(),
{
    if s.len() == 0 {
        0
    } else if s[0] == c {
        0
    } else {
        1 + first_index_of(s.skip(1), c)
    }
}

/// The text up to the first `sep`, and the text after it.
pub open spec fn split_once_at(s: Seq<char>, sep: char) -> Option<(Seq<char>, Seq<char>)> {
    let at = first_index_of(s, sep);
    if at < s.len() {
        Some((s.take(at), s.skip(at + 1)))
    } else {
        None
    }
}

/// What `first_index_of` gives is the first index of the character.
pub proof fn lemma_first_index_of(s: Seq<char>, c: char)
    ensures
        0 <= first_index_of(s, c) <= s.len(),
        first_index_of(s, c) < s.len() ==> s[first_index_of(s, c)] == c,
        forall|j: int| 0 <= j < first_index_of(s, c) ==> s[j] != c,
    decreases s.len(),
{
    if s.len() > 0 && s[0] != c {
        lemma_first_index_of(s.skip(1), c);
        assert forall|j: int| 0 <= j < first_index_of(s, c) implies s[j] != c by {
            if j > 0 {
                assert(s.skip(1)[j - 1] == s[j]);
            }
        }
    }
}

/// The index of the first `c` in `v[from..]`.
pub fn position_of(v: &Vec<char>, c: char, from: usize) -> (r: Option<usize>)
    ensures
        match r {
            Some(at) => from <= at < v.len() && v@[at as int] == c && forall|j: int|
                from <= j < at ==> v@[j] != c,
            None => forall|j: int| from <= j < v.len() ==> v@[j] != c,
        },
{
    let mut i: usize = from;
    while i < v.len()
        invariant
            from <= i,
            forall|j: int| from <= j < i && j < v.len() ==> v@[j] != c,
        decreases v.len() - i,
    {
        if v[i] == c {
            return Some(i);
        }
        i = i + 1;
    }
    None
}

/// Splits `s` at the first `sep`.
pub fn split_once(s: &str, sep: char) -> (r: Option<(String, String)>)
    ensures
        match r {
            Some((before, after)) => split_once_at(s@, sep) == Some((before@, after@)),
            None => split_once_at(s@, sep) is None,
        },
{
    let v = chars_of(s);
    proof {
        lemma_first_index_of(v@, sep);
    }
    match position_of(&v, sep, 0) {
        Some(at) => {
            let before = string_of(&v, 0, at);
            let after = string_of(&v, at + 1, v.len());
            proof {
                assert(first_index_of(v@, sep) == at);
                assert(v@.subrange(0, at as int) =~= v@.take(at as int));
                assert(v@.subrange(at + 1, v.len() as int) =~= v@.skip(at + 1));
            }
            Some((before, after))
        },
        None => None,
    }
}

/// The parts of `s` between occurrences of `sep`, given the part `current`
/// gathered so far.
pub open spec fn split_from(s: Seq<char>, sep: char, current: Seq<char>) -> Seq<Seq<char>>
    decreases s.len(),
{
    if s.len() == 0 {
        seq![current]
    } else if s[0] == sep {
        seq![current] + split_from(s.skip(1), sep, Seq::empty())
    } else {
        split_from(s.skip(1), sep, current.push(s[0]))
    }
}

/// The parts of `s` between occurrences of `sep`. A text without `sep` is
/// its own single part.
pub open spec fn split_at(s: Seq<char>, sep: char) -> Seq<Seq<char>> {
    split_from(s, sep, Seq::empty())
}

/// The parts of `s` between occurrences of `sep`.
pub fn split(s: &str, sep: char) -> (parts: Vec<String>)
    ensures
        views(parts@) == split_at(s@, sep),
{
    let v = chars_of(s);
    let mut parts: Vec<String> = Vec::new();
    let mut current = String::new();
    let mut i: usize = 0;
    assert(v@.skip(0) =~= v@);
    assert(views(parts@) =~= Seq::<Seq<char>>::empty());
    while i < v.len()
        invariant
            i <= v.len(),
            v@ == s@,
            split_at(s@, sep) == views(parts@) + split_from(v@.skip(i as int), sep, current@),
        decreases v.len() - i,
    {
        proof {
            assert(v@.skip(i as int).skip(1) =~= v@.skip(i + 1));
        }
        if v[i] == sep {
            let ghost before = views(parts@);
            let ghost gathered = current@;
            parts.push(current);
            current = String::new();
            proof {
                assert(views(parts@) =~= before + seq![gathered]);
                assert(before + (seq![gathered] + split_from(v@.skip(i + 1), sep, Seq::empty()))
                    =~= before + seq![gathered] + split_from(v@.skip(i + 1), sep, Seq::empty()));
            }
        } else {
            push_char(&mut current, v[i]);
        }
        i = i + 1;
    }
    let ghost before = views(parts@);
    let ghost gathered = current@;
    parts.push(current);
    assert(views(parts@) =~= before + seq![gathered]);
    parts
}

/// `current` alone where it holds anything, nothing where it is empty.
pub open spec fn word_if_any(current: Seq<char>) -> Seq<Seq<char>> {
    if current.len() > 0 {
        seq![current]
    } else {
        Seq::empty()
    }
}

/// The words of `s`, given the word `current` gathered so far.
pub open spec fn words_from(s: Seq<char>, current: Seq<char>) -> Seq<Seq<char>>
    decreases s.len(),
{
    if s.len() == 0 {
        word_if_any(current)
    } else if is_space(s[0]) {
        word_if_any(current) + words_from(s.skip(1), Seq::empty())
    } else {
        words_from(s.skip(1), current.push(s[0]))
    }
}

/// The words of `s`: its longest stretches without white space.
pub open spec fn words(s: Seq<char>) -> Seq<Seq<char>> {
    words_from(s, Seq::empty())
}

/// The words of `s`.
pub fn split_whitespace(s: &str) -> (found: Vec<String>)
    ensures
        views(found@) == words(s@),
{
    let v = chars_of(s);
    let mut found: Vec<String> = Vec::new();
    let mut current = String::new();
    let mut i: usize = 0;
    assert(v@.skip(0) =~= v@);
    assert(views(found@) =~= Seq::<Seq<char>>::empty());
    while i < v.len()
        invariant
            i <= v.len(),
            v@ == s@,
            words(s@) == views(found@) + words_from(v@.skip(i as int), current@),
        decreases v.len() - i,
    {
        proof {
            assert(v@.skip(i as int).skip(1) =~= v@.skip(i + 1));
        }
        if char_is_whitespace(v[i]) {
            let ghost before = views(found@);
            let ghost gathered = current@;
            if current.as_str().unicode_len() > 0 {
                found.push(current);
                proof {
                    assert(views(found@) =~= before + seq![gathered]);
                }
            }
            current = String::new();
            proof {
                assert(before + (word_if_any(gathered) + words_from(
                    v@.skip(i + 1),
                    Seq::empty(),
                )) =~= before + word_if_any(gathered) + words_from(v@.skip(i + 1), Seq::empty()));
            }
        } else {
            push_char(&mut current, v[i]);
        }
        i = i + 1;
    }
    let ghost before = views(found@);
    let ghost gathered = current@;
    if current.as_str().unicode_len() > 0 {
        found.push(current);
        proof {
            assert(views(found@) =~= before + seq![gathered]);
        }
    }
    found
}

/// Whether `c` is one of the letters `A` to `Z`.
pub open spec fn is_ascii_upper(c: char) -> bool {
    'A' <= c <= 'Z'
}

/// Whether two characters are the same but for the case of a letter of the
/// ASCII alphabet.
pub open spec fn same_ignoring_ascii_case(a: char, b: char) -> bool {
    a == b || (is_ascii_upper(a) && b as u32 == a as u32 + 32) || (is_ascii_upper(b) && a as u32
        == b as u32 + 32)
}

/// Whether two texts are the same but for the case of the letters of the
/// ASCII alphabet.
pub open spec fn same_text_ignoring_ascii_case(a: Seq<char>, b: Seq<char>) -> bool {
    a.len() == b.len() && forall|i: int|
        0 <= i < a.len() ==> same_ignoring_ascii_case(#[trigger] a[i], b[i])
}

/// Whether two texts are the same but for the case of the letters of the
/// ASCII alphabet.
pub fn eq_ignore_ascii_case(a: &str, b: &str) -> (r: bool)
    ensures
        r == same_text_ignoring_ascii_case(a@, b@),
{
    let av = chars_of(a);
    let bv = chars_of(b);
    if av.len() != bv.len() {
        return false;
    }
    let mut i: usize = 0;
    while i < av.len()
        invariant
            av@ == a@,
            bv@ == b@,
            av.len() == bv.len(),
            i <= av.len(),
            forall|k: int| 0 <= k < i ==> same_ignoring_ascii_case(#[trigger] av@[k], bv@[k]),
        decreases av.len() - i,
    {
        let x = av[i];
        let y = bv[i];
        let same = x == y || ('A' <= x && x <= 'Z' && y as u32 == x as u32 + 32) || ('A' <= y && y
            <= 'Z' && x as u32 == y as u32 + 32);
        if !same {
            return false;
        }
        i = i + 1;
    }
    true
}

/// What `str::to_lowercase` makes of a text.
pub uninterp spec fn lowercase(s: Seq<char>) -> Seq<char>;

/// What `str::to_uppercase` makes of a text.
pub uninterp spec fn uppercase(s: Seq<char>) -> Seq<char>;

/// What `char::to_uppercase` makes of a character: one character or more.
pub uninterp spec fn uppercase_of_char(c: char) -> Seq<char>;

/// Whether `char::is_alphabetic` holds of a character: whether it has the
/// Unicode property `Alphabetic`.
pub uninterp spec fn is_letter(c: char) -> bool;

/// What Unicode normalisation to form C makes of a text.
pub uninterp spec fn nfc_form(s: Seq<char>) -> Seq<char>;

/// Lowers the case of a text with `str::to_lowercase`. The contract names
/// the result [`lowercase`].
#[verifier::external_body]
pub(crate) fn to_lowercase(s: &str) -> (out: String)
    ensures
        out@ == lowercase(s@),
{
    s.to_lowercase()
}

/// Raises the case of a text with `str::to_uppercase`. The contract names
/// the result [`uppercase`].
#[verifier::external_body]
pub(crate) fn to_uppercase(s: &str) -> (out: String)
    ensures
        out@ == uppercase(s@),
{
    s.to_uppercase()
}

/// Raises the case of a character with `char::to_uppercase`. The contract
/// names the result [`uppercase_of_char`].
#[verifier::external_body]
pub(crate) fn char_to_uppercase(c: char) -> (out: String)
    ensures
        out@ == uppercase_of_char(c),
{
    c.to_uppercase().collect()
}

/// Tests a character with `char::is_alphabetic`. The contract names the
/// answer [`is_letter`].
#[verifier::external_body]
pub(crate) fn char_is_alphabetic(c: char) -> (r: bool)
    ensures
        r == is_letter(c),
{
    c.is_alphabetic()
}

/// Normalises a text to form C with `unicode_normalization`'s `nfc`. The
/// contract names the result [`nfc_form`].
#[verifier::external_body]
pub(crate) fn nfc(s: &str) -> (out: String)
    ensures
        out@ == nfc_form(s@),
{
    unicode_normalization::UnicodeNormalization::nfc(s).collect()
}

/// `s` with its first character in upper case and the rest in lower case.
pub open spec fn title_cased(s: Seq<char>) -> Seq<char> {
    if s.len() == 0 {
        Seq::empty()
    } else {
        uppercase_of_char(s[0]) + lowercase(s.skip(1))
    }
}

/// `s` with its first character in upper case and the rest in lower case.
pub fn to_title_case(s: &str) -> (out: String)
    ensures
        out@ == title_cased(s@),
{
    let v = chars_of(s);
    if v.len() == 0 {
        return String::new();
    }
    let mut out = char_to_uppercase(v[0]);
    let rest = string_of(&v, 1, v.len());
    assert(rest@ =~= s@.skip(1));
    out.append(to_lowercase(rest.as_str()).as_str());
    out
}

/// How the `Debug` form of `str` writes a text: between quotes, with what
/// cannot stand as it is escaped.
pub uninterp spec fn debug_form(s: Seq<char>) -> Seq<char>;

/// Writes a text in the `Debug` form of `str`. The contract names the
/// result [`debug_form`].
#[verifier::external_body]
pub(crate) fn debug_text(s: &str) -> (out: String)
    ensures
        out@ == debug_form(s@),
{
    format!("{:?}", s)
}

/// The number of bytes of a text in UTF-8, as a machine number.
pub open spec fn byte_len(text: Seq<char>) -> usize {
    vstd::utf8::encode_utf8(text).len() as usize
}

/// The texts of `items`, each changed by `change`.
pub open spec fn each(items: Seq<Seq<char>>, change: spec_fn(Seq<char>) -> Seq<char>) -> Seq<
    Seq<char>,
> {
    Seq::new(items.len(), |i: int| change(items[i]))
}

/// The number that a digit stands for.
pub open spec fn digit_value(c: char) -> Option<nat> {
    if '0' <= c <= '9' {
        Some((c as u32 - '0' as u32) as nat)
    } else {
        None
    }
}

/// The number that a text of digits stands for; `None` where the text holds
/// anything but digits.
pub open spec fn digits_value(s: Seq<char>) -> Option<nat>
    decreases s.len(),
{
    if s.len() == 0 {
        Some(0)
    } else {
        match (digits_value(s.drop_last()), digit_value(s.last())) {
            (Some(before), Some(d)) => Some(10 * before + d),
            _ => None,
        }
    }
}

/// The machine number that a text stands for: digits, with `+` before them
/// or not, whose number is no larger than the largest machine number.
pub open spec fn parsed_number(s: Seq<char>) -> Option<usize> {
    let digits = if s.len() > 0 && s[0] == '+' {
        s.skip(1)
    } else {
        s
    };
    if digits.len() == 0 {
        None
    } else {
        match digits_value(digits) {
            Some(n) => if n <= usize::MAX {
                Some(n as usize)
            } else {
                None
            },
            None => None,
        }
    }
}

/// The number of a text of digits is no smaller than that of its beginning.
pub proof fn lemma_digits_grow(s: Seq<char>, upto: int)
    requires
        0 <= upto <= s.len(),
        digits_value(s) is Some,
    ensures
        digits_value(s.take(upto)) is Some,
        digits_value(s.take(upto))->0 <= digits_value(s)->0,
    decreases s.len() - upto,
{
    if upto == s.len() {
        assert(s.take(upto) =~= s);
    } else {
        assert(s.drop_last().take(upto) =~= s.take(upto));
        lemma_digits_grow(s.drop_last(), upto);
    }
}

/// The machine number that a text stands for.
pub fn parse_usize(s: &str) -> (r: Option<usize>)
    ensures
        r == parsed_number(s@),
{
    let v = chars_of(s);
    let start: usize = if v.len() > 0 && v[0] == '+' {
        1
    } else {
        0
    };
    if start == v.len() {
        return None;
    }
    let ghost digits = v@.skip(start as int);
    assert(v@.skip(0) =~= v@);
    let mut value: usize = 0;
    let mut i: usize = start;
    assert(digits.take(0) =~= Seq::<char>::empty());
    while i < v.len()
        invariant
            start <= i <= v.len(),
            start < v.len(),
            v@ == s@,
            digits == (if s@.len() > 0 && s@[0] == '+' {
                s@.skip(1)
            } else {
                s@
            }),
            digits.len() == v.len() - start,
            forall|k: int| 0 <= k < digits.len() ==> digits[k] == v@[start + k],
            digits_value(digits.take(i - start)) == Some(value as nat),
        decreases v.len() - i,
    {
        let c = v[i];
        proof {
            assert(digits.take(i - start + 1).drop_last() =~= digits.take(i - start));
            assert(digits.take(i - start + 1).last() == c);
        }
        if !('0' <= c && c <= '9') {
            proof {
                if digits_value(digits) is Some {
                    lemma_digits_grow(digits, i - start + 1);
                }
            }
            return None;
        }
        let d: usize = (c as u32 - '0' as u32) as usize;
        if value > (usize::MAX - d) / 10 {
            proof {
                if digits_value(digits) is Some {
                    lemma_digits_grow(digits, i - start + 1);
                }
            }
            return None;
        }
        value = 10 * value + d;
        i = i + 1;
    }
    assert(digits.take(v.len() - start) =~= digits);
    Some(value)
}

} // verus!
