//! Searching, splitting and slicing of text, stated over character sequences.

use crate::number::Comparison;
use vstd::prelude::*;
use vstd::string::*;

verus! {

/// `pat` stands in `s` at index `at`.
pub open spec fn occurs_at(s: Seq<char>, at: int, pat: Seq<char>) -> bool {
    0 <= at && at + pat.len() <= s.len() && s.subrange(at, at + pat.len()) == pat
}

/// The least index at or after `from` at which `pat` stands in `s`.
pub open spec fn find_from(s: Seq<char>, from: int, pat: Seq<char>) -> Option<int>
    decreases s.len() + 1 - from,
{
    if from < 0 || from + pat.len() > s.len() {
        None
    } else if occurs_at(s, from, pat) {
        Some(from)
    } else {
        find_from(s, from + 1, pat)
    }
}

/// `pat` stands somewhere in `s`.
pub open spec fn contains_text(s: Seq<char>, pat: Seq<char>) -> bool {
    exists|i: int| occurs_at(s, i, pat)
}

/// The pieces of `s` from index `pos` on that lie between occurrences of `sep`.
pub open spec fn split_from(s: Seq<char>, pos: int, sep: char) -> Seq<Seq<char>>
    decreases s.len() - pos,
{
    match find_from(s, pos, seq![sep]) {
        Some(i) if pos <= i < s.len() => seq![s.subrange(pos, i)] + split_from(s, i + 1, sep),
        _ => seq![s.subrange(pos, s.len() as int)],
    }
}

/// The pieces of `s` that lie between occurrences of `sep`.
pub open spec fn split(s: Seq<char>, sep: char) -> Seq<Seq<char>> {
    split_from(s, 0, sep)
}

/// `s` without the leading `pat`, where it begins with it.
pub open spec fn without_prefix(s: Seq<char>, pat: Seq<char>) -> Option<Seq<char>> {
    if occurs_at(s, 0, pat) {
        Some(s.subrange(pat.len() as int, s.len() as int))
    } else {
        None
    }
}

/// `s` without the trailing `pat`, where it ends with it.
pub open spec fn without_suffix(s: Seq<char>, pat: Seq<char>) -> Option<Seq<char>> {
    if occurs_at(s, s.len() - pat.len(), pat) {
        Some(s.subrange(0, s.len() - pat.len()))
    } else {
        None
    }
}

/// The views of a list of strings.
pub open spec fn text_views(v: Seq<String>) -> Seq<Seq<char>> {
    Seq::new(v.len(), |i: int| v[i]@)
}

/// What `find_from` finds lies at or after `from` and is an occurrence;
/// nothing between `from` and it is one.
pub proof fn lemma_find_from(s: Seq<char>, from: int, pat: Seq<char>)
    ensures
        match find_from(s, from, pat) {
            Some(i) => from <= i && occurs_at(s, i, pat) && forall|j: int|
                from <= j < i ==> !occurs_at(s, j, pat),
            None => forall|j: int| 0 <= from <= j ==> !occurs_at(s, j, pat),
        },
    decreases s.len() + 1 - from,
{
    if from < 0 || from + pat.len() > s.len() {
    } else if occurs_at(s, from, pat) {
    } else {
        lemma_find_from(s, from + 1, pat);
    }
}

/// Whether two texts hold the same characters.
pub fn text_equal(a: &str, b: &str) -> (r: bool)
    ensures
        r == (a@ == b@),
{
    let n = a.unicode_len();
    if n != b.unicode_len() {
        return false;
    }
    let mut i: usize = 0;
    while i < n
        invariant
            n == a@.len(),
            n == b@.len(),
            i <= n,
            forall|j: int| 0 <= j < i ==> a@[j] == b@[j],
        decreases n - i,
    {
        if a.get_char(i) != b.get_char(i) {
            return false;
        }
        i += 1;
    }
    assert(a@ =~= b@);
    true
}

/// Whether `pat` stands in `s` at index `at`.
pub fn occurs_at_index(s: &str, at: usize, pat: &str) -> (r: bool)
    ensures
        r == occurs_at(s@, at as int, pat@),
{
    let n = s.unicode_len();
    let m = pat.unicode_len();
    if at > n || m > n - at {
        return false;
    }
    let mut i: usize = 0;
    while i < m
        invariant
            n == s@.len(),
            m == pat@.len(),
            at + m <= n,
            i <= m,
            forall|j: int| 0 <= j < i ==> s@[at + j] == pat@[j],
        decreases m - i,
    {
        if s.get_char(at + i) != pat.get_char(i) {
            assert(s@.subrange(at as int, at + m)[i as int] == s@[at + i]);
            return false;
        }
        i += 1;
    }
    assert(s@.subrange(at as int, at + m) =~= pat@);
    true
}

/// The least index at or after `from` at which `pat` stands in `s`.
pub fn find(s: &str, from: usize, pat: &str) -> (r: Option<usize>)
    ensures
        match r {
            Some(i) => find_from(s@, from as int, pat@) == Some(i as int) && i <= s@.len(),
            None => find_from(s@, from as int, pat@) is None,
        },
{
    let n = s.unicode_len();
    let m = pat.unicode_len();
    let mut i: usize = from;
    while i <= n && m <= n - i
        invariant
            n == s@.len(),
            m == pat@.len(),
            from <= i,
            find_from(s@, from as int, pat@) == find_from(s@, i as int, pat@),
        decreases n + 1 - i,
    {
        if occurs_at_index(s, i, pat) {
            return Some(i);
        }
        if i == n {
            assert(find_from(s@, n + 1, pat@) is None);
            return None;
        }
        i += 1;
    }
    None
}

/// The characters of `s` from index `from` up to index `to`, as a new string.
pub fn slice(s: &str, from: usize, to: usize) -> (r: String)
    requires
        from <= to <= s@.len(),
    ensures
        r@ == s@.subrange(from as int, to as int),
{
    s.substring_char(from, to).to_owned()
}

/// `s` without the leading `pat`, where it begins with it.
pub fn strip_prefix(s: &str, pat: &str) -> (r: Option<String>)
    ensures
        match r {
            Some(rest) => without_prefix(s@, pat@) == Some(rest@),
            None => without_prefix(s@, pat@) is None,
        },
{
    if occurs_at_index(s, 0, pat) {
        Some(slice(s, pat.unicode_len(), s.unicode_len()))
    } else {
        None
    }
}

/// `s` without the trailing `pat`, where it ends with it.
pub fn strip_suffix(s: &str, pat: &str) -> (r: Option<String>)
    ensures
        match r {
            Some(rest) => without_suffix(s@, pat@) == Some(rest@),
            None => without_suffix(s@, pat@) is None,
        },
{
    let n = s.unicode_len();
    let m = pat.unicode_len();
    if m <= n && occurs_at_index(s, n - m, pat) {
        Some(slice(s, 0, n - m))
    } else {
        None
    }
}

/// The pieces of a dotted path: the text between its dots.
pub fn split_dots(s: &str) -> (r: Vec<String>)
    ensures
        text_views(r@) == split(s@, '.'),
        r@.len() >= 1,
{
    let sep = ".";
    let ghost c = '.';
    proof {
        reveal_strlit(".");
        assert(sep@ =~= seq![c]);
    }
    let n = s.unicode_len();
    let mut parts: Vec<String> = Vec::new();
    let mut pos: usize = 0;
    loop
        invariant
            n == s@.len(),
            sep@ == seq![c],
            c == '.',
            pos <= n,
            text_views(parts@) + split_from(s@, pos as int, c) == split(s@, c),
        decreases n - pos,
    {
        proof {
            lemma_find_from(s@, pos as int, sep@);
        }
        match find(s, pos, sep) {
            Some(i) => {
                assert(occurs_at(s@, i as int, sep@));
                assert(i < n);
                let ghost before = text_views(parts@);
                parts.push(slice(s, pos, i));
                assert(text_views(parts@) =~= before + seq![s@.subrange(pos as int, i as int)]);
                assert(before + split_from(s@, pos as int, c) =~= text_views(parts@) + split_from(
                    s@,
                    i + 1,
                    c,
                ));
                pos = i + 1;
            },
            None => {
                let ghost before = text_views(parts@);
                parts.push(slice(s, pos, n));
                assert(text_views(parts@) =~= before + seq![s@.subrange(pos as int, n as int)]);
                return parts;
            },
        }
    }
}

/// The first index at or after `from` at which `name` stands in the list.
pub open spec fn position_from(names: Seq<Seq<char>>, name: Seq<char>, from: int) -> Option<int>
    decreases names.len() - from,
{
    if from < 0 || from >= names.len() {
        None
    } else if names[from] == name {
        Some(from)
    } else {
        position_from(names, name, from + 1)
    }
}

/// The first index at which `name` stands in the list.
pub open spec fn position(names: Seq<Seq<char>>, name: Seq<char>) -> Option<int> {
    position_from(names, name, 0)
}

/// `position_from` finds the name exactly where the list holds it at or
/// after `from`, and what it finds is the first such index.
pub proof fn lemma_position_from(names: Seq<Seq<char>>, name: Seq<char>, from: int)
    requires
        0 <= from,
    ensures
        match position_from(names, name, from) {
            Some(i) => from <= i < names.len() && names[i] == name && forall|j: int|
                from <= j < i ==> names[j] != name,
            None => forall|j: int| from <= j < names.len() ==> names[j] != name,
        },
    decreases names.len() - from,
{
    if from < names.len() && names[from] != name {
        lemma_position_from(names, name, from + 1);
    }
}

/// The list holds the name exactly where `position` finds it.
pub proof fn lemma_position_contains(names: Seq<Seq<char>>, name: Seq<char>)
    ensures
        names.contains(name) <==> position(names, name) is Some,
{
    lemma_position_from(names, name, 0);
    if names.contains(name) {
        let i = choose|i: int| 0 <= i < names.len() && names[i] == name;
        assert(names[i] == name);
    }
}

/// The first index at which `name` stands in the list.
pub fn find_name(names: &Vec<String>, name: &str) -> (r: Option<usize>)
    ensures
        match r {
            Some(i) => position(text_views(names@), name@) == Some(i as int) && i < names@.len(),
            None => position(text_views(names@), name@) is None,
        },
{
    let mut i: usize = 0;
    while i < names.len()
        invariant
            i <= names.len(),
            position(text_views(names@), name@) == position_from(
                text_views(names@),
                name@,
                i as int,
            ),
        decreases names.len() - i,
    {
        if text_equal(names[i].as_str(), name) {
            return Some(i);
        }
        i += 1;
    }
    None
}

/// Whether the list holds the name.
pub fn has_name(names: &Vec<String>, name: &str) -> (r: bool)
    ensures
        r == text_views(names@).contains(name@),
{
    proof {
        lemma_position_contains(text_views(names@), name@);
    }
    find_name(names, name).is_some()
}

/// Whether `pat` stands somewhere in `s`.
pub fn contains(s: &str, pat: &str) -> (r: bool)
    ensures
        r == contains_text(s@, pat@),
{
    proof {
        lemma_find_from(s@, 0, pat@);
    }
    let found = find(s, 0, pat);
    proof {
        if found is None {
            assert forall|i: int| !occurs_at(s@, i, pat@) by {}
        }
    }
    found.is_some()
}

/// The character of a decimal digit.
pub open spec fn digit_char(d: nat) -> char {
    if d == 0 {
        '0'
    } else if d == 1 {
        '1'
    } else if d == 2 {
        '2'
    } else if d == 3 {
        '3'
    } else if d == 4 {
        '4'
    } else if d == 5 {
        '5'
    } else if d == 6 {
        '6'
    } else if d == 7 {
        '7'
    } else if d == 8 {
        '8'
    } else {
        '9'
    }
}

/// The decimal digits of a number, without leading zeros.
pub open spec fn decimal_text(n: nat) -> Seq<char>
    decreases n,
{
    if n < 10 {
        seq![digit_char(n)]
    } else {
        decimal_text(n / 10).push(digit_char(n % 10))
    }
}

fn digit_str(d: u64) -> (r: &'static str)
    requires
        d < 10,
    ensures
        r@ == seq![digit_char(d as nat)],
{
    proof {
        reveal_strlit("0");
        reveal_strlit("1");
        reveal_strlit("2");
        reveal_strlit("3");
        reveal_strlit("4");
        reveal_strlit("5");
        reveal_strlit("6");
        reveal_strlit("7");
        reveal_strlit("8");
        reveal_strlit("9");
    }
    let r = if d == 0 {
        "0"
    } else if d == 1 {
        "1"
    } else if d == 2 {
        "2"
    } else if d == 3 {
        "3"
    } else if d == 4 {
        "4"
    } else if d == 5 {
        "5"
    } else if d == 6 {
        "6"
    } else if d == 7 {
        "7"
    } else if d == 8 {
        "8"
    } else {
        "9"
    };
    assert(r@ =~= seq![digit_char(d as nat)]);
    r
}

/// The decimal digits of a number, without leading zeros.
pub fn decimal(n: u64) -> (r: String)
    ensures
        r@ == decimal_text(n as nat),
    decreases n,
{
    if n < 10 {
        digit_str(n).to_owned()
    } else {
        let r = decimal(n / 10).concat(digit_str(n % 10));
        assert(r@ =~= decimal_text((n / 10) as nat).push(digit_char((n % 10) as nat)));
        r
    }
}

/// The views of a list of pairs of strings.
pub open spec fn pair_views(v: Seq<(String, String)>) -> Seq<(Seq<char>, Seq<char>)> {
    Seq::new(v.len(), |i: int| (v[i].0@, v[i].1@))
}

/// A copy of a list of pairs of strings.
pub fn copy_pairs(pairs: &Vec<(String, String)>) -> (r: Vec<(String, String)>)
    ensures
        pair_views(r@) == pair_views(pairs@),
{
    let mut copy: Vec<(String, String)> = Vec::new();
    let mut i: usize = 0;
    while i < pairs.len()
        invariant
            i <= pairs.len(),
            copy@.len() == i,
            forall|j: int| 0 <= j < i ==> copy@[j].0@ == pairs@[j].0@ && copy@[j].1@ == pairs@[j].1@,
        decreases pairs.len() - i,
    {
        copy.push((pairs[i].0.clone(), pairs[i].1.clone()));
        i += 1;
    }
    assert(pair_views(copy@) =~= pair_views(pairs@));
    copy
}

/// The text in upper case, as `str::to_uppercase` gives it.
pub uninterp spec fn uppercase(text: Seq<char>) -> Seq<char>;

/// Calls `str::to_uppercase`: the text with each character replaced by its
/// Unicode upper-case form. The result is a function of the text alone.
#[verifier::external_body]
pub(crate) fn to_uppercase(text: &str) -> (r: String)
    ensures
        r@ == uppercase(text@),
{
    text.to_uppercase()
}

/// The text without the white space at its ends, as `str::trim` gives it.
pub uninterp spec fn trimmed(text: Seq<char>) -> Seq<char>;

/// Calls `str::trim`: the text without leading and trailing Unicode white
/// space. The result is a function of the text alone.
#[verifier::external_body]
pub(crate) fn trim(text: &str) -> (r: String)
    ensures
        r@ == trimmed(text@),
{
    text.trim().to_owned()
}

/// How two texts order from index `i` on, given that they agree before it:
/// by the first character in which they differ, a text that ends first
/// coming before.
pub open spec fn text_order_from(a: Seq<char>, b: Seq<char>, i: int) -> Comparison
    decreases a.len() - i,
{
    if i < 0 || (i >= a.len() && i >= b.len()) {
        Comparison::Equal
    } else if i >= a.len() {
        Comparison::Less
    } else if i >= b.len() {
        Comparison::Greater
    } else if (a[i] as u32) < (b[i] as u32) {
        Comparison::Less
    } else if (a[i] as u32) > (b[i] as u32) {
        Comparison::Greater
    } else {
        text_order_from(a, b, i + 1)
    }
}

/// How two texts order, character by character.
pub open spec fn text_order(a: Seq<char>, b: Seq<char>) -> Comparison {
    text_order_from(a, b, 0)
}

/// How two texts order, character by character.
pub fn order_texts(a: &str, b: &str) -> (r: Comparison)
    ensures
        r == text_order(a@, b@),
{
    let n = a.unicode_len();
    let m = b.unicode_len();
    let mut i: usize = 0;
    while i < n && i < m
        invariant
            n == a@.len(),
            m == b@.len(),
            i <= n,
            i <= m,
            text_order_from(a@, b@, i as int) == text_order(a@, b@),
        decreases n - i,
    {
        let x = a.get_char(i) as u32;
        let y = b.get_char(i) as u32;
        if x < y {
            return Comparison::Less;
        }
        if x > y {
            return Comparison::Greater;
        }
        i += 1;
    }
    if i < m {
        Comparison::Less
    } else if i < n {
        Comparison::Greater
    } else {
        Comparison::Equal
    }
}

/// A copy of a string that may be absent.
pub fn copy_optional(s: &Option<String>) -> (r: Option<String>)
    ensures
        r == *s,
{
    match s {
        Some(x) => Some(x.clone()),
        None => None,
    }
}

/// A copy of a list of strings.
pub fn copy_names(names: &Vec<String>) -> (r: Vec<String>)
    ensures
        text_views(r@) == text_views(names@),
{
    let mut copy: Vec<String> = Vec::new();
    let mut i: usize = 0;
    while i < names.len()
        invariant
            i <= names.len(),
            copy@.len() == i,
            forall|j: int| 0 <= j < i ==> copy@[j]@ == names@[j]@,
        decreases names.len() - i,
    {
        copy.push(names[i].clone());
        i += 1;
    }
    assert(text_views(copy@) =~= text_views(names@));
    copy
}

} // verus!
