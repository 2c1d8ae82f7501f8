//! Character-level string operations with their specifications.
//!
//! Strings are reasoned about through their view, a `Seq<char>`.
use vstd::prelude::*;

verus! {

/// `String::push` appends one character to the end of the string.
pub assume_specification[ std::string::String::push ](s: &mut std::string::String, ch: char)
    ensures
        final(s)@ == old(s)@.push(ch),
;

/// The characters of `s`, in order.
pub fn chars_of(s: &str) -> (r: Vec<char>)
    ensures
        r@ == s@,
{
    let mut r: Vec<char> = Vec::new();
    for c in it: s.chars()
        invariant
            r@ == it.seq().take(it.index() as int),
    {
        r.push(c);
    }
    r
}

/// The string made of the characters of `v`, in order.
pub fn string_of(v: &Vec<char>) -> (s: String)
    ensures
        s@ == v@,
{
    let mut s = String::new();
    let mut i: usize = 0;
    while i < v.len()
        invariant
            i <= v.len(),
            s@ == v@.take(i as int),
        decreases v.len() - i,
    {
        s.push(v[i]);
        i = i + 1;
        assert(s@ == v@.take(i as int));
    }
    s
}

/// Appends the characters of `t` to `s`.
pub fn push_str(s: &mut String, t: &str)
    ensures
        final(s)@ == old(s)@ + t@,
{
    let chars = chars_of(t);
    let mut i: usize = 0;
    while i < chars.len()
        invariant
            i <= chars.len(),
            chars@ == t@,
            s@ == old(s)@ + t@.take(i as int),
        decreases chars.len() - i,
    {
        s.push(chars[i]);
        i = i + 1;
        assert(s@ == old(s)@ + t@.take(i as int));
    }
    assert(t@.take(chars.len() as int) == t@);
}

/// Whether `a` and `b` hold the same characters.
pub fn str_equal(a: &str, b: &str) -> (r: bool)
    ensures
        r == (a@ == b@),
{
    let x = chars_of(a);
    let y = chars_of(b);
    if x.len() != y.len() {
        return false;
    }
    let mut i: usize = 0;
    while i < x.len()
        invariant
            i <= x.len(),
            x.len() == y.len(),
            x@ == a@,
            y@ == b@,
            forall|k: int| 0 <= k < i ==> x@[k] == y@[k],
        decreases x.len() - i,
    {
        if x[i] != y[i] {
            return false;
        }
        i = i + 1;
    }
    assert(x@ =~= y@);
    true
}

/// An optional string as a view.
pub open spec fn opt_view(v: Option<String>) -> Option<Seq<char>> {
    match v {
        Some(s) => Some(s@),
        None => None,
    }
}

/// Whether two optional strings hold the same text, or are both absent.
pub fn opt_str_equal(a: &Option<String>, b: &Option<String>) -> (r: bool)
    ensures
        r == (opt_view(*a) == opt_view(*b)),
{
    match (a, b) {
        (Some(x), Some(y)) => *x == *y,
        (None, None) => true,
        _ => false,
    }
}

/// A copy of an optional string.
pub fn clone_opt_string(o: &Option<String>) -> (r: Option<String>)
    ensures
        r == *o,
{
    match o {
        Some(s) => Some(s.clone()),
        None => None,
    }
}

/// The concatenation of `a`, `b` and `c`.
pub fn concat3(a: &str, b: &str, c: &str) -> (r: String)
    ensures
        r@ == a@ + b@ + c@,
{
    let mut r = String::new();
    push_str(&mut r, a);
    push_str(&mut r, b);
    push_str(&mut r, c);
    assert(r@ == a@ + b@ + c@);
    r
}

/// `needle` stands in `hay` starting at position `i`.
pub open spec fn occurs_at(hay: Seq<char>, needle: Seq<char>, i: int) -> bool {
    &&& 0 <= i
    &&& i + needle.len() <= hay.len()
    &&& hay.subrange(i, i + needle.len()) == needle
}

/// `needle` is a contiguous part of `hay` (the empty sequence is part of any sequence).
pub open spec fn contains_seq(hay: Seq<char>, needle: Seq<char>) -> bool {
    exists|i: int| occurs_at(hay, needle, i)
}

fn occurs_at_exec(hay: &Vec<char>, needle: &Vec<char>, i: usize) -> (r: bool)
    requires
        i + needle.len() <= hay.len(),
    ensures
        r == occurs_at(hay@, needle@, i as int),
{
    let n = needle.len();
    let mut j: usize = 0;
    while j < n
        invariant
            j <= n,
            n == needle.len(),
            i + n <= hay.len(),
            forall|k: int| 0 <= k < j ==> hay@[i + k] == needle@[k],
        decreases n - j,
    {
        if hay[i + j] != needle[j] {
            assert(hay@.subrange(i as int, i + n)[j as int] != needle@[j as int]);
            return false;
        }
        j = j + 1;
    }
    assert(hay@.subrange(i as int, i + n) =~= needle@);
    true
}

/// Whether `needle` occurs in `hay`, as `str::contains` with a string pattern answers.
pub fn str_contains(hay: &str, needle: &str) -> (r: bool)
    ensures
        r == contains_seq(hay@, needle@),
{
    let h = chars_of(hay);
    let n = chars_of(needle);
    if n.len() > h.len() {
        return false;
    }
    let last = h.len() - n.len();
    let mut i: usize = 0;
    loop
        invariant
            i <= last,
            last + n.len() == h.len(),
            h@ == hay@,
            n@ == needle@,
            forall|k: int| 0 <= k < i ==> !occurs_at(hay@, needle@, k),
        decreases last - i,
    {
        if occurs_at_exec(&h, &n, i) {
            return true;
        }
        if i == last {
            assert forall|k: int| !occurs_at(hay@, needle@, k) by {
                if 0 <= k < i {
                }
            }
            return false;
        }
        i = i + 1;
    }
}

/// The pieces of `s` between the occurrences of `sep`, as `str::split` with a `char`
/// pattern yields them: one more piece than there are separators.
pub open spec fn split_seq(s: Seq<char>, sep: char) -> Seq<Seq<char>>
    decreases s.len(),
{
    if s.len() == 0 {
        seq![Seq::<char>::empty()]
    } else {
        let prev = split_seq(s.drop_last(), sep);
        if s.last() == sep {
            prev.push(Seq::<char>::empty())
        } else {
            prev.update(prev.len() - 1, prev.last().push(s.last()))
        }
    }
}

/// `split_seq` never yields an empty list.
pub proof fn lemma_split_seq_nonempty(s: Seq<char>, sep: char)
    ensures
        split_seq(s, sep).len() >= 1,
    decreases s.len(),
{
    if s.len() > 0 {
        lemma_split_seq_nonempty(s.drop_last(), sep);
    }
}

/// Views of a vector of strings.
pub open spec fn string_views(v: Seq<String>) -> Seq<Seq<char>> {
    v.map_values(|x: String| x@)
}

/// Splits `s` at each occurrence of `sep`.
pub fn split_char(s: &str, sep: char) -> (r: Vec<String>)
    ensures
        string_views(r@) == split_seq(s@, sep),
{
    let chars = chars_of(s);
    let mut pieces: Vec<String> = Vec::new();
    let mut current: Vec<char> = Vec::new();
    let mut i: usize = 0;
    proof {
        assert(s@.take(0).len() == 0);
        assert(string_views(pieces@).push(current@) =~= split_seq(s@.take(0), sep));
    }
    while i < chars.len()
        invariant
            i <= chars.len(),
            chars@ == s@,
            string_views(pieces@).push(current@) == split_seq(s@.take(i as int), sep),
        decreases chars.len() - i,
    {
        let c = chars[i];
        proof {
            lemma_split_seq_nonempty(s@.take(i as int), sep);
            assert(s@.take(i + 1).drop_last() =~= s@.take(i as int));
            assert(s@.take(i + 1).last() == c);
        }
        if c == sep {
            let piece = string_of(&current);
            pieces.push(piece);
            current = Vec::new();
            assert(string_views(pieces@).push(current@) =~= split_seq(s@.take(i + 1), sep));
        } else {
            current.push(c);
            assert(string_views(pieces@).push(current@) =~= split_seq(s@.take(i + 1), sep));
        }
        i = i + 1;
    }
    let last = string_of(&current);
    pieces.push(last);
    assert(s@.take(chars.len() as int) =~= s@);
    assert(string_views(pieces@) =~= split_seq(s@, sep));
    pieces
}

/// The pieces of `list` with `sep` between each two neighbours, as `join` on a slice of
/// strings gives them.
pub open spec fn join_seq(list: Seq<Seq<char>>, sep: Seq<char>) -> Seq<char>
    decreases list.len(),
{
    if list.len() == 0 {
        Seq::<char>::empty()
    } else if list.len() == 1 {
        list[0]
    } else {
        join_seq(list.drop_last(), sep) + sep + list.last()
    }
}

/// Joins the strings of `list` with `sep` between each two neighbours.
pub fn join_strings(list: &Vec<String>, sep: &str) -> (r: String)
    ensures
        r@ == join_seq(string_views(list@), sep@),
{
    let mut r = String::new();
    let mut i: usize = 0;
    while i < list.len()
        invariant
            i <= list.len(),
            r@ == join_seq(string_views(list@).take(i as int), sep@),
        decreases list.len() - i,
    {
        proof {
            assert(string_views(list@).take(i + 1).drop_last() =~= string_views(list@).take(
                i as int,
            ));
        }
        if i != 0 {
            push_str(&mut r, sep);
        }
        push_str(&mut r, list[i].as_str());
        i = i + 1;
    }
    assert(string_views(list@).take(list.len() as int) =~= string_views(list@));
    r
}

/// The character of a digit below 16 in lower-case hexadecimal notation.
pub open spec fn hex_digit(d: nat) -> char {
    if d < 10 {
        (('0' as nat) + d) as char
    } else {
        (('a' as nat) + d - 10) as char
    }
}

/// The octet `b` as two lower-case hexadecimal digits, as the `{:02x}` format prints
/// it.
pub open spec fn hex_octet(b: u8) -> Seq<char> {
    seq![hex_digit((b / 16) as nat), hex_digit((b % 16) as nat)]
}

fn hex_digit_exec(d: u8) -> (c: char)
    requires
        d < 16,
    ensures
        c == hex_digit(d as nat),
{
    match d {
        0 => '0',
        1 => '1',
        2 => '2',
        3 => '3',
        4 => '4',
        5 => '5',
        6 => '6',
        7 => '7',
        8 => '8',
        9 => '9',
        10 => 'a',
        11 => 'b',
        12 => 'c',
        13 => 'd',
        14 => 'e',
        _ => 'f',
    }
}

/// The octet `b` as two lower-case hexadecimal digits.
pub fn u8_to_hex(b: u8) -> (s: String)
    ensures
        s@ == hex_octet(b),
{
    let mut s = String::new();
    s.push(hex_digit_exec(b / 16));
    s.push(hex_digit_exec(b % 16));
    assert(s@ =~= hex_octet(b));
    s
}

/// The character of a decimal digit.
pub open spec fn decimal_digit(d: nat) -> char {
    (('0' as nat) + d) as char
}

/// `n` in decimal notation without leading zeros, as `to_string` prints an integer.
pub open spec fn decimal_seq(n: nat) -> Seq<char>
    decreases n,
{
    if n < 10 {
        seq![decimal_digit(n)]
    } else {
        decimal_seq(n / 10).push(decimal_digit(n % 10))
    }
}

fn decimal_digit_exec(d: u64) -> (c: char)
    requires
        d < 10,
    ensures
        c == decimal_digit(d as nat),
{
    match d {
        0 => '0',
        1 => '1',
        2 => '2',
        3 => '3',
        4 => '4',
        5 => '5',
        6 => '6',
        7 => '7',
        8 => '8',
        _ => '9',
    }
}

/// `n` in decimal notation.
pub fn u64_to_decimal(n: u64) -> (s: String)
    ensures
        s@ == decimal_seq(n as nat),
    decreases n,
{
    if n < 10 {
        let mut s = String::new();
        s.push(decimal_digit_exec(n));
        assert(s@ =~= decimal_seq(n as nat));
        s
    } else {
        let mut s = u64_to_decimal(n / 10);
        s.push(decimal_digit_exec(n % 10));
        s
    }
}

/// `t` occurs in `s`.
pub open spec fn has_text(s: Seq<char>, t: Seq<char>) -> bool {
    exists|i: int| 0 <= i && i + t.len() <= s.len() && #[trigger] s.subrange(i, i + t.len()) == t
}

/// A text occurs in any text that has it between two others.
pub proof fn lemma_has_text_middle(a: Seq<char>, t: Seq<char>, b: Seq<char>)
    ensures
        has_text(a + t + b, t),
{
    let s = a + t + b;
    assert(s.subrange(a.len() as int, (a.len() + t.len()) as int) =~= t);
}

} // verus!
