//! Text helpers: comparison, substring search, case folding, decimal
//! numbers and building strings one character at a time.

use vstd::prelude::*;
use vstd::string::StrSliceExecFns;
use vstd::string::StringExecFns;
use vstd::utf8::{decode_utf8, encode_utf8, is_char_boundary};

verus! {

/// The lowercase form of a text, as the standard library computes it
/// (Unicode lowercase mapping).
pub uninterp spec fn lowercase(s: Seq<char>) -> Seq<char>;

/// Lowercases a text with `str::to_lowercase`. The mapping is the Unicode
/// one; what it yields on a given text is left to the name `lowercase`,
/// but for the empty text, which stays empty.
#[verifier::external_body]
pub(crate) fn to_lowercase(s: &str) -> (r: String)
    ensures
        r@ == lowercase(s@),
        s@.len() == 0 ==> r@.len() == 0,
{
    s.to_lowercase()
}

/// The uppercase form of a text, as the standard library computes it
/// (Unicode uppercase mapping).
pub uninterp spec fn uppercase(s: Seq<char>) -> Seq<char>;

/// Uppercases a text with `str::to_uppercase`. The mapping is the Unicode
/// one; what it yields on a given text is left to the name `uppercase`.
#[verifier::external_body]
pub(crate) fn to_uppercase(s: &str) -> (r: String)
    ensures
        r@ == uppercase(s@),
{
    s.to_uppercase()
}

/// Appends a character with `String::push`.
#[verifier::external_body]
pub(crate) fn push_char(s: &mut String, c: char)
    ensures
        final(s)@ == old(s)@.push(c),
{
    s.push(c)
}

/// Removes the last character with `String::pop`.
#[verifier::external_body]
pub(crate) fn pop_char(s: &mut String) -> (r: Option<char>)
    ensures
        old(s)@.len() == 0 ==> r is None && final(s)@ == old(s)@,
        old(s)@.len() > 0 ==> r == Some(old(s)@.last()) && final(s)@ == old(s)@.drop_last(),
{
    s.pop()
}

/// A new string holding the text.
pub fn owned(s: &str) -> (r: String)
    ensures
        r@ == s@,
{
    s.to_owned()
}

/// Appends a text to a string.
pub fn append(s: &mut String, t: &str)
    ensures
        final(s)@ == old(s)@ + t@,
{
    s.append(t)
}

/// Whether two texts are equal.
pub fn str_eq(a: &str, b: &str) -> (r: bool)
    ensures
        r == (a@ == b@),
{
    let n = a.unicode_len();
    if n != b.unicode_len() {
        return false;
    }
    let mut i: usize = 0;
    while i < n
        invariant
            n == a@.len(),
            n == b@.len(),
            i <= n,
            forall|j: int| 0 <= j < i ==> a@[j] == b@[j],
        decreases n - i,
    {
        if a.get_char(i) != b.get_char(i) {
            return false;
        }
        i = i + 1;
    }
    assert(a@ =~= b@);
    true
}

/// Whether `q` occurs in `s` starting at position `i`.
pub open spec fn occurs_at(s: Seq<char>, q: Seq<char>, i: int) -> bool {
    0 <= i && i + q.len() <= s.len() && s.subrange(i, i + q.len()) == q
}

/// Whether `q` occurs in `s`.
pub open spec fn has_substring(s: Seq<char>, q: Seq<char>) -> bool {
    exists|i: int| occurs_at(s, q, i)
}

/// The characters of a text.
pub fn chars_of(s: &str) -> (r: Vec<char>)
    ensures
        r@ == s@,
{
    let n = s.unicode_len();
    let mut r: Vec<char> = Vec::new();
    let mut i: usize = 0;
    while i < n
        invariant
            n == s@.len(),
            i <= n,
            r@ == s@.take(i as int),
        decreases n - i,
    {
        r.push(s.get_char(i));
        assert(r@ =~= s@.take(i + 1));
        i = i + 1;
    }
    assert(r@ =~= s@);
    r
}

fn occurs_at_exec(s: &Vec<char>, q: &Vec<char>, i: usize) -> (r: bool)
    requires
        i + q@.len() <= s@.len(),
    ensures
        r == occurs_at(s@, q@, i as int),
{
    let sl = s.len();
    let mut k: usize = 0;
    while k < q.len()
        invariant
            sl == s@.len(),
            i + q@.len() <= s@.len(),
            k <= q@.len(),
            forall|j: int| 0 <= j < k ==> s@[i + j] == q@[j],
        decreases q@.len() - k,
    {
        if s[i + k] != q[k] {
            assert(s@.subrange(i as int, i + q@.len())[k as int] != q@[k as int]);
            return false;
        }
        k = k + 1;
    }
    assert(s@.subrange(i as int, i + q@.len()) =~= q@);
    true
}

/// Whether `q` occurs in `s`.
pub fn contains_str(s: &str, q: &str) -> (r: bool)
    ensures
        r == has_substring(s@, q@),
{
    let sc = chars_of(s);
    let qc = chars_of(q);
    if qc.len() > sc.len() {
        assert forall|i: int| !occurs_at(s@, q@, i) by {}
        return false;
    }
    if qc.len() == 0 {
        assert(s@.subrange(0, 0) =~= q@);
        assert(occurs_at(s@, q@, 0));
        return true;
    }
    let last = sc.len() - qc.len();
    let mut i: usize = 0;
    while i <= last
        invariant
            sc@ == s@,
            qc@ == q@,
            last == sc@.len() - qc@.len(),
            qc@.len() > 0,
            last < usize::MAX,
            i <= last + 1,
            forall|j: int| 0 <= j < i ==> !occurs_at(s@, q@, j),
        decreases last + 1 - i,
    {
        if occurs_at_exec(&sc, &qc, i) {
            return true;
        }
        i = i + 1;
    }
    assert forall|j: int| !occurs_at(s@, q@, j) by {
        if 0 <= j && j + q@.len() <= s@.len() {
            assert(j < i);
        }
    }
    false
}

/// A string made of the given characters.
pub fn string_from_chars(cs: &Vec<char>) -> (r: String)
    ensures
        r@ == cs@,
{
    let mut r = String::new();
    let mut i: usize = 0;
    while i < cs.len()
        invariant
            i <= cs@.len(),
            r@ == cs@.take(i as int),
        decreases cs@.len() - i,
    {
        push_char(&mut r, cs[i]);
        assert(r@ =~= cs@.take(i + 1));
        i = i + 1;
    }
    assert(r@ =~= cs@);
    r
}

/// The decimal digit for a value below ten.
pub open spec fn digit_char(d: nat) -> char {
    if d == 0 {
        '0'
    } else if d == 1 {
        '1'
    } else if d == 2 {
        '2'
    } else if d == 3 {
        '3'
    } else if d == 4 {
        '4'
    } else if d == 5 {
        '5'
    } else if d == 6 {
        '6'
    } else if d == 7 {
        '7'
    } else if d == 8 {
        '8'
    } else {
        '9'
    }
}

/// The decimal notation of a number, without leading zeros.
pub open spec fn decimal(n: nat) -> Seq<char>
    decreases n,
{
    if n < 10 {
        seq![digit_char(n)]
    } else {
        decimal(n / 10).push(digit_char(n % 10))
    }
}

fn digit(d: u64) -> (c: char)
    requires
        d < 10,
    ensures
        c == digit_char(d as nat),
{
    if d == 0 {
        '0'
    } else if d == 1 {
        '1'
    } else if d == 2 {
        '2'
    } else if d == 3 {
        '3'
    } else if d == 4 {
        '4'
    } else if d == 5 {
        '5'
    } else if d == 6 {
        '6'
    } else if d == 7 {
        '7'
    } else if d == 8 {
        '8'
    } else {
        '9'
    }
}

/// Appends the decimal notation of `n`.
pub fn push_decimal(s: &mut String, n: u64)
    ensures
        final(s)@ == old(s)@ + decimal(n as nat),
    decreases n,
{
    if n >= 10 {
        push_decimal(s, n / 10);
        push_char(s, digit(n % 10));
    } else {
        push_char(s, digit(n));
    }
    assert(final(s)@ =~= old(s)@ + decimal(n as nat)) by {
        if n >= 10 {
            assert(decimal(n as nat) == decimal((n / 10) as nat).push(digit_char((n % 10) as nat)));
        }
    }
}

/// The decimal notation of `n`.
pub fn decimal_string(n: u64) -> (r: String)
    ensures
        r@ == decimal(n as nat),
{
    let mut r = String::new();
    push_decimal(&mut r, n);
    assert(r@ =~= decimal(n as nat));
    r
}

/// The length of a text in bytes of UTF-8, as `str::len` reports it.
pub open spec fn byte_len(s: Seq<char>) -> usize {
    encode_utf8(s).len() as usize
}

/// Whether byte offset `n` of the text falls between two characters (or at
/// either end), so that the text can be cut there.
pub open spec fn cuts_at(s: Seq<char>, n: int) -> bool {
    is_char_boundary(encode_utf8(s), n)
}

/// The text held by the first `n` bytes.
pub open spec fn byte_prefix(s: Seq<char>, n: int) -> Seq<char> {
    decode_utf8(encode_utf8(s).subrange(0, n))
}

/// The text held by the bytes from offset `n` on.
pub open spec fn byte_suffix(s: Seq<char>, n: int) -> Seq<char> {
    decode_utf8(encode_utf8(s).subrange(n, encode_utf8(s).len() as int))
}

/// A character takes at most four bytes.
pub proof fn lemma_byte_len_bound(s: Seq<char>)
    ensures
        encode_utf8(s).len() <= 4 * s.len(),
    decreases s.len(),
{
    if s.len() > 0 {
        lemma_byte_len_bound(s.drop_first());
    }
}

/// The first `n` bytes of a text (`&s[..n]`).
pub fn prefix_bytes(s: &str, n: usize) -> (r: &str)
    requires
        cuts_at(s@, n as int),
    ensures
        r@ == byte_prefix(s@, n as int),
{
    let (a, _b) = s.split_at(n);
    proof {
        vstd::utf8::encode_utf8_decode_utf8(a@);
    }
    a
}

/// The bytes of a text from offset `n` on (`&s[n..]`).
pub fn suffix_bytes(s: &str, n: usize) -> (r: &str)
    requires
        cuts_at(s@, n as int),
    ensures
        r@ == byte_suffix(s@, n as int),
{
    let (_a, b) = s.split_at(n);
    proof {
        vstd::utf8::encode_utf8_decode_utf8(b@);
    }
    b
}

/// The text before the first `c`; all of it when `c` does not occur. This
/// is the first piece of `split(c)`.
pub open spec fn before_char(s: Seq<char>, c: char) -> Seq<char>
    decreases s.len(),
{
    if s.len() == 0 {
        s
    } else if s[0] == c {
        Seq::empty()
    } else {
        seq![s[0]] + before_char(s.drop_first(), c)
    }
}

/// The text after the first `c`, if `c` occurs.
pub open spec fn after_char(s: Seq<char>, c: char) -> Option<Seq<char>>
    decreases s.len(),
{
    if s.len() == 0 {
        None
    } else if s[0] == c {
        Some(s.drop_first())
    } else {
        after_char(s.drop_first(), c)
    }
}

/// The second piece of `split(c)`: the text between the first and the
/// second `c`, if `c` occurs.
pub open spec fn second_piece(s: Seq<char>, c: char) -> Option<Seq<char>> {
    match after_char(s, c) {
        Some(rest) => Some(before_char(rest, c)),
        None => None,
    }
}

/// Skipping a start without `c` leaves both pieces as they were.
proof fn lemma_pieces_skip(s: Seq<char>, c: char, i: int)
    requires
        0 <= i <= s.len(),
        forall|j: int| 0 <= j < i ==> s[j] != c,
    ensures
        before_char(s, c) == s.take(i) + before_char(s.skip(i), c),
        after_char(s, c) == after_char(s.skip(i), c),
    decreases i,
{
    if i > 0 {
        let t = s.drop_first();
        assert forall|j: int| 0 <= j < i - 1 implies t[j] != c by {
            assert(t[j] == s[j + 1]);
        }
        lemma_pieces_skip(t, c, i - 1);
        assert(t.skip(i - 1) =~= s.skip(i));
        assert(seq![s[0]] + t.take(i - 1) =~= s.take(i));
    } else {
        assert(s.skip(0) =~= s);
        assert(s.take(0) + before_char(s, c) =~= before_char(s, c));
    }
}

/// The position of the first `c` among the characters; their number when
/// `c` does not occur.
fn find_char(cs: &Vec<char>, c: char) -> (i: usize)
    ensures
        i <= cs@.len(),
        forall|j: int| 0 <= j < i ==> cs@[j] != c,
        i < cs@.len() ==> cs@[i as int] == c,
{
    let mut i: usize = 0;
    while i < cs.len()
        invariant
            i <= cs@.len(),
            forall|j: int| 0 <= j < i ==> cs@[j] != c,
        decreases cs@.len() - i,
    {
        if cs[i] == c {
            return i;
        }
        i = i + 1;
    }
    i
}

/// The characters from `start` up to `end`, as a string.
fn string_of_range(cs: &Vec<char>, start: usize, end: usize) -> (r: String)
    requires
        start <= end <= cs@.len(),
    ensures
        r@ == cs@.subrange(start as int, end as int),
{
    let mut r = String::new();
    let mut i: usize = start;
    while i < end
        invariant
            start <= i <= end <= cs@.len(),
            r@ == cs@.subrange(start as int, i as int),
        decreases end - i,
    {
        push_char(&mut r, cs[i]);
        assert(r@ =~= cs@.subrange(start as int, i + 1));
        i = i + 1;
    }
    r
}

/// The first piece of `s.split(c)`.
pub fn first_piece(s: &str, c: char) -> (r: String)
    ensures
        r@ == before_char(s@, c),
{
    let cs = chars_of(s);
    let i = find_char(&cs, c);
    proof {
        lemma_pieces_skip(s@, c, i as int);
        if i < cs@.len() {
            assert(s@.skip(i as int)[0] == c);
        } else {
            assert(s@.skip(i as int).len() == 0);
        }
        assert(s@.take(i as int) =~= s@.subrange(0, i as int));
    }
    string_of_range(&cs, 0, i)
}

/// The second piece of `s.split(c)`, if there is one.
pub fn second_piece_of(s: &str, c: char) -> (r: Option<String>)
    ensures
        r matches Some(t) ==> second_piece(s@, c) == Some(t@),
        r is None ==> second_piece(s@, c) is None,
{
    let cs = chars_of(s);
    let i = find_char(&cs, c);
    proof {
        lemma_pieces_skip(s@, c, i as int);
    }
    if i == cs.len() {
        assert(s@.skip(i as int).len() == 0);
        return None;
    }
    let ghost rest = s@.skip(i as int).drop_first();
    assert(s@.skip(i as int)[0] == c);
    assert(after_char(s@, c) == Some(rest));
    let j = find_char_from(&cs, c, i + 1);
    proof {
        assert(rest =~= s@.skip(i + 1));
        lemma_pieces_skip(rest, c, (j - i - 1) as int);
        if j < cs@.len() {
            assert(rest.skip(j - i - 1)[0] == c);
        } else {
            assert(rest.skip(j - i - 1).len() == 0);
        }
        assert(rest.take(j - i - 1) =~= cs@.subrange(i + 1, j as int));
    }
    Some(string_of_range(&cs, i + 1, j))
}

/// The position of the first `c` at or after `start`; the number of
/// characters when there is none.
fn find_char_from(cs: &Vec<char>, c: char, start: usize) -> (i: usize)
    requires
        start <= cs@.len(),
    ensures
        start <= i <= cs@.len(),
        forall|j: int| start <= j < i ==> cs@[j] != c,
        i < cs@.len() ==> cs@[i as int] == c,
{
    let mut i: usize = start;
    while i < cs.len()
        invariant
            start <= i <= cs@.len(),
            forall|j: int| start <= j < i ==> cs@[j] != c,
        decreases cs@.len() - i,
    {
        if cs[i] == c {
            return i;
        }
        i = i + 1;
    }
    i
}

/// Whether text `a` comes before text `b`: compared character by character
/// by code point, a proper prefix first (the order of `String`).
pub open spec fn text_less(a: Seq<char>, b: Seq<char>) -> bool
    decreases a.len(),
{
    if b.len() == 0 {
        false
    } else if a.len() == 0 {
        true
    } else if a[0] != b[0] {
        (a[0] as u32) < (b[0] as u32)
    } else {
        text_less(a.drop_first(), b.drop_first())
    }
}

proof fn lemma_text_less_skip(a: Seq<char>, b: Seq<char>, i: int)
    requires
        0 <= i <= a.len(),
        i <= b.len(),
        forall|j: int| 0 <= j < i ==> a[j] == b[j],
    ensures
        text_less(a, b) == text_less(a.skip(i), b.skip(i)),
    decreases i,
{
    if i > 0 {
        lemma_text_less_skip(a.drop_first(), b.drop_first(), i - 1);
        assert(a.drop_first().skip(i - 1) =~= a.skip(i));
        assert(b.drop_first().skip(i - 1) =~= b.skip(i));
    } else {
        assert(a.skip(0) =~= a);
        assert(b.skip(0) =~= b);
    }
}

/// Whether one text comes before another.
pub fn less_text(a: &str, b: &str) -> (r: bool)
    ensures
        r == text_less(a@, b@),
{
    let ac = chars_of(a);
    let bc = chars_of(b);
    let mut i: usize = 0;
    while i < ac.len() && i < bc.len()
        invariant
            ac@ == a@,
            bc@ == b@,
            i <= ac@.len(),
            i <= bc@.len(),
            forall|j: int| 0 <= j < i ==> ac@[j] == bc@[j],
        ensures
            i <= ac@.len(),
            i <= bc@.len(),
            forall|j: int| 0 <= j < i ==> ac@[j] == bc@[j],
            i == ac@.len() || i == bc@.len() || ac@[i as int] != bc@[i as int],
        decreases ac@.len() - i,
    {
        if ac[i] != bc[i] {
            break;
        }
        i = i + 1;
    }
    proof {
        lemma_text_less_skip(a@, b@, i as int);
    }
    if i == bc.len() {
        false
    } else if i == ac.len() {
        true
    } else {
        (ac[i] as u32) < (bc[i] as u32)
    }
}

/// No text comes before itself.
pub proof fn lemma_text_less_irreflexive(a: Seq<char>)
    ensures
        !text_less(a, a),
    decreases a.len(),
{
    if a.len() > 0 {
        lemma_text_less_irreflexive(a.drop_first());
    }
}

/// Of two different texts, exactly one comes first.
pub proof fn lemma_text_less_total(a: Seq<char>, b: Seq<char>)
    ensures
        a != b ==> (text_less(a, b) || text_less(b, a)),
        !(text_less(a, b) && text_less(b, a)),
    decreases a.len(),
{
    if a.len() > 0 && b.len() > 0 {
        lemma_text_less_total(a.drop_first(), b.drop_first());
        if a[0] == b[0] && a != b {
            assert(a =~= seq![a[0]] + a.drop_first());
            assert(b =~= seq![b[0]] + b.drop_first());
            assert(a.drop_first() != b.drop_first());
        }
        if a[0] != b[0] {
            vstd::utf8::char_u32_cast(a[0], a[0] as u32);
            vstd::utf8::char_u32_cast(b[0], b[0] as u32);
        }
    } else if a.len() == 0 && b.len() == 0 {
        assert(a =~= b);
    }
}

/// The order of texts is transitive.
pub proof fn lemma_text_less_transitive(a: Seq<char>, b: Seq<char>, c: Seq<char>)
    requires
        text_less(a, b),
        text_less(b, c),
    ensures
        text_less(a, c),
    decreases a.len(),
{
    if a.len() > 0 && b.len() > 0 && c.len() > 0 {
        if a[0] == b[0] && b[0] == c[0] {
            lemma_text_less_transitive(a.drop_first(), b.drop_first(), c.drop_first());
        }
    }
}

} // verus!
