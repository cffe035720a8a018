//! Text as sequences of characters.
//!
//! The session layer compares and builds protocol text character by character;
//! the functions here move between `str` and `Vec<char>` and state the few
//! character-level operations it needs.

use vstd::prelude::*;

verus! {

/// The lower-case form of an ASCII capital; any other character unchanged.
pub open spec fn lower(c: char) -> char {
    if 'A' <= c && c <= 'Z' {
        ((c as u8) + 32) as char
    } else {
        c
    }
}

/// `s` with each character in lower case, in the ASCII sense.
pub open spec fn lowered(s: Seq<char>) -> Seq<char> {
    Seq::new(s.len(), |i: int| lower(s[i]))
}

/// Whether `c` is a control character, as `char::is_control` reports it.
pub uninterp spec fn is_control_char(c: char) -> bool;

/// Whether `c` is white space, as `char::is_whitespace` reports it.
pub uninterp spec fn is_white_space(c: char) -> bool;

/// `s` from its first character that is not white space on.
pub open spec fn without_leading_space(s: Seq<char>) -> Seq<char>
    decreases s.len(),
{
    if s.len() > 0 && is_white_space(s[0]) {
        without_leading_space(s.skip(1))
    } else {
        s
    }
}

/// `s` up to its last character that is not white space.
pub open spec fn without_trailing_space(s: Seq<char>) -> Seq<char>
    decreases s.len(),
{
    if s.len() > 0 && is_white_space(s.last()) {
        without_trailing_space(s.drop_last())
    } else {
        s
    }
}

/// `s` without the white space at its beginning and at its end.
pub open spec fn trimmed_text(s: Seq<char>) -> Seq<char> {
    without_trailing_space(without_leading_space(s))
}

/// The texts of a sequence of strings, element by element.
pub open spec fn texts_of(strings: Seq<String>) -> Seq<Seq<char>> {
    Seq::new(strings.len(), |i: int| strings[i]@)
}

/// Whether `a` and `b` have the same first `k` characters.
pub open spec fn agree_until(a: Seq<char>, b: Seq<char>, k: int) -> bool {
    &&& 0 <= k <= a.len()
    &&& k <= b.len()
    &&& forall|j: int| 0 <= j < k ==> a[j] == b[j]
}

/// Whether `a` comes before `b` in the order of a dictionary: at the first
/// place where they differ `a` has the lesser character, or `a` ends there
/// and `b` goes on.
pub open spec fn text_lt(a: Seq<char>, b: Seq<char>) -> bool {
    exists|k: int| #[trigger] agree_until(a, b, k) && k < b.len() && (k == a.len() || a[k] < b[k])
}

/// How two texts stand to each other in the order of a dictionary.
#[derive(Debug, Clone, Copy, PartialEq, Eq, Structural)]
pub enum TextOrder {
    Before,
    Same,
    After,
}

/// The decimal digit of a number below ten.
pub open spec fn digit(d: nat) -> char
    recommends
        d < 10,
{
    (('0' as u8) + d) as char
}

/// The decimal representation of `n`, without leading zeros.
pub open spec fn decimal_text(n: nat) -> Seq<char>
    decreases n,
{
    if n < 10 {
        seq![digit(n)]
    } else {
        decimal_text(n / 10).push(digit(n % 10))
    }
}

/// `String::from_iter` over characters: the text with exactly these characters.
#[verifier::external_body]
pub(crate) fn string_of(chars: &Vec<char>) -> (r: String)
    ensures
        r@ == chars@,
{
    chars.iter().collect()
}

/// `char::is_whitespace`: whether the character is white space.
#[verifier::external_body]
pub(crate) fn is_space(c: char) -> (r: bool)
    ensures
        r == is_white_space(c),
{
    c.is_whitespace()
}

/// `char::is_control`: whether the character is a control code.
#[verifier::external_body]
pub(crate) fn is_control(c: char) -> (r: bool)
    ensures
        r == is_control_char(c),
{
    c.is_control()
}

/// The characters of `s`, in order.
pub fn chars_of(s: &str) -> (r: Vec<char>)
    ensures
        r@ == s@,
{
    let mut out: Vec<char> = Vec::new();
    for c in it: s.chars()
        invariant
            it.seq() == s@,
            out@ == it.seq().take(it.index() as int),
    {
        out.push(c);
    }
    out
}

/// Lower-cases one character in the ASCII sense.
pub fn lower_ascii(c: char) -> (r: char)
    ensures
        r == lower(c),
{
    if 'A' <= c && c <= 'Z' {
        let b: u8 = c as u8;
        (b + 32) as char
    } else {
        c
    }
}

/// Whether `s` begins with `prefix`.
pub fn has_prefix(s: &str, prefix: &str) -> (r: bool)
    ensures
        r == prefix@.is_prefix_of(s@),
{
    let text = chars_of(s);
    let head = chars_of(prefix);
    if head.len() > text.len() {
        return false;
    }
    let mut i: usize = 0;
    while i < head.len()
        invariant
            i <= head.len() <= text.len(),
            text@ == s@,
            head@ == prefix@,
            forall|k: int| 0 <= k < i ==> text@[k] == head@[k],
        decreases head.len() - i,
    {
        if text[i] != head[i] {
            return false;
        }
        i += 1;
    }
    assert(prefix@ =~= s@.subrange(0, prefix@.len() as int));
    true
}

/// Appends the decimal representation of `n` to `out`.
fn push_decimal(n: u64, out: &mut Vec<char>)
    ensures
        final(out)@ == old(out)@ + decimal_text(n as nat),
    decreases n,
{
    if n >= 10 {
        push_decimal(n / 10, out);
    }
    let d: u8 = (n % 10) as u8;
    out.push((48u8 + d) as char);
}

/// Writes `n` in decimal.
pub fn decimal(n: u64) -> (r: String)
    ensures
        r@ == decimal_text(n as nat),
{
    let mut out: Vec<char> = Vec::new();
    push_decimal(n, &mut out);
    string_of(&out)
}

/// Of two texts that agree up to some place, one comes before the other or
/// they are the same.
proof fn lemma_order_from(a: Seq<char>, b: Seq<char>, i: int)
    requires
        agree_until(a, b, i),
    ensures
        a == b || text_lt(a, b) || text_lt(b, a),
    decreases a.len() - i,
{
    if i == a.len() {
        if i == b.len() {
            assert(a =~= b);
        } else {
            assert(agree_until(a, b, i) && i < b.len());
        }
    } else if i == b.len() {
        assert(agree_until(b, a, i) && i < a.len());
    } else if a[i] == b[i] {
        lemma_order_from(a, b, i + 1);
    } else if a[i] < b[i] {
        assert(agree_until(a, b, i) && i < b.len());
    } else {
        assert(agree_until(b, a, i) && i < a.len());
    }
}

/// Any two texts are the same, or one comes before the other.
pub proof fn lemma_text_order_total(a: Seq<char>, b: Seq<char>)
    ensures
        a == b || text_lt(a, b) || text_lt(b, a),
{
    lemma_order_from(a, b, 0);
}

/// A text that comes before another is not the same and does not come after
/// it.
pub proof fn lemma_text_lt_asymmetric(a: Seq<char>, b: Seq<char>)
    requires
        text_lt(a, b),
    ensures
        a != b,
        !text_lt(b, a),
{
    let k = choose|k: int| #[trigger] agree_until(a, b, k) && k < b.len() && (k == a.len() || a[k] < b[k]);
    if text_lt(b, a) {
        let m = choose|m: int| #[trigger]
            agree_until(b, a, m) && m < a.len() && (m == b.len() || b[m] < a[m]);
        if m < k {
            assert(a[m] == b[m]);
        } else if k < m {
            assert(b[k] == a[k]);
        }
    }
}

/// The order of a dictionary is transitive.
pub proof fn lemma_text_lt_transitive(a: Seq<char>, b: Seq<char>, c: Seq<char>)
    requires
        text_lt(a, b),
        text_lt(b, c),
    ensures
        text_lt(a, c),
{
    let k1 = choose|k: int| #[trigger]
        agree_until(a, b, k) && k < b.len() && (k == a.len() || a[k] < b[k]);
    let k2 = choose|k: int| #[trigger]
        agree_until(b, c, k) && k < c.len() && (k == b.len() || b[k] < c[k]);
    let k = if k1 <= k2 {
        k1
    } else {
        k2
    };
    assert(agree_until(a, c, k));
    if k1 < k2 {
        assert(b[k1] == c[k1]);
    } else if k2 < k1 {
        assert(a[k2] == b[k2]);
    }
    assert(k < c.len() && (k == a.len() || a[k] < c[k]));
}

/// Compares two texts in the order of a dictionary.
pub fn text_order(a: &Vec<char>, b: &Vec<char>) -> (r: TextOrder)
    ensures
        (r == TextOrder::Before) == text_lt(a@, b@),
        (r == TextOrder::Same) == (a@ == b@),
        (r == TextOrder::After) == text_lt(b@, a@),
{
    let mut i: usize = 0;
    while i < a.len() && i < b.len() && a[i] == b[i]
        invariant
            agree_until(a@, b@, i as int),
        decreases a.len() - i,
    {
        i += 1;
    }
    let result = if i == a.len() {
        if i == b.len() {
            assert(a@ =~= b@);
            TextOrder::Same
        } else {
            assert(agree_until(a@, b@, i as int) && i < b@.len());
            TextOrder::Before
        }
    } else if i == b.len() {
        assert(agree_until(b@, a@, i as int) && i < a@.len());
        TextOrder::After
    } else if a[i] < b[i] {
        assert(agree_until(a@, b@, i as int) && i < b@.len());
        TextOrder::Before
    } else {
        assert(agree_until(b@, a@, i as int) && i < a@.len());
        TextOrder::After
    };
    proof {
        if text_lt(a@, b@) {
            lemma_text_lt_asymmetric(a@, b@);
        }
        if text_lt(b@, a@) {
            lemma_text_lt_asymmetric(b@, a@);
        }
    }
    result
}

/// `s` without the white space at its beginning and at its end.
pub fn trimmed(s: &str) -> (r: String)
    ensures
        r@ == trimmed_text(s@),
{
    let chars = chars_of(s);
    let mut start: usize = 0;
    assert(chars@.skip(0) =~= chars@);
    while start < chars.len() && is_space(chars[start])
        invariant
            start <= chars.len(),
            without_leading_space(chars@) == without_leading_space(chars@.skip(start as int)),
        decreases chars.len() - start,
    {
        assert(chars@.skip(start as int).skip(1) =~= chars@.skip(start + 1));
        start += 1;
    }
    let ghost rest = chars@.skip(start as int);
    assert(without_leading_space(chars@) == rest);
    let mut end: usize = chars.len();
    assert(chars@.subrange(start as int, end as int) =~= rest);
    while end > start && is_space(chars[end - 1])
        invariant
            start <= end <= chars.len(),
            without_trailing_space(rest) == without_trailing_space(
                chars@.subrange(start as int, end as int),
            ),
        decreases end,
    {
        assert(chars@.subrange(start as int, end as int).drop_last() =~= chars@.subrange(
            start as int,
            end - 1,
        ));
        end -= 1;
    }
    let ghost kept = chars@.subrange(start as int, end as int);
    assert(without_trailing_space(kept) == kept);
    let mut out: Vec<char> = Vec::new();
    let mut i: usize = start;
    while i < end
        invariant
            start <= i <= end <= chars.len(),
            out@ == chars@.subrange(start as int, i as int),
        decreases end - i,
    {
        out.push(chars[i]);
        assert(out@ =~= chars@.subrange(start as int, i + 1));
        i += 1;
    }
    string_of(&out)
}

/// Whether two texts have the same characters.
pub fn same_text(a: &str, b: &str) -> (r: bool)
    ensures
        r == (a@ == b@),
{
    text_order(&chars_of(a), &chars_of(b)) == TextOrder::Same
}

/// The characters of `s` in lower case, in the ASCII sense.
pub fn lowered_chars(s: &str) -> (r: Vec<char>)
    ensures
        r@ == lowered(s@),
{
    let chars = chars_of(s);
    let mut out: Vec<char> = Vec::new();
    let mut i: usize = 0;
    while i < chars.len()
        invariant
            i <= chars.len(),
            chars@ == s@,
            out@ == lowered(s@).take(i as int),
        decreases chars.len() - i,
    {
        out.push(lower_ascii(chars[i]));
        assert(out@ =~= lowered(s@).take(i + 1));
        i += 1;
    }
    assert(lowered(s@).take(chars.len() as int) =~= lowered(s@));
    out
}

/// What is left without leading white space does not begin with white
/// space.
proof fn lemma_leading_space_gone(s: Seq<char>)
    ensures
        without_leading_space(s).len() > 0 ==> !is_white_space(without_leading_space(s).first()),
    decreases s.len(),
{
    if s.len() > 0 && is_white_space(s[0]) {
        lemma_leading_space_gone(s.skip(1));
    }
}

/// What is left without trailing white space does not end with white space,
/// and begins as the text began.
proof fn lemma_trailing_space_gone(s: Seq<char>)
    ensures
        without_trailing_space(s).len() > 0 ==> {
            &&& !is_white_space(without_trailing_space(s).last())
            &&& s.len() > 0
            &&& without_trailing_space(s).first() == s.first()
        },
    decreases s.len(),
{
    if s.len() > 0 && is_white_space(s.last()) {
        lemma_trailing_space_gone(s.drop_last());
    }
}

/// A trimmed text neither begins nor ends with white space.
pub proof fn lemma_trimmed_has_no_outer_space(s: Seq<char>)
    ensures
        trimmed_text(s).len() > 0 ==> !is_white_space(trimmed_text(s).first()) && !is_white_space(
            trimmed_text(s).last(),
        ),
{
    lemma_leading_space_gone(s);
    lemma_trailing_space_gone(without_leading_space(s));
}

/// The decimal representation of a number has at least one digit.
proof fn lemma_decimal_not_empty(n: nat)
    ensures
        decimal_text(n).len() >= 1,
        n >= 10 ==> decimal_text(n).len() >= 2,
    decreases n,
{
    if n >= 10 {
        lemma_decimal_not_empty(n / 10);
    }
}

/// Different numbers have different decimal representations.
pub proof fn lemma_decimal_injective(a: nat, b: nat)
    requires
        decimal_text(a) == decimal_text(b),
    ensures
        a == b,
    decreases a,
{
    lemma_decimal_not_empty(a);
    lemma_decimal_not_empty(b);
    if a < 10 || b < 10 {
        assert(decimal_text(a).len() == 1 && decimal_text(b).len() == 1);
        assert(decimal_text(a)[0] == digit(a));
        assert(decimal_text(b)[0] == digit(b));
    } else {
        let ta = decimal_text(a / 10);
        let tb = decimal_text(b / 10);
        assert(decimal_text(a).drop_last() =~= ta);
        assert(decimal_text(b).drop_last() =~= tb);
        assert(decimal_text(a).last() == digit(a % 10));
        assert(decimal_text(b).last() == digit(b % 10));
        lemma_decimal_injective(a / 10, b / 10);
    }
}

} // verus!
