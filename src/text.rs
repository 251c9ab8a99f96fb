//! Character-level helpers over strings: normalisation of page text,
//! link-ready names, decimal formatting and parsing.

use vstd::prelude::*;

verus! {

/// Relies on `String::push`: appends one character at the end.
#[verifier::external_body]
pub(crate) fn push_char(s: &mut String, c: char)
    ensures
        final(s)@ == old(s)@.push(c),
{
    s.push(c)
}

/// What `str::to_lowercase` makes of a sequence of characters.
pub uninterp spec fn lower_of(s: Seq<char>) -> Seq<char>;

/// Relies on `str::to_lowercase`: the result depends on the characters
/// alone, and the empty string stays empty.
#[verifier::external_body]
pub(crate) fn lowercase(s: &str) -> (r: String)
    ensures
        r@ == lower_of(s@),
        s@.len() == 0 ==> r@.len() == 0,
{
    s.to_lowercase()
}

/// The characters that normalisation removes.
pub open spec fn is_blank(c: char) -> bool {
    c == ' ' || c == '\n'
}

/// All text fragments joined in order.
pub open spec fn concat_all(parts: Seq<Seq<char>>) -> Seq<char>
    decreases parts.len(),
{
    if parts.len() == 0 {
        Seq::empty()
    } else {
        concat_all(parts.drop_last()) + parts.last()
    }
}

/// The characters of `s` that are not blanks, in order.
pub open spec fn strip_blanks(s: Seq<char>) -> Seq<char>
    decreases s.len(),
{
    if s.len() == 0 {
        Seq::empty()
    } else if is_blank(s.last()) {
        strip_blanks(s.drop_last())
    } else {
        strip_blanks(s.drop_last()).push(s.last())
    }
}

/// Normalised text of a block: fragments joined, blanks removed, lowercased.
pub open spec fn normalized(parts: Seq<Seq<char>>) -> Seq<char> {
    lower_of(strip_blanks(concat_all(parts)))
}

/// `s` with every space replaced by a plus sign.
pub open spec fn plus_for_spaces(s: Seq<char>) -> Seq<char> {
    s.map_values(|c: char| if c == ' ' { '+' } else { c })
}

/// Joins the fragments of a block in order.
pub fn join_parts(parts: &Vec<String>) -> (r: String)
    ensures
        r@ == concat_all(parts.deep_view()),
{
    let mut r = String::new();
    let mut i: usize = 0;
    while i < parts.len()
        invariant
            i <= parts.len(),
            r@ == concat_all(parts.deep_view().subrange(0, i as int)),
        decreases parts.len() - i,
    {
        r.append(parts[i].as_str());
        proof {
            let s = parts.deep_view().subrange(0, i + 1);
            assert(s.drop_last() =~= parts.deep_view().subrange(0, i as int));
        }
        i = i + 1;
    }
    assert(parts.deep_view().subrange(0, i as int) =~= parts.deep_view());
    r
}

/// Removes every space and newline from `s`.
pub fn strip_blanks_of(s: &str) -> (r: String)
    ensures
        r@ == strip_blanks(s@),
{
    let n = s.unicode_len();
    let mut r = String::new();
    let mut i: usize = 0;
    while i < n
        invariant
            n == s@.len(),
            i <= n,
            r@ == strip_blanks(s@.subrange(0, i as int)),
        decreases n - i,
    {
        let c = s.get_char(i);
        proof {
            assert(s@.subrange(0, i + 1).drop_last() =~= s@.subrange(0, i as int));
        }
        if c != ' ' && c != '\n' {
            push_char(&mut r, c);
        }
        i = i + 1;
    }
    assert(s@.subrange(0, n as int) =~= s@);
    r
}

/// The normalised text of a block of fragments.
pub fn normalize(parts: &Vec<String>) -> (r: String)
    ensures
        r@ == normalized(parts.deep_view()),
{
    let joined = join_parts(parts);
    let stripped = strip_blanks_of(joined.as_str());
    lowercase(stripped.as_str())
}

/// `s` with every space replaced by a plus sign.
pub fn link_ready(s: &str) -> (r: String)
    ensures
        r@ == plus_for_spaces(s@),
{
    let n = s.unicode_len();
    let mut r = String::new();
    let mut i: usize = 0;
    while i < n
        invariant
            n == s@.len(),
            i <= n,
            r@ =~= plus_for_spaces(s@.subrange(0, i as int)),
        decreases n - i,
    {
        let c = s.get_char(i);
        if c == ' ' {
            push_char(&mut r, '+');
        } else {
            push_char(&mut r, c);
        }
        i = i + 1;
        assert(r@ =~= plus_for_spaces(s@.subrange(0, i as int)));
    }
    assert(s@.subrange(0, n as int) =~= s@);
    r
}

/// Whether `c` is an ASCII decimal digit.
pub open spec fn is_digit(c: char) -> bool {
    '0' <= c && c <= '9'
}

/// The value of a decimal digit character.
pub open spec fn digit_value(c: char) -> nat {
    (c as u32 - '0' as u32) as nat
}

/// The character of a decimal digit `d < 10`.
pub open spec fn digit_char(d: nat) -> char {
    if d == 0 { '0' } else if d == 1 { '1' } else if d == 2 { '2' } else if d == 3 { '3' }
    else if d == 4 { '4' } else if d == 5 { '5' } else if d == 6 { '6' } else if d == 7 { '7' }
    else if d == 8 { '8' } else { '9' }
}

/// The value of a string of decimal digits, read most significant first.
pub open spec fn digits_value(s: Seq<char>) -> nat
    decreases s.len(),
{
    if s.len() == 0 {
        0
    } else {
        digits_value(s.drop_last()) * 10 + digit_value(s.last())
    }
}

/// The decimal notation of `n`, without leading zeros.
pub open spec fn decimal(n: nat) -> Seq<char>
    decreases n,
{
    if n < 10 {
        seq![digit_char(n)]
    } else {
        decimal(n / 10).push(digit_char(n % 10))
    }
}

/// What `u8::from_str` accepts: an optional `+`, then one or more decimal
/// digits whose value is at most 255.
pub open spec fn u8_text(s: Seq<char>) -> Option<u8> {
    let d = unsigned_part(s);
    if d.len() > 0 && (forall|i: int| 0 <= i < d.len() ==> is_digit(#[trigger] d[i]))
        && digits_value(d) <= 255 {
        Some(digits_value(d) as u8)
    } else {
        None
    }
}

/// `s` without one leading `+`, if it has one.
pub open spec fn unsigned_part(s: Seq<char>) -> Seq<char> {
    if s.len() > 0 && s[0] == '+' { s.drop_first() } else { s }
}

/// What `char::from_str` accepts: exactly one character.
pub open spec fn char_text(s: Seq<char>) -> Option<char> {
    if s.len() == 1 { Some(s[0]) } else { None }
}

/// Facts on the character of one decimal digit.
proof fn lemma_digit_char(k: nat)
    requires
        k < 10,
    ensures
        is_digit(digit_char(k)),
        digit_value(digit_char(k)) == k,
        digit_char(k) != '+',
{
}

/// Reading back the decimal notation of a byte gives the byte.
pub proof fn lemma_decimal_reads_back(n: u8)
    ensures
        u8_text(decimal(n as nat)) == Some(n),
{
    let d = decimal(n as nat);
    let o = (n % 10) as nat;
    lemma_digit_char(o);
    if n < 10 {
        assert(d.drop_last() =~= Seq::<char>::empty());
        assert(digits_value(d.drop_last()) == 0);
        assert(digits_value(d) == n);
    } else if n < 100 {
        let t = (n / 10) as nat;
        lemma_digit_char(t);
        assert(decimal(t) == seq![digit_char(t)]);
        assert(d =~= seq![digit_char(t), digit_char(o)]);
        assert(d.drop_last() =~= seq![digit_char(t)]);
        assert(d.drop_last().drop_last() =~= Seq::<char>::empty());
        assert(digits_value(d.drop_last().drop_last()) == 0);
        assert(digits_value(d.drop_last()) == t);
        assert(digits_value(d) == n);
    } else {
        let h = (n / 100) as nat;
        let t = ((n / 10) % 10) as nat;
        lemma_digit_char(h);
        lemma_digit_char(t);
        assert(decimal((n / 10) as nat) == decimal(h).push(digit_char(t)));
        assert(decimal(h) == seq![digit_char(h)]);
        assert(d =~= seq![digit_char(h), digit_char(t), digit_char(o)]);
        assert(d.drop_last() =~= seq![digit_char(h), digit_char(t)]);
        assert(d.drop_last().drop_last() =~= seq![digit_char(h)]);
        assert(d.drop_last().drop_last().drop_last() =~= Seq::<char>::empty());
        assert(digits_value(d.drop_last().drop_last().drop_last()) == 0);
        assert(digits_value(d.drop_last().drop_last()) == h);
        assert(digits_value(d.drop_last()) == h * 10 + t);
        assert(digits_value(d) == n);
    }
    assert(d[0] != '+');
    assert(forall|i: int| 0 <= i < d.len() ==> is_digit(#[trigger] d[i]));
}

/// The decimal notation of a byte.
pub fn decimal_text(n: u8) -> (r: String)
    ensures
        r@ == decimal(n as nat),
{
    let mut r = String::new();
    if n >= 100 {
        push_char(&mut r, digit(n / 100));
    }
    if n >= 10 {
        push_char(&mut r, digit((n / 10) % 10));
    }
    push_char(&mut r, digit(n % 10));
    proof {
        if n < 10 {
            assert(r@ =~= decimal(n as nat));
        } else if n < 100 {
            assert(decimal((n / 10) as nat) == seq![digit_char((n / 10) as nat)]);
            assert(r@ =~= decimal(n as nat));
        } else {
            let h = (n / 100) as nat;
            assert(decimal((n / 10) as nat) == decimal(h).push(digit_char(((n / 10) % 10) as nat)));
            assert(decimal(h) == seq![digit_char(h)]);
            assert(r@ =~= decimal(n as nat));
        }
    }
    r
}

/// The character of a decimal digit.
fn digit(d: u8) -> (c: char)
    requires
        d < 10,
    ensures
        c == digit_char(d as nat),
{
    if d == 0 { '0' } else if d == 1 { '1' } else if d == 2 { '2' } else if d == 3 { '3' }
    else if d == 4 { '4' } else if d == 5 { '5' } else if d == 6 { '6' } else if d == 7 { '7' }
    else if d == 8 { '8' } else { '9' }
}

/// Reads a byte written in decimal, as `u8::from_str` does.
pub fn parse_u8(s: &str) -> (r: Option<u8>)
    ensures
        r == u8_text(s@),
{
    let n = s.unicode_len();
    let start: usize = if n > 0 && s.get_char(0) == '+' { 1 } else { 0 };
    let ghost d = unsigned_part(s@);
    assert(d =~= s@.subrange(start as int, n as int));
    if start == n {
        return None;
    }
    let mut acc: u32 = 0;
    let mut big = false;
    let mut i: usize = start;
    while i < n
        invariant
            n == s@.len(),
            start <= i <= n,
            d =~= s@.subrange(start as int, n as int),
            d == unsigned_part(s@),
            forall|j: int| start <= j < i ==> is_digit(#[trigger] s@[j]),
            big ==> digits_value(s@.subrange(start as int, i as int)) > 255,
            !big ==> acc as nat == digits_value(s@.subrange(start as int, i as int)),
            !big ==> acc <= 255,
        decreases n - i,
    {
        let c = s.get_char(i);
        if !('0' <= c && c <= '9') {
            assert(d[i - start] == c);
            assert(!is_digit(d[i - start]));
            assert(!(forall|j: int| 0 <= j < d.len() ==> is_digit(#[trigger] d[j])));
            assert(u8_text(s@) is None);
            return None;
        }
        proof {
            assert(s@.subrange(start as int, i + 1).drop_last() =~= s@.subrange(start as int, i as int));
        }
        if !big {
            acc = acc * 10 + (c as u32 - '0' as u32);
            if acc > 255 {
                big = true;
            }
        }
        i = i + 1;
    }
    assert(s@.subrange(start as int, n as int) =~= d);
    assert(forall|j: int| 0 <= j < d.len() ==> is_digit(#[trigger] d[j])) by {
        assert(forall|j: int| 0 <= j < d.len() ==> d[j] == s@[j + start]);
    }
    if big {
        None
    } else {
        Some(acc as u8)
    }
}

/// Reads one character, as `char::from_str` does.
pub fn parse_char(s: &str) -> (r: Option<char>)
    ensures
        r == char_text(s@),
{
    if s.unicode_len() == 1 {
        Some(s.get_char(0))
    } else {
        None
    }
}

} // verus!
