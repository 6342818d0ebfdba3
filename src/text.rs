use vstd::prelude::*;

verus! {

broadcast use vstd::string::group_string_axioms;

/// The characters with the Unicode `White_Space` property.
pub open spec fn is_space_char(c: char) -> bool {
    ('\u{9}' <= c <= '\u{d}') || c == ' ' || c == '\u{85}' || c == '\u{a0}' || c == '\u{1680}'
        || ('\u{2000}' <= c <= '\u{200a}') || c == '\u{2028}' || c == '\u{2029}'
        || c == '\u{202f}' || c == '\u{205f}' || c == '\u{3000}'
}

/// A text is blank when it holds nothing but white space (the empty text included).
pub open spec fn is_blank_text(s: Seq<char>) -> bool {
    forall|i: int| 0 <= i < s.len() ==> #[trigger] is_space_char(s[i])
}

pub fn is_space(c: char) -> (r: bool)
    ensures
        r == is_space_char(c),
{
    ('\u{9}' <= c && c <= '\u{d}') || c == ' ' || c == '\u{85}' || c == '\u{a0}' || c == '\u{1680}'
        || ('\u{2000}' <= c && c <= '\u{200a}') || c == '\u{2028}' || c == '\u{2029}'
        || c == '\u{202f}' || c == '\u{205f}' || c == '\u{3000}'
}

pub fn is_blank(s: &str) -> (r: bool)
    ensures
        r == is_blank_text(s@),
{
    let mut blank = true;
    for c in it: s.chars()
        invariant
            it.seq() == s@,
            blank == (forall|i: int| 0 <= i < it.index() ==> #[trigger] is_space_char(s@[i])),
    {
        if !is_space(c) {
            blank = false;
        }
    }
    blank
}

pub open spec fn is_digit(c: char) -> bool {
    '0' <= c <= '9'
}

pub open spec fn digit_value(c: char) -> int {
    c as int - '0' as int
}

/// The number that a sequence of decimal digits writes.
pub open spec fn digits_value(s: Seq<char>) -> int
    decreases s.len(),
{
    if s.len() == 0 {
        0
    } else {
        digits_value(s.drop_last()) * 10 + digit_value(s.last())
    }
}

pub open spec fn sign_len(s: Seq<char>) -> int {
    if s.len() > 0 && (s[0] == '-' || s[0] == '+') {
        1
    } else {
        0
    }
}

/// The `i32` that a text writes in decimal: an optional sign, then at least one digit, with a
/// value in range.
pub open spec fn parsed_i32(s: Seq<char>) -> Option<i32> {
    let digits = s.subrange(sign_len(s), s.len() as int);
    let v = if s.len() > 0 && s[0] == '-' {
        -digits_value(digits)
    } else {
        digits_value(digits)
    };
    if digits.len() > 0 && (forall|i: int| 0 <= i < digits.len() ==> #[trigger] is_digit(digits[i]))
        && i32::MIN <= v <= i32::MAX {
        Some(v as i32)
    } else {
        None
    }
}

proof fn lemma_digits_value_grows(s: Seq<char>, c: char)
    requires
        is_digit(c),
        digits_value(s) >= 0,
    ensures
        digits_value(s.push(c)) >= digits_value(s),
        digits_value(s.push(c)) == digits_value(s) * 10 + digit_value(c),
{
    assert(s.push(c).drop_last() =~= s);
}

/// Reads an `i32` written in decimal.
pub fn parse_i32(s: &str) -> (r: Option<i32>)
    ensures
        r == parsed_i32(s@),
{
    if s.is_empty() {
        return None;
    }
    let first = s.get_char(0);
    let negative = first == '-';
    let sl: usize = if first == '-' || first == '+' {
        1
    } else {
        0
    };
    let limit: i64 = 2147483648;
    let mut acc: i64 = 0;
    let mut big = false;
    let mut bad = false;
    let mut in_sign = sl == 1;
    for c in it: s.chars()
        invariant
            it.seq() == s@,
            limit == 2147483648,
            sl == sign_len(s@),
            in_sign <==> it.index() < sl,
            it.index() >= sl ==> {
                let seen = s@.subrange(sl as int, it.index() as int);
                &&& bad <==> !(forall|i: int| 0 <= i < seen.len() ==> #[trigger] is_digit(seen[i]))
                &&& !bad ==> digits_value(seen) >= 0
                &&& (!bad && !big) ==> acc == digits_value(seen) && 0 <= acc <= limit
                &&& (!bad && big) ==> digits_value(seen) > limit
            },
            in_sign ==> !bad && !big && acc == 0,
    {
        let ghost pos = it.index() as int;
        if !in_sign {
            let ghost seen = s@.subrange(sl as int, pos);
            let ghost next = s@.subrange(sl as int, pos + 1);
            assert(next =~= seen.push(c));
            if !bad {
                if '0' <= c && c <= '9' {
                    proof {
                        lemma_digits_value_grows(seen, c);
                    }
                    if !big {
                        let d: i64 = (c as u32 - '0' as u32) as i64;
                        acc = acc * 10 + d;
                        if acc > limit {
                            big = true;
                        }
                    }
                } else {
                    bad = true;
                    assert(!is_digit(next[next.len() - 1]));
                }
            } else {
                assert(!(forall|i: int| 0 <= i < next.len() ==> #[trigger] is_digit(next[i]))) by {
                    let j = choose|j: int| 0 <= j < seen.len() && !is_digit(#[trigger] seen[j]);
                    assert(next[j] == seen[j]);
                }
            }
        } else {
            assert(s@.subrange(sl as int, pos + 1) =~= Seq::<char>::empty());
        }
        in_sign = false;
    }
    let no_digits = s.unicode_len() == sl;
    if bad || big || no_digits {
        return None;
    }
    if negative {
        Some((0 - acc) as i32)
    } else if acc > 2147483647 {
        None
    } else {
        Some(acc as i32)
    }
}

} // verus!

