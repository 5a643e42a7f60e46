//! Fixed-point score values in the closed range [0, 10], kept in
//! thousandths so that decimal inputs such as `7.5` are represented exactly,
//! together with the parser that reads a plain decimal token into a score.

use vstd::prelude::*;

verus! {

/// Largest representable score, in thousandths: the value 10.000.
pub const SCORE_MAX_THOUSANDTHS: u32 = 10000;

/// A communication score: a decimal number in [0, 10] with at most three
/// fractional digits, stored as an integer count of thousandths.
#[derive(Clone, Copy, Debug, PartialEq, Eq, Structural)]
pub struct Score {
    pub thousandths: u32,
}

impl Score {
    /// A score is valid when it does not exceed 10.000.
    pub open spec fn valid(self) -> bool {
        self.thousandths <= SCORE_MAX_THOUSANDTHS
    }

    /// Builds a score from a count of thousandths, rejecting values above 10.
    pub fn new(thousandths: u32) -> (r: Option<Score>)
        ensures
            thousandths <= SCORE_MAX_THOUSANDTHS <==> r is Some,
            r is Some ==> r->0 == (Score { thousandths }) && r->0.valid(),
    {
        if thousandths <= SCORE_MAX_THOUSANDTHS {
            Some(Score { thousandths })
        } else {
            None
        }
    }
}

/// An ASCII decimal digit.
pub open spec fn is_ascii_digit(c: char) -> bool {
    48 <= c as u32 && c as u32 <= 57
}

/// The numeric value of an ASCII decimal digit.
pub open spec fn digit_val(c: char) -> int {
    c as u32 - 48
}

/// The integer denoted by a sequence of decimal digits, most significant first.
pub open spec fn digits_val(s: Seq<char>) -> int
    decreases s.len(),
{
    if s.len() == 0 {
        0
    } else {
        digits_val(s.drop_last()) * 10 + digit_val(s.last())
    }
}

/// Every character of the sequence is an ASCII digit.
pub open spec fn all_digits(s: Seq<char>) -> bool {
    forall|i: int| 0 <= i < s.len() ==> is_ascii_digit(#[trigger] s[i])
}

/// Every character of the sequence is the digit zero.
pub open spec fn all_zero_digits(s: Seq<char>) -> bool {
    forall|i: int| 0 <= i < s.len() ==> (#[trigger] s[i]) == '0'
}

/// The fractional digits of a decimal token, truncated to three places and
/// scaled to a count of thousandths.
pub open spec fn frac_thousandths(s: Seq<char>) -> int {
    if s.len() >= 3 {
        digits_val(s.take(3))
    } else if s.len() == 2 {
        digits_val(s) * 10
    } else if s.len() == 1 {
        digits_val(s) * 100
    } else {
        0
    }
}

/// The score denoted by an integer part and a fractional part, both given as
/// digit sequences; absent when the denoted value exceeds 10.
pub open spec fn score_from_parts(int_digits: Seq<char>, frac_digits: Seq<char>) -> Option<Score> {
    if digits_val(int_digits) <= 9 {
        Some(Score { thousandths: (digits_val(int_digits) * 1000 + frac_thousandths(frac_digits)) as u32 })
    } else if digits_val(int_digits) == 10 && all_zero_digits(frac_digits) {
        Some(Score { thousandths: SCORE_MAX_THOUSANDTHS })
    } else {
        None
    }
}

/// The first position at or after `i` that does not hold an ASCII digit.
pub open spec fn digits_end(s: Seq<char>, i: int) -> int
    recommends
        0 <= i <= s.len(),
    decreases s.len() - i,
{
    if i < 0 || i >= s.len() {
        s.len() as int
    } else if is_ascii_digit(s[i]) {
        digits_end(s, i + 1)
    } else {
        i
    }
}

/// `digits_end` stays within bounds, scans only digits, and stops at the
/// first non-digit.
pub proof fn lemma_digits_end(s: Seq<char>, i: int)
    requires
        0 <= i <= s.len(),
    ensures
        i <= digits_end(s, i) <= s.len(),
        all_digits(s.subrange(i, digits_end(s, i))),
        digits_end(s, i) < s.len() ==> !is_ascii_digit(s[digits_end(s, i)]),
        i < s.len() && is_ascii_digit(s[i]) ==> digits_end(s, i) > i,
    decreases s.len() - i,
{
    if i < s.len() && is_ascii_digit(s[i]) {
        lemma_digits_end(s, i + 1);
        let e = digits_end(s, i);
        let sub = s.subrange(i, e);
        let sub1 = s.subrange(i + 1, e);
        assert forall|j: int| 0 <= j < sub.len() implies is_ascii_digit(#[trigger] sub[j]) by {
            if j > 0 {
                assert(sub[j] == sub1[j - 1]);
            }
        }
    } else {
        assert(s.subrange(i, digits_end(s, i)) =~= Seq::<char>::empty());
    }
}

/// Appending one digit multiplies the denoted value by ten and adds the digit.
pub proof fn lemma_digits_val_push(s: Seq<char>, c: char)
    ensures
        digits_val(s.push(c)) == digits_val(s) * 10 + digit_val(c),
{
    assert(s.push(c).drop_last() =~= s);
    assert(s.push(c).last() == c);
}

/// Bounds on the value of a short digit sequence.
pub proof fn lemma_digits_val_bound(s: Seq<char>)
    requires
        all_digits(s),
    ensures
        digits_val(s) >= 0,
        s.len() <= 1 ==> digits_val(s) <= 9,
        s.len() <= 2 ==> digits_val(s) <= 99,
        s.len() <= 3 ==> digits_val(s) <= 999,
    decreases s.len(),
{
    if s.len() > 0 {
        assert(all_digits(s.drop_last())) by {
            assert forall|i: int| 0 <= i < s.drop_last().len() implies is_ascii_digit(
                #[trigger] s.drop_last()[i],
            ) by {
                assert(s.drop_last()[i] == s[i]);
            }
        }
        lemma_digits_val_bound(s.drop_last());
        assert(is_ascii_digit(s.last()));
    }
}

/// Reads the maximal run of digits beginning at `from`; the returned value is
/// exact when at most 10 and the cap 11 otherwise.
pub(crate) fn read_int_part(s: &str, from: usize) -> (r: (usize, u32))
    requires
        from <= s@.len(),
    ensures
        r.0 == digits_end(s@, from as int),
        from <= r.0 <= s@.len(),
        ({
            let v = digits_val(s@.subrange(from as int, r.0 as int));
            (r.1 <= 10 && r.1 == v) || (r.1 == 11 && v > 10)
        }),
{
    let len = s.unicode_len();
    let mut i = from;
    let mut acc: u32 = 0;
    proof {
        assert(s@.subrange(from as int, from as int) =~= Seq::<char>::empty());
    }
    while i < len
        invariant
            from <= i <= len,
            len == s@.len(),
            digits_end(s@, from as int) == digits_end(s@, i as int),
            all_digits(s@.subrange(from as int, i as int)),
            ({
                let v = digits_val(s@.subrange(from as int, i as int));
                (acc <= 10 && acc == v) || (acc == 11 && v > 10)
            }),
        decreases len - i,
    {
        let c = s.get_char(i);
        let cu = c as u32;
        if !(48 <= cu && cu <= 57) {
            proof {
                assert(digits_end(s@, i as int) == i as int);
            }
            return (i, acc);
        }
        let d: u32 = cu - 48;
        proof {
            let pre = s@.subrange(from as int, i as int);
            let post = s@.subrange(from as int, i as int + 1);
            assert(post =~= pre.push(s@[i as int]));
            lemma_digits_val_push(pre, s@[i as int]);
        }
        if acc <= 10 {
            acc = acc * 10 + d;
            if acc > 10 {
                acc = 11;
            }
        }
        i = i + 1;
    }
    proof {
        assert(digits_end(s@, i as int) == s@.len());
    }
    (i, acc)
}

/// Reads the maximal run of digits beginning at `from` as a fractional part:
/// its value in thousandths (three places kept) and whether every digit is zero.
pub(crate) fn read_frac_part(s: &str, from: usize) -> (r: (usize, u32, bool))
    requires
        from <= s@.len(),
    ensures
        r.0 == digits_end(s@, from as int),
        from <= r.0 <= s@.len(),
        r.1 == frac_thousandths(s@.subrange(from as int, r.0 as int)),
        r.1 <= 999,
        r.2 == all_zero_digits(s@.subrange(from as int, r.0 as int)),
{
    let len = s.unicode_len();
    let mut i = from;
    let mut t: u32 = 0;
    let mut az: bool = true;
    proof {
        assert(s@.subrange(from as int, from as int) =~= Seq::<char>::empty());
    }
    loop
        invariant_except_break
            from <= i <= len,
            len == s@.len(),
            digits_end(s@, from as int) == digits_end(s@, i as int),
            all_digits(s@.subrange(from as int, i as int)),
            ({
                let pre = s@.subrange(from as int, i as int);
                &&& (i - from <= 3 ==> t == digits_val(pre))
                &&& (i - from >= 3 ==> t == digits_val(s@.subrange(from as int, from as int + 3)))
                &&& t <= 999
                &&& az == all_zero_digits(pre)
            }),
        ensures
            from <= i <= len,
            len == s@.len(),
            i as int == digits_end(s@, from as int),
            all_digits(s@.subrange(from as int, i as int)),
            ({
                let sub = s@.subrange(from as int, i as int);
                &&& (i - from <= 3 ==> t == digits_val(sub))
                &&& (i - from >= 3 ==> t == digits_val(s@.subrange(from as int, from as int + 3)))
                &&& t <= 999
                &&& az == all_zero_digits(sub)
            }),
        decreases len - i,
    {
        if i >= len {
            proof {
                assert(digits_end(s@, i as int) == s@.len());
            }
            break;
        }
        let c = s.get_char(i);
        let cu = c as u32;
        if !(48 <= cu && cu <= 57) {
            proof {
                assert(digits_end(s@, i as int) == i as int);
            }
            break;
        }
        let d: u32 = cu - 48;
        proof {
            let pre = s@.subrange(from as int, i as int);
            let post = s@.subrange(from as int, i as int + 1);
            assert(post =~= pre.push(s@[i as int]));
            lemma_digits_val_push(pre, s@[i as int]);
            lemma_digits_val_bound(pre);
            if i - from == 2 {
                assert(post =~= s@.subrange(from as int, from as int + 3));
            }
        }
        if i - from < 3 {
            t = t * 10 + d;
        }
        if d != 0 {
            az = false;
        }
        i = i + 1;
    }
    let end = i;
    let count = end - from;
    proof {
        let sub = s@.subrange(from as int, end as int);
        lemma_digits_val_bound(sub);
        if count >= 3 {
            assert(sub.take(3) =~= s@.subrange(from as int, from as int + 3));
        }
    }
    let scaled: u32 = if count == 0 {
        0
    } else if count == 1 {
        t * 100
    } else if count == 2 {
        t * 10
    } else {
        t
    };
    (end, scaled, az)
}

/// The score denoted by a whole string holding a plain decimal token:
/// one or more digits, optionally a dot followed by one or more digits.
/// Absent when the text has any other shape or denotes a value above 10.
pub open spec fn score_of_decimal_text(t: Seq<char>) -> Option<Score> {
    let de = digits_end(t, 0);
    if t.len() == 0 || de == 0 {
        None
    } else if de == t.len() {
        score_from_parts(t, Seq::empty())
    } else if t[de] == '.' && de + 1 < t.len() && digits_end(t, de + 1) == t.len() {
        score_from_parts(t.subrange(0, de), t.subrange(de + 1, t.len() as int))
    } else {
        None
    }
}

/// Builds the score for an integer part given in capped form (exact when at
/// most 10, the cap 11 otherwise) and a fractional part in thousandths.
pub(crate) fn score_from_capped(int_acc: u32, frac: u32, az: bool) -> (r: Option<Score>)
    requires
        frac <= 999,
    ensures
        forall|id: Seq<char>, fd: Seq<char>|
            ((int_acc <= 10 && digits_val(id) == int_acc) || (int_acc == 11 && digits_val(id) > 10))
                && frac == frac_thousandths(fd) && az == all_zero_digits(fd) ==> r
                == #[trigger] score_from_parts(id, fd),
{
    if int_acc <= 9 {
        Some(Score { thousandths: int_acc * 1000 + frac })
    } else if int_acc == 10 && az {
        Some(Score { thousandths: SCORE_MAX_THOUSANDTHS })
    } else {
        None
    }
}

/// Parses a whole string as a plain decimal score in [0, 10].
pub fn parse_score_text(t: &str) -> (r: Option<Score>)
    ensures
        r == score_of_decimal_text(t@),
{
    let len = t.unicode_len();
    if len == 0 {
        return None;
    }
    let (de, int_acc) = read_int_part(t, 0);
    if de == 0 {
        return None;
    }
    if de == len {
        proof {
            assert(t@.subrange(0, de as int) =~= t@);
        }
        return score_from_capped(int_acc, 0, true);
    }
    let dot = t.get_char(de);
    if dot != '.' {
        return None;
    }
    if de + 1 >= len {
        return None;
    }
    let (fe, frac, az) = read_frac_part(t, de + 1);
    if fe != len {
        return None;
    }
    score_from_capped(int_acc, frac, az)
}

} // verus!
