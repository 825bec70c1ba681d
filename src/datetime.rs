use vstd::prelude::*;
use vstd::string::*;

verus! {

/// The pieces of `s` between occurrences of `sep`; there is always at
/// least one, and `k` separators give `k + 1` pieces.
pub open spec fn split_on(s: Seq<char>, sep: char) -> Seq<Seq<char>>
    decreases s.len(),
{
    if s.len() == 0 {
        seq![Seq::empty()]
    } else {
        let before = split_on(s.drop_last(), sep);
        if s.last() == sep {
            before.push(Seq::empty())
        } else {
            before.update(before.len() - 1, before.last().push(s.last()))
        }
    }
}

/// The value of a run of decimal digits.
pub open spec fn digits_value(s: Seq<char>) -> nat
    decreases s.len(),
{
    if s.len() == 0 {
        0
    } else {
        digits_value(s.drop_last()) * 10 + ((s.last() as nat) - ('0' as nat)) as nat
    }
}

/// Every character of `s` is a decimal digit.
pub open spec fn all_digits(s: Seq<char>) -> bool {
    forall|k: int| 0 <= k < s.len() ==> '0' <= #[trigger] s[k] && s[k] <= '9'
}

/// The digits of a numeral: all of it but a leading `+`.
pub open spec fn numeral_digits(s: Seq<char>) -> Seq<char> {
    if s.len() > 0 && s[0] == '+' {
        s.skip(1)
    } else {
        s
    }
}

/// The value of an unsigned decimal numeral with an optional leading `+`.
pub open spec fn numeral_value(s: Seq<char>) -> Option<nat> {
    let d = numeral_digits(s);
    if d.len() > 0 && all_digits(d) {
        Some(digits_value(d))
    } else {
        None
    }
}

/// The numeral's value when it is at most `max`.
pub open spec fn bounded_numeral(s: Seq<char>, max: nat) -> Option<nat> {
    match numeral_value(s) {
        Some(v) => if v <= max {
            Some(v)
        } else {
            None
        },
        None => None,
    }
}

/// A calendar date and time of day as the time service reports it.
#[derive(Clone, Copy, Debug, PartialEq, Eq, Structural)]
pub struct DateFields {
    pub year: u16,
    pub month: u8,
    pub day: u8,
    pub hour: u8,
    pub minute: u8,
    pub second: u8,
}

/// The date and time in `YYYY-MM-DDTHH:MM:SS[.fraction]`: exactly one `T`;
/// a date of exactly three `-`-separated numerals; a time of three or four
/// `:`-separated pieces whose first two are numerals and whose third is a
/// numeral followed by at most one `.` and a fraction, which is ignored.
pub open spec fn datetime_spec(s: Seq<char>) -> Option<DateFields> {
    let halves = split_on(s, 'T');
    let date = split_on(halves[0], '-');
    let time = split_on(halves[1], ':');
    let seconds = split_on(time[2], '.');
    if halves.len() == 2 && date.len() == 3 && 3 <= time.len() <= 4 && seconds.len() <= 2 {
        match (
            bounded_numeral(date[0], 65535),
            bounded_numeral(date[1], 255),
            bounded_numeral(date[2], 255),
            bounded_numeral(time[0], 255),
            bounded_numeral(time[1], 255),
            bounded_numeral(seconds[0], 255),
        ) {
            (Some(y), Some(mo), Some(d), Some(h), Some(mi), Some(se)) => Some(
                DateFields {
                    year: y as u16,
                    month: mo as u8,
                    day: d as u8,
                    hour: h as u8,
                    minute: mi as u8,
                    second: se as u8,
                },
            ),
            _ => None,
        }
    } else {
        None
    }
}

/// The pieces of `s` between occurrences of `sep`.
pub fn split_text(s: &str, sep: char) -> (r: Vec<String>)
    ensures
        r@.map_values(|p: String| p@) == split_on(s@, sep),
{
    let n = s.unicode_len();
    let mut parts: Vec<String> = Vec::new();
    let mut current = String::new();
    let mut i: usize = 0;
    assert(s@.take(0) =~= Seq::<char>::empty());
    while i < n
        invariant
            n == s@.len(),
            i <= n,
            parts@.map_values(|p: String| p@).push(current@) == split_on(s@.take(i as int), sep),
        decreases n - i,
    {
        let c = s.get_char(i);
        let ghost before = parts@.map_values(|p: String| p@);
        proof {
            lemma_split_nonempty(s@.take(i as int), sep);
        }
        assert(s@.take(i + 1).drop_last() =~= s@.take(i as int));
        if c == sep {
            let done = current;
            parts.push(done);
            current = String::new();
            assert(parts@.map_values(|p: String| p@) =~= before.push(done@));
        } else {
            let ghost old_current = current@;
            let one = s.substring_char(i, i + 1);
            assert(one@ =~= seq![c]);
            current.append(one);
            assert(current@ == old_current.push(c));
            assert(before.push(current@) =~= split_on(s@.take(i as int), sep).update(
                before.len() as int,
                split_on(s@.take(i as int), sep).last().push(c),
            ));
        }
        i = i + 1;
    }
    assert(s@.take(n as int) =~= s@);
    let ghost before = parts@.map_values(|p: String| p@);
    parts.push(current);
    assert(parts@.map_values(|p: String| p@) =~= before.push(current@));
    parts
}

/// Splitting always gives at least one piece.
proof fn lemma_split_nonempty(s: Seq<char>, sep: char)
    ensures
        split_on(s, sep).len() >= 1,
    decreases s.len(),
{
    if s.len() > 0 {
        lemma_split_nonempty(s.drop_last(), sep);
    }
}

/// A prefix of a digit run never has a larger value than the run.
proof fn lemma_digits_prefix(s: Seq<char>, i: int)
    requires
        0 <= i <= s.len(),
        all_digits(s),
    ensures
        digits_value(s.take(i)) <= digits_value(s),
    decreases s.len() - i,
{
    if i < s.len() {
        lemma_digits_prefix(s, i + 1);
        assert(s.take(i + 1).drop_last() =~= s.take(i));
        assert(s.take(i + 1).last() == s[i]);
        assert('0' <= s[i]);
    } else {
        assert(s.take(i) =~= s);
    }
}

/// The value of the numeral `s`, when it is at most `max`.
pub fn parse_numeral(s: &str, max: u32) -> (r: Option<u32>)
    ensures
        r matches Some(v) ==> bounded_numeral(s@, max as nat) == Some(v as nat),
        r is None ==> bounded_numeral(s@, max as nat) is None,
{
    let n = s.unicode_len();
    let start: usize = if n > 0 && s.get_char(0) == '+' {
        1
    } else {
        0
    };
    let ghost d = numeral_digits(s@);
    assert(s@.skip(0) =~= s@);
    assert(d =~= s@.skip(start as int));
    if start >= n {
        return None;
    }
    let mut i: usize = start;
    let mut acc: u64 = 0;
    assert(d.take(0) =~= Seq::<char>::empty());
    while i < n
        invariant
            n == s@.len(),
            start <= i <= n,
            d == s@.skip(start as int),
            d == numeral_digits(s@),
            all_digits(d.take(i - start)),
            acc == digits_value(d.take(i - start)),
            acc <= max,
        decreases n - i,
    {
        let c = s.get_char(i);
        if !('0' <= c && c <= '9') {
            assert(d[i - start] == c);
            assert(!all_digits(d));
            return None;
        }
        assert(d.take(i - start + 1).drop_last() =~= d.take(i - start));
        assert(d.take(i - start + 1).last() == c);
        acc = acc * 10 + (c as u64 - '0' as u64);
        i = i + 1;
        if acc > max as u64 {
            proof {
                if all_digits(d) {
                    lemma_digits_prefix(d, i - start);
                    assert(digits_value(d) > max);
                }
            }
            return None;
        }
    }
    assert(d.take(n - start) =~= d);
    Some(acc as u32)
}

/// The date and time that the time service's text gives, if it has the
/// expected shape.
pub fn parse_datetime(text: &str) -> (r: Option<DateFields>)
    ensures
        r == datetime_spec(text@),
{
    let halves = split_text(text, 'T');
    proof {
        lemma_split_nonempty(text@, 'T');
    }
    assert(halves@.map_values(|p: String| p@)[0] == halves@[0]@);
    if halves.len() != 2 {
        return None;
    }
    assert(halves@.map_values(|p: String| p@)[1] == halves@[1]@);
    let date = split_text(halves[0].as_str(), '-');
    let time = split_text(halves[1].as_str(), ':');
    if time.len() < 3 {
        return None;
    }
    assert(time@.map_values(|p: String| p@)[2] == time@[2]@);
    let seconds = split_text(time[2].as_str(), '.');
    proof {
        lemma_split_nonempty(time@[2]@, '.');
        lemma_split_nonempty(halves@[0]@, '-');
    }
    if date.len() != 3 || time.len() > 4 || seconds.len() > 2 {
        return None;
    }
    assert(date@.map_values(|p: String| p@)[0] == date@[0]@);
    assert(date@.map_values(|p: String| p@)[1] == date@[1]@);
    assert(date@.map_values(|p: String| p@)[2] == date@[2]@);
    assert(time@.map_values(|p: String| p@)[0] == time@[0]@);
    assert(time@.map_values(|p: String| p@)[1] == time@[1]@);
    assert(seconds@.map_values(|p: String| p@)[0] == seconds@[0]@);
    let year = parse_numeral(date[0].as_str(), 65535);
    let month = parse_numeral(date[1].as_str(), 255);
    let day = parse_numeral(date[2].as_str(), 255);
    let hour = parse_numeral(time[0].as_str(), 255);
    let minute = parse_numeral(time[1].as_str(), 255);
    let second = parse_numeral(seconds[0].as_str(), 255);
    match (year, month, day, hour, minute, second) {
        (Some(y), Some(mo), Some(d), Some(h), Some(mi), Some(se)) => Some(
            DateFields {
                year: y as u16,
                month: mo as u8,
                day: d as u8,
                hour: h as u8,
                minute: mi as u8,
                second: se as u8,
            },
        ),
        _ => None,
    }
}

} // verus!
