use vstd::prelude::*;
use vstd::string::*;

verus! {

/// The characters with the Unicode `White_Space` property.
pub open spec fn is_space(c: char) -> bool {
    ||| ('\u{9}' <= c && c <= '\u{d}')
    ||| c == ' '
    ||| c == '\u{85}'
    ||| c == '\u{a0}'
    ||| c == '\u{1680}'
    ||| ('\u{2000}' <= c && c <= '\u{200a}')
    ||| c == '\u{2028}'
    ||| c == '\u{2029}'
    ||| c == '\u{202f}'
    ||| c == '\u{205f}'
    ||| c == '\u{3000}'
}

/// `s` without its leading white space.
pub open spec fn trim_start(s: Seq<char>) -> Seq<char>
    decreases s.len(),
{
    if s.len() > 0 && is_space(s[0]) {
        trim_start(s.skip(1))
    } else {
        s
    }
}

/// `s` without its trailing white space.
pub open spec fn trim_end(s: Seq<char>) -> Seq<char>
    decreases s.len(),
{
    if s.len() > 0 && is_space(s.last()) {
        trim_end(s.drop_last())
    } else {
        s
    }
}

/// `s` without white space at either end.
pub open spec fn trim(s: Seq<char>) -> Seq<char> {
    trim_end(trim_start(s))
}

/// `s` without its first and last character: the quotes round a value.
pub open spec fn unquote(s: Seq<char>) -> Seq<char> {
    if s.len() >= 2 {
        s.subrange(1, s.len() - 1)
    } else {
        Seq::empty()
    }
}

/// `s` holds no `=`.
pub open spec fn no_equals(s: Seq<char>) -> bool {
    forall|k: int| 0 <= k < s.len() ==> s[k] != '='
}

/// `p` is the position of the only `=` of `line`.
pub open spec fn sole_equals_at(line: Seq<char>, p: int) -> bool {
    &&& 0 <= p < line.len()
    &&& line[p] == '='
    &&& no_equals(line.take(p))
    &&& no_equals(line.skip(p + 1))
}

/// The value that a settings line `name = "value"` gives to `key`: the line
/// must hold exactly one `=`, its trimmed left side must be `key`, and the
/// value is the trimmed right side without its first and last character.
pub open spec fn setting_spec(line: Seq<char>, key: Seq<char>) -> Option<Seq<char>> {
    if exists|p: int| sole_equals_at(line, p) {
        let p = choose|p: int| sole_equals_at(line, p);
        if trim(line.take(p)) == key {
            Some(unquote(trim(line.skip(p + 1))))
        } else {
            None
        }
    } else {
        None
    }
}

fn is_space_char(c: char) -> (r: bool)
    ensures
        r == is_space(c),
{
    ('\u{9}' <= c && c <= '\u{d}') || c == ' ' || c == '\u{85}' || c == '\u{a0}' || c
        == '\u{1680}' || ('\u{2000}' <= c && c <= '\u{200a}') || c == '\u{2028}' || c
        == '\u{2029}' || c == '\u{202f}' || c == '\u{205f}' || c == '\u{3000}'
}

/// `s` with white space cut from both ends.
pub fn trim_text(s: &str) -> (r: &str)
    ensures
        r@ == trim(s@),
{
    let n = s.unicode_len();
    let mut a: usize = 0;
    assert(s@.skip(0) =~= s@);
    while a < n && is_space_char(s.get_char(a))
        invariant
            n == s@.len(),
            a <= n,
            trim_start(s@) == trim_start(s@.skip(a as int)),
        decreases n - a,
    {
        assert(s@.skip(a as int).skip(1) =~= s@.skip(a + 1));
        a = a + 1;
    }
    assert(trim_start(s@) == s@.subrange(a as int, n as int)) by {
        assert(s@.skip(a as int) =~= s@.subrange(a as int, n as int));
    }
    let mut b: usize = n;
    while b > a && is_space_char(s.get_char(b - 1))
        invariant
            n == s@.len(),
            a <= b <= n,
            trim(s@) == trim_end(s@.subrange(a as int, b as int)),
        decreases b - a,
    {
        assert(s@.subrange(a as int, b as int).drop_last() =~= s@.subrange(a as int, b - 1));
        b = b - 1;
    }
    let r = s.substring_char(a, b);
    assert(trim_end(s@.subrange(a as int, b as int)) == s@.subrange(a as int, b as int));
    r
}

/// The value that `line` gives to `key`, or `None` when the line is not a
/// setting of exactly one `=` or names another key.
pub fn setting_value(line: &str, key: &str) -> (r: Option<String>)
    ensures
        r matches Some(v) ==> setting_spec(line@, key@) == Some(v@),
        r is None ==> setting_spec(line@, key@) is None,
{
    let n = line.unicode_len();
    let mut p: usize = 0;
    while p < n && line.get_char(p) != '='
        invariant
            n == line@.len(),
            p <= n,
            no_equals(line@.take(p as int)),
        decreases n - p,
    {
        assert(line@.take(p + 1) =~= line@.take(p as int).push(line@[p as int]));
        p = p + 1;
    }
    if p == n {
        proof {
            assert(line@.take(n as int) =~= line@);
            assert forall|q: int| !sole_equals_at(line@, q) by {
                if 0 <= q < n {
                    assert(line@.take(n as int)[q] == line@[q]);
                }
            }
        }
        return None;
    }
    let mut k: usize = p + 1;
    while k < n
        invariant
            n == line@.len(),
            p < k <= n,
            line@[p as int] == '=',
            no_equals(line@.take(p as int)),
            no_equals(line@.subrange(p + 1, k as int)),
        decreases n - k,
    {
        if line.get_char(k) == '=' {
            proof {
                assert forall|q: int| !sole_equals_at(line@, q) by {
                    if 0 <= q < n && line@[q] == '=' {
                        if q < p {
                            assert(line@.take(p as int)[q] == line@[q]);
                        } else if q == p {
                            assert(line@.skip(q + 1)[k - q - 1] == line@[k as int]);
                        } else {
                            assert(line@.take(q)[p as int] == line@[p as int]);
                        }
                    }
                }
            }
            return None;
        }
        assert(line@.subrange(p + 1, k + 1) =~= line@.subrange(p + 1, k as int).push(
            line@[k as int],
        ));
        k = k + 1;
    }
    proof {
        assert(line@.skip(p + 1) =~= line@.subrange(p + 1, n as int));
        assert(sole_equals_at(line@, p as int));
        assert forall|q: int| sole_equals_at(line@, q) implies q == p by {
            if q < p {
                assert(line@.take(p as int)[q] == line@[q]);
            } else if q > p {
                assert(line@.take(q)[p as int] == line@[p as int]);
            }
        }
    }
    let name = trim_text(line.substring_char(0, p));
    let name_text = String::from_str(name);
    let key_text = String::from_str(key);
    if name_text != key_text {
        return None;
    }
    let value = trim_text(line.substring_char(p + 1, n));
    let m = value.unicode_len();
    let r = if m >= 2 {
        String::from_str(value.substring_char(1, m - 1))
    } else {
        String::new()
    };
    Some(r)
}

} // verus!
