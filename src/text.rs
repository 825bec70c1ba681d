use vstd::prelude::*;
use vstd::string::*;

verus! {

/// The digits used in decimal and hexadecimal text, lower-case.
pub open spec fn digits() -> Seq<char> {
    "0123456789abcdef"@
}

/// `n` in decimal, with no leading zero.
pub open spec fn decimal(n: nat) -> Seq<char>
    decreases n,
{
    if n < 10 {
        seq![digits()[n as int]]
    } else {
        decimal(n / 10).push(digits()[(n % 10) as int])
    }
}

/// `n` in decimal, padded with a zero to at least two characters.
pub open spec fn two_digits(n: nat) -> Seq<char> {
    if n < 10 {
        seq!['0'] + decimal(n)
    } else {
        decimal(n)
    }
}

/// A byte as two lower-case hexadecimal digits.
pub open spec fn hex_byte(b: u8) -> Seq<char> {
    seq![digits()[(b / 16) as int], digits()[(b % 16) as int]]
}

/// The first `n` bytes in hexadecimal, separated by colons.
pub open spec fn hex_joined(bytes: Seq<u8>, n: int) -> Seq<char>
    decreases n,
{
    if n <= 0 {
        Seq::empty()
    } else if n == 1 {
        hex_byte(bytes[0])
    } else {
        hex_joined(bytes, n - 1) + seq![':'] + hex_byte(bytes[n - 1])
    }
}

/// The hour on a twelve-hour dial.
pub open spec fn twelve_hour(hour: u8) -> nat {
    if hour > 12 {
        (hour - 12) as nat
    } else if hour == 0 {
        12
    } else {
        hour as nat
    }
}

/// The clock as shown on the badge, such as `09:05 PM`. Hours after noon
/// are afternoon; noon itself reads as morning.
pub open spec fn clock_spec(hour: u8, minute: u8) -> Seq<char> {
    two_digits(twelve_hour(hour)) + ":"@ + two_digits(minute as nat) + " "@ + if hour > 12 {
        "PM"@
    } else {
        "AM"@
    }
}

/// The top bar of the badge screen: temperature, humidity and network count.
pub open spec fn top_bar_spec(temperature_f: u8, humidity_pct: u8, wifi_count: u32) -> Seq<
    char,
> {
    decimal(temperature_f as nat) + "F "@ + decimal(humidity_pct as nat) + "% Wifi found: "@
        + decimal(wifi_count as nat)
}

/// The top bar of the network list screen.
pub open spec fn wifi_bar_spec(wifi_count: u32) -> Seq<char> {
    "Wifi found: "@ + decimal(wifi_count as nat)
}

/// The single digit `d` as text.
fn digit_text(d: u32) -> (r: &'static str)
    requires
        d < 16,
    ensures
        r@ == seq![digits()[d as int]],
{
    let all = "0123456789abcdef";
    proof {
        reveal_strlit("0123456789abcdef");
    }
    let r = all.substring_char(d as usize, (d + 1) as usize);
    assert(r@ =~= seq![digits()[d as int]]);
    r
}

/// Appends `n` in decimal.
pub fn push_decimal(out: &mut String, n: u32)
    ensures
        final(out)@ == old(out)@ + decimal(n as nat),
    decreases n,
{
    if n >= 10 {
        push_decimal(out, n / 10);
    }
    out.append(digit_text(n % 10));
    proof {
        if n >= 10 {
            assert(final(out)@ =~= old(out)@ + decimal(n as nat));
        } else {
            assert(final(out)@ =~= old(out)@ + decimal(n as nat));
        }
    }
}

/// Appends `n` in decimal, padded with a zero to two characters.
pub fn push_two_digits(out: &mut String, n: u32)
    ensures
        final(out)@ == old(out)@ + two_digits(n as nat),
{
    if n < 10 {
        out.append("0");
        proof {
            reveal_strlit("0");
        }
    }
    push_decimal(out, n);
    assert(final(out)@ =~= old(out)@ + two_digits(n as nat));
}

/// The clock text for `hour` (0 to 23) and `minute`.
pub fn clock_text(hour: u8, minute: u8) -> (r: String)
    ensures
        r@ == clock_spec(hour, minute),
{
    let twelve: u8 = if hour > 12 {
        hour - 12
    } else if hour == 0 {
        12
    } else {
        hour
    };
    let mut out = String::new();
    push_two_digits(&mut out, twelve as u32);
    out.append(":");
    push_two_digits(&mut out, minute as u32);
    out.append(" ");
    if hour > 12 {
        out.append("PM");
    } else {
        out.append("AM");
    }
    assert(out@ =~= clock_spec(hour, minute));
    out
}

/// The badge screen's top bar.
pub fn top_bar_text(temperature_f: u8, humidity_pct: u8, wifi_count: u32) -> (r: String)
    ensures
        r@ == top_bar_spec(temperature_f, humidity_pct, wifi_count),
{
    let mut out = String::new();
    push_decimal(&mut out, temperature_f as u32);
    out.append("F ");
    push_decimal(&mut out, humidity_pct as u32);
    out.append("% Wifi found: ");
    push_decimal(&mut out, wifi_count);
    assert(out@ =~= top_bar_spec(temperature_f, humidity_pct, wifi_count));
    out
}

/// The network list screen's top bar.
pub fn wifi_bar_text(wifi_count: u32) -> (r: String)
    ensures
        r@ == wifi_bar_spec(wifi_count),
{
    let mut out = String::from_str("Wifi found: ");
    push_decimal(&mut out, wifi_count);
    out
}

/// Hexadecimal text of `n` bytes is ASCII and has two characters per byte
/// and one colon between neighbours.
pub proof fn lemma_hex_joined_shape(bytes: Seq<u8>, n: int)
    requires
        1 <= n <= bytes.len(),
    ensures
        hex_joined(bytes, n).len() == 3 * n - 1,
        vstd::utf8::is_ascii_chars(hex_joined(bytes, n)),
    decreases n,
{
    reveal_strlit("0123456789abcdef");
    if n > 1 {
        lemma_hex_joined_shape(bytes, n - 1);
    }
    let h = hex_byte(bytes[n - 1]);
    assert(vstd::utf8::is_ascii_chars(h));
}

/// A hardware address as six colon-separated hexadecimal pairs, such as
/// `0a:1b:2c:3d:4e:5f`.
pub fn format_bssid(bssid: [u8; 6]) -> (r: String)
    ensures
        r@ == hex_joined(bssid@, 6),
{
    let mut out = String::new();
    let mut i: usize = 0;
    while i < 6
        invariant
            i <= 6,
            bssid@.len() == 6,
            out@ == hex_joined(bssid@, i as int),
        decreases 6 - i,
    {
        let byte = bssid[i];
        if i != 0 {
            out.append(":");
            proof {
                reveal_strlit(":");
            }
        }
        out.append(digit_text((byte / 16) as u32));
        out.append(digit_text((byte % 16) as u32));
        assert(out@ =~= hex_joined(bssid@, i + 1));
        i = i + 1;
    }
    out
}

} // verus!
