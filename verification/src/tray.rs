//! What the tray shows: the menu labels, and the compact transfer-speed
//! texts derived from the engine's global statistics.
//!
//! The icon and menu plumbing belongs to the surrounding runtime; here live
//! the label data and the exact texts, so the numbers the user sees are
//! pinned down.

use vstd::prelude::*;
use crate::text::{push_char, push_u64, spec_digit_char, spec_digits};

verus! {

/// The tray menu labels, localized by the caller.
#[derive(Debug, Clone)]
pub struct TrayLabels {
    pub show: String,
    pub pause_all: String,
    pub resume_all: String,
    pub quit: String,
}

/// Whether every character is a decimal digit.
pub open spec fn spec_all_digits(s: Seq<char>) -> bool {
    forall|i: int| 0 <= i < s.len() ==> '0' <= #[trigger] s[i] <= '9'
}

/// The number a digit string denotes.
pub open spec fn spec_digits_value(s: Seq<char>) -> nat
    decreases s.len(),
{
    if s.len() == 0 {
        0
    } else {
        spec_digits_value(s.drop_last()) * 10 + (s.last() as u32 - 48) as nat
    }
}

/// What parsing a speed field yields: the denoted number for a plain digit
/// string (an optional leading plus sign allowed) that fits the machine
/// word; zero for everything else.
pub open spec fn spec_speed_value(s: Seq<char>) -> nat {
    let digits = if s.len() > 0 && s[0] == '+' {
        s.drop_first()
    } else {
        s
    };
    if digits.len() > 0 && spec_all_digits(digits) && spec_digits_value(digits) <= u64::MAX {
        spec_digits_value(digits)
    } else {
        0
    }
}

/// Growing a digit string never shrinks its value.
proof fn lemma_digits_value_monotonic(s: Seq<char>, i: int, j: int)
    requires
        0 <= i <= j <= s.len(),
    ensures
        spec_digits_value(s.take(i)) <= spec_digits_value(s.take(j)),
    decreases j - i,
{
    if i < j {
        lemma_digits_value_monotonic(s, i, j - 1);
        assert(s.take(j).drop_last() =~= s.take(j - 1));
    }
}

/// Parses a speed field as the engine reports it, exactly as
/// `spec_speed_value` says: malformed or oversized values count as zero.
#[verifier::loop_isolation(false)]
pub fn parse_speed(s: &str) -> (r: u64)
    ensures
        r as nat == spec_speed_value(s@),
{
    let n = s.unicode_len();
    let start: usize = if n > 0 && s.get_char(0) == '+' {
        1
    } else {
        0
    };
    let ghost digits = if s@.len() > 0 && s@[0] == '+' {
        s@.drop_first()
    } else {
        s@
    };
    proof {
        assert(digits =~= s@.skip(start as int));
    }
    if n == start {
        return 0;
    }
    let mut acc: u64 = 0;
    for i in start..n
        invariant
            n == s@.len(),
            start <= i <= n,
            digits =~= s@.skip(start as int),
            spec_all_digits(s@.skip(start as int).take(i - start)),
            acc as nat == spec_digits_value(s@.skip(start as int).take(i - start)),
    {
        let c = s.get_char(i);
        if c < '0' || c > '9' {
            proof {
                assert(digits[i - start] == s@[i as int]);
                assert(!spec_all_digits(digits));
            }
            return 0;
        }
        let d = (c as u32) - 48;
        if acc > (u64::MAX - (d as u64)) / 10 {
            proof {
                let k = i - start;
                assert(digits.take(k + 1).drop_last() =~= digits.take(k));
                assert(digits.take(k + 1).last() == digits[k]);
                assert(spec_digits_value(digits.take(k + 1)) == (acc as nat) * 10 + d);
                assert((acc as nat) * 10 + d > u64::MAX) by (nonlinear_arith)
                    requires
                        acc > (u64::MAX - (d as u64)) / 10,
                        d < 10,
                        acc <= u64::MAX,
                ;
                lemma_digits_value_monotonic(digits, k + 1, digits.len() as int);
                assert(digits.take(digits.len() as int) =~= digits);
                assert(spec_digits_value(digits) > u64::MAX);
            }
            return 0;
        }
        acc = acc * 10 + (d as u64);
        proof {
            let k = i + 1 - start;
            assert(digits.take(k).drop_last() =~= digits.take(k - 1));
            assert(digits.take(k).last() == digits[k - 1]);
        }
    }
    proof {
        assert(digits.take(digits.len() as int) =~= digits);
    }
    acc
}

/// The tenths of `x / div`, rounded half up.
pub open spec fn spec_round_tenths(x: nat, div: nat) -> nat
    recommends
        div > 0,
{
    (x * 20 / div + 1) / 2
}

/// The compact rendering of a transfer speed: nothing for zero, whole
/// gibibytes and mebibytes with one rounded decimal, whole kibibytes, or
/// plain bytes.
pub open spec fn spec_compact_speed(x: nat) -> Seq<char> {
    if x == 0 {
        Seq::empty()
    } else if x >= 0x40000000 {
        let t = spec_round_tenths(x, 0x40000000);
        spec_digits(t / 10) + seq!['.', spec_digit_char(t % 10), 'G']
    } else if x >= 0x100000 {
        let t = spec_round_tenths(x, 0x100000);
        spec_digits(t / 10) + seq!['.', spec_digit_char(t % 10), 'M']
    } else if x >= 1024 {
        spec_digits(x / 1024) + seq!['K']
    } else {
        spec_digits(x) + seq!['B']
    }
}

/// Renders a speed in the compact form, exactly as `spec_compact_speed`
/// says.
pub fn format_compact_speed(bytes_per_sec: u64) -> (r: String)
    ensures
        r@ == spec_compact_speed(bytes_per_sec as nat),
{
    let mut out = String::new();
    if bytes_per_sec == 0 {
        return out;
    }
    let x = bytes_per_sec;
    if x >= 0x40000000 {
        let t128: u128 = ((x as u128) * 20 / 0x40000000 + 1) / 2;
        assert(t128 <= u64::MAX) by (nonlinear_arith)
            requires
                t128 == ((x as u128) * 20 / 0x40000000 + 1) / 2,
                x <= u64::MAX,
        ;
        let t: u64 = t128 as u64;
        push_u64(&mut out, t / 10);
        push_char(&mut out, '.');
        push_char(&mut out, (48 + ((t % 10) as u8)) as char);
        push_char(&mut out, 'G');
    } else if x >= 0x100000 {
        let t128: u128 = ((x as u128) * 20 / 0x100000 + 1) / 2;
        let t: u64 = t128 as u64;
        push_u64(&mut out, t / 10);
        push_char(&mut out, '.');
        push_char(&mut out, (48 + ((t % 10) as u8)) as char);
        push_char(&mut out, 'M');
    } else if x >= 1024 {
        push_u64(&mut out, x / 1024);
        push_char(&mut out, 'K');
    } else {
        push_u64(&mut out, x);
        push_char(&mut out, 'B');
    }
    out
}

/// What the tray shows after one statistics update.
pub enum TrayDisplay {
    /// No transfer, or the speed display disabled: plain application
    /// tooltip, no title text.
    Reset,
    /// Live transfer: the tooltip and the compact title text.
    Show { tooltip: String, title: String },
}

/// The tooltip for nonzero transfer: whichever directions are active, each
/// with its compact speed per second.
pub open spec fn spec_tray_tooltip(dl: nat, ul: nat) -> Seq<char> {
    if dl > 0 && ul > 0 {
        "\u{2193} "@ + spec_compact_speed(dl) + "/s  \u{2191} "@ + spec_compact_speed(ul) + "/s"@
    } else if dl > 0 {
        "\u{2193} "@ + spec_compact_speed(dl) + "/s"@
    } else {
        "\u{2191} "@ + spec_compact_speed(ul) + "/s"@
    }
}

/// The compact title text: the download speed while downloading, else the
/// upload speed while uploading, else nothing.
pub open spec fn spec_tray_title(dl: nat, ul: nat) -> Seq<char> {
    if dl > 0 {
        "\u{2193}"@ + spec_compact_speed(dl)
    } else if ul > 0 {
        "\u{2191}"@ + spec_compact_speed(ul)
    } else {
        Seq::empty()
    }
}

/// Turns one statistics update into what the tray shows: disabled display
/// or no transfer resets the tray; otherwise the tooltip and title carry
/// exactly the compact speeds of the active directions.
pub fn tray_speed_display(download_speed: &str, upload_speed: &str, enabled: bool) -> (r:
    TrayDisplay)
    ensures
        ({
            let dl = spec_speed_value(download_speed@);
            let ul = spec_speed_value(upload_speed@);
            if !enabled || (dl == 0 && ul == 0) {
                r is Reset
            } else {
                r matches TrayDisplay::Show { tooltip, title } && tooltip@ == spec_tray_tooltip(
                    dl,
                    ul,
                ) && title@ == spec_tray_title(dl, ul)
            }
        }),
{
    let dl = parse_speed(download_speed);
    let ul = parse_speed(upload_speed);
    if !enabled || (dl == 0 && ul == 0) {
        return TrayDisplay::Reset;
    }
    let dl_str = format_compact_speed(dl);
    let ul_str = format_compact_speed(ul);
    let mut tooltip = String::new();
    if dl > 0 && ul > 0 {
        tooltip.append("\u{2193} ");
        tooltip.append(dl_str.as_str());
        tooltip.append("/s  \u{2191} ");
        tooltip.append(ul_str.as_str());
        tooltip.append("/s");
    } else if dl > 0 {
        tooltip.append("\u{2193} ");
        tooltip.append(dl_str.as_str());
        tooltip.append("/s");
    } else {
        tooltip.append("\u{2191} ");
        tooltip.append(ul_str.as_str());
        tooltip.append("/s");
    }
    let mut title = String::new();
    if dl > 0 {
        title.append("\u{2193}");
        title.append(dl_str.as_str());
    } else if ul > 0 {
        title.append("\u{2191}");
        title.append(ul_str.as_str());
    }
    TrayDisplay::Show { tooltip, title }
}

} // verus!
