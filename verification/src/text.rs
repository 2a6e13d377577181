//! Verified text helpers: decimal formatting, string comparison, suffix
//! handling, and the listing helpers the presentation layer uses.

use vstd::prelude::*;

verus! {

/// The decimal digit character for `d` in `0 .. 10`.
pub open spec fn digit_char(d: int) -> char {
    if d == 0 {
        '0'
    } else if d == 1 {
        '1'
    } else if d == 2 {
        '2'
    } else if d == 3 {
        '3'
    } else if d == 4 {
        '4'
    } else if d == 5 {
        '5'
    } else if d == 6 {
        '6'
    } else if d == 7 {
        '7'
    } else if d == 8 {
        '8'
    } else {
        '9'
    }
}

/// The decimal digits of a non-negative number, most significant first,
/// with no leading zeros (a single `'0'` for zero).
pub open spec fn dec_digits(n: int) -> Seq<char>
    recommends
        n >= 0,
    decreases n,
{
    if n < 10 {
        seq![digit_char(n)]
    } else {
        dec_digits(n / 10).push(digit_char(n % 10))
    }
}

/// The decimal text of an integer: a minus sign before the digits when
/// negative.
pub open spec fn int_digits(i: int) -> Seq<char> {
    if i < 0 {
        seq!['-'] + dec_digits(-i)
    } else {
        dec_digits(i)
    }
}

/// The one-character string for a decimal digit.
fn digit_str(d: u64) -> (r: &'static str)
    requires
        d < 10,
    ensures
        r@ == seq![digit_char(d as int)],
{
    proof {
        reveal_strlit("0");
        reveal_strlit("1");
        reveal_strlit("2");
        reveal_strlit("3");
        reveal_strlit("4");
        reveal_strlit("5");
        reveal_strlit("6");
        reveal_strlit("7");
        reveal_strlit("8");
        reveal_strlit("9");
    }
    let r = match d {
        0 => "0",
        1 => "1",
        2 => "2",
        3 => "3",
        4 => "4",
        5 => "5",
        6 => "6",
        7 => "7",
        8 => "8",
        _ => "9",
    };
    proof {
        assert("0"@ =~= seq!['0']);
        assert("1"@ =~= seq!['1']);
        assert("2"@ =~= seq!['2']);
        assert("3"@ =~= seq!['3']);
        assert("4"@ =~= seq!['4']);
        assert("5"@ =~= seq!['5']);
        assert("6"@ =~= seq!['6']);
        assert("7"@ =~= seq!['7']);
        assert("8"@ =~= seq!['8']);
        assert("9"@ =~= seq!['9']);
    }
    r
}

/// Format an unsigned number in decimal.
pub fn u64_to_string(n: u64) -> (r: String)
    ensures
        r@ == dec_digits(n as int),
{
    if n < 10 {
        return digit_str(n).to_owned();
    }
    let mut rest: u64 = n;
    let mut acc: String = String::new();
    while rest > 0
        invariant
            if rest > 0 {
                dec_digits(n as int) == dec_digits(rest as int) + acc@
            } else {
                dec_digits(n as int) == acc@
            },
        decreases rest,
    {
        let d = rest % 10;
        let digit = digit_str(d);
        let prefixed = String::from_str(digit).concat(acc.as_str());
        proof {
            if rest >= 10 {
                assert(dec_digits(rest as int) == dec_digits(rest as int / 10).push(
                    digit_char(rest as int % 10),
                ));
                assert(dec_digits(rest as int / 10).push(digit_char(rest as int % 10)) + acc@
                    =~= dec_digits(rest as int / 10) + (digit@ + acc@));
            } else {
                assert(dec_digits(rest as int) == seq![digit_char(rest as int)]);
                assert(dec_digits(rest as int) + acc@ =~= digit@ + acc@);
            }
        }
        acc = prefixed;
        rest = rest / 10;
    }
    acc
}

/// Format a signed number in decimal.
pub fn i64_to_string(n: i64) -> (r: String)
    ensures
        r@ == int_digits(n as int),
{
    if n >= 0 {
        u64_to_string(n as u64)
    } else {
        let mag: u64 = if n == i64::MIN {
            9223372036854775808u64
        } else {
            (-n) as u64
        };
        assert(mag as int == -(n as int));
        let digits = u64_to_string(mag);
        proof {
            reveal_strlit("-");
            assert("-"@ =~= seq!['-']);
        }
        let r = String::from_str("-").concat(digits.as_str());
        proof {
            assert(seq!['-'] + dec_digits(mag as int) == int_digits(n as int));
        }
        r
    }
}

/// Character-exact string equality.
pub fn str_eq(a: &str, b: &str) -> (r: bool)
    ensures
        r == (a@ == b@),
{
    let alen = a.unicode_len();
    let blen = b.unicode_len();
    if alen != blen {
        return false;
    }
    let mut i: usize = 0;
    while i < alen
        invariant
            alen == a@.len(),
            blen == b@.len(),
            alen == blen,
            i <= alen,
            forall|j: int| 0 <= j < i ==> a@[j] == b@[j],
        decreases alen - i,
    {
        if a.get_char(i) != b.get_char(i) {
            return false;
        }
        i = i + 1;
    }
    proof {
        assert(a@ =~= b@);
    }
    true
}

/// Whether `s` ends with `suffix`, by characters.
pub open spec fn has_suffix(s: Seq<char>, suffix: Seq<char>) -> bool {
    s.len() >= suffix.len() && s.subrange(s.len() - suffix.len(), s.len() as int) == suffix
}

/// Character-exact suffix test.
pub fn str_ends_with(s: &str, suffix: &str) -> (r: bool)
    ensures
        r == has_suffix(s@, suffix@),
{
    let n = s.unicode_len();
    let m = suffix.unicode_len();
    if m > n {
        return false;
    }
    let tail = s.substring_char(n - m, n);
    str_eq(tail, suffix)
}

/// A string shortened to at most `max_len` characters: kept whole when it
/// fits, else cut one short of the limit with an ellipsis appended.
pub open spec fn truncated(s: Seq<char>, max_len: int) -> Seq<char> {
    if s.len() <= max_len {
        s
    } else {
        s.subrange(
            0,
            if max_len > 0 {
                max_len - 1
            } else {
                0
            },
        ) + seq!['…']
    }
}

/// Shorten a string for column display, counting characters.
pub fn truncate_string(s: &str, max_len: usize) -> (r: String)
    ensures
        r@ == truncated(s@, max_len as int),
{
    let n = s.unicode_len();
    if n <= max_len {
        s.to_owned()
    } else {
        let keep = if max_len > 0 {
            max_len - 1
        } else {
            0
        };
        let head = s.substring_char(0, keep);
        proof {
            reveal_strlit("…");
            assert("…"@ =~= seq!['…']);
        }
        String::from_str(head).concat("…")
    }
}

/// The text `WxH at (X,Y)` for a bounds rectangle given as
/// `(x, y, width, height)`.
pub open spec fn bounds_text(x: int, y: int, w: int, h: int) -> Seq<char> {
    int_digits(w) + "x"@ + int_digits(h) + " at ("@ + int_digits(x) + ","@ + int_digits(y) + ")"@
}

/// Describe a bounds rectangle `(x, y, width, height)` as `WxH at (X,Y)`.
pub fn get_bounds_string(bounds: &(i32, i32, i32, i32)) -> (r: String)
    ensures
        r@ == bounds_text(bounds.0 as int, bounds.1 as int, bounds.2 as int, bounds.3 as int),
{
    let w = i64_to_string(bounds.2 as i64);
    let h = i64_to_string(bounds.3 as i64);
    let x = i64_to_string(bounds.0 as i64);
    let y = i64_to_string(bounds.1 as i64);
    let r = w.concat("x").concat(h.as_str());
    let r = r.concat(" at (").concat(x.as_str()).concat(",").concat(y.as_str()).concat(")");
    r
}

/// A file name with the lossless container's extension guaranteed: kept as
/// is when it already ends in `.png`, else with `.png` appended.
pub open spec fn with_png_extension(name: Seq<char>) -> Seq<char> {
    if has_suffix(name, ".png"@) {
        name
    } else {
        name + ".png"@
    }
}

/// A file name with the lossy container's extension guaranteed: kept as is
/// when it already ends in `.jpg`, else with `.jpg` appended — the saved
/// name's extension must match the container actually produced.
pub open spec fn with_jpg_extension(name: Seq<char>) -> Seq<char> {
    if has_suffix(name, ".jpg"@) {
        name
    } else {
        name + ".jpg"@
    }
}

/// Append `.jpg` to a file name unless it is already there.
pub fn ensure_jpg_extension(name: &str) -> (r: String)
    ensures
        r@ == with_jpg_extension(name@),
{
    if str_ends_with(name, ".jpg") {
        name.to_owned()
    } else {
        String::from_str(name).concat(".jpg")
    }
}

/// The default output name used when the caller supplies none: the Unix
/// timestamp of the capture, under the extension of the container that is
/// actually produced.
pub open spec fn default_capture_name_text(unix_timestamp: int, lossless: bool) -> Seq<char> {
    "screenshot_"@ + dec_digits(unix_timestamp) + (if lossless {
        ".png"@
    } else {
        ".jpg"@
    })
}

/// Build the default output file name for a capture at the given time.
pub fn default_capture_filename(unix_timestamp: u64, lossless: bool) -> (r: String)
    ensures
        r@ == default_capture_name_text(unix_timestamp as int, lossless),
{
    let r = String::from_str("screenshot_").concat(u64_to_string(unix_timestamp).as_str());
    if lossless {
        r.concat(".png")
    } else {
        r.concat(".jpg")
    }
}

/// Append `.png` to a file name unless it is already there.
pub fn ensure_png_extension(name: &str) -> (r: String)
    ensures
        r@ == with_png_extension(name@),
{
    if str_ends_with(name, ".png") {
        name.to_owned()
    } else {
        String::from_str(name).concat(".png")
    }
}

} // verus!
