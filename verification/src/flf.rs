//! The header of a FIGlet font file, read far enough to tell whether the
//! FIGlet parser of the `figlet-rs` crate can run on the text without
//! panicking.

use vstd::prelude::*;

use crate::text::{all_digits, chars_of, digits_value, is_digit, lines_spec, split_lines};

verus! {

/// Whether `c` is Unicode white space (`char::is_whitespace`).
pub open spec fn is_whitespace(c: char) -> bool {
    ||| ('\t' <= c && c <= '\r')
    ||| c == ' '
    ||| c == '\u{85}'
    ||| c == '\u{a0}'
    ||| c == '\u{1680}'
    ||| ('\u{2000}' <= c && c <= '\u{200a}')
    ||| c == '\u{2028}'
    ||| c == '\u{2029}'
    ||| c == '\u{202f}'
    ||| c == '\u{205f}'
    ||| c == '\u{3000}'
}

/// Reading `s` from the left: the words completed so far, and the word
/// still open.
pub open spec fn word_scan(s: Seq<char>) -> (Seq<Seq<char>>, Seq<char>)
    decreases s.len(),
{
    if s.len() == 0 {
        (seq![], seq![])
    } else {
        let (done, open) = word_scan(s.drop_last());
        if is_whitespace(s.last()) {
            if open.len() > 0 {
                (done.push(open), seq![])
            } else {
                (done, open)
            }
        } else {
            (done, open.push(s.last()))
        }
    }
}

/// The words of `s` as `str::split_whitespace` yields them.
pub open spec fn words(s: Seq<char>) -> Seq<Seq<char>> {
    let (done, open) = word_scan(s);
    if open.len() > 0 {
        done.push(open)
    } else {
        done
    }
}

/// The number of bytes that `c` takes in UTF-8.
pub open spec fn utf8_width(c: char) -> nat {
    if (c as u32) < 0x80 {
        1
    } else if (c as u32) < 0x800 {
        2
    } else if (c as u32) < 0x10000 {
        3
    } else {
        4
    }
}

/// The number of bytes that `s` takes in UTF-8.
pub open spec fn utf8_len(s: Seq<char>) -> nat
    decreases s.len(),
{
    if s.len() == 0 {
        0
    } else {
        utf8_len(s.drop_last()) + utf8_width(s.last())
    }
}

/// What `str::parse::<i32>` gives: an optional sign, then at least one
/// ASCII digit and nothing else, in the range of `i32`.
pub open spec fn parse_i32_text(t: Seq<char>) -> Option<int> {
    let negative = t.len() > 0 && t[0] == '-';
    let digits = if t.len() > 0 && (t[0] == '+' || t[0] == '-') {
        t.skip(1)
    } else {
        t
    };
    let v: int = if negative {
        -(digits_value(digits) as int)
    } else {
        digits_value(digits) as int
    };
    if digits.len() > 0 && all_digits(digits) && i32::MIN <= v <= i32::MAX {
        Some(v)
    } else {
        None
    }
}

/// Whether the parser's arithmetic on the header's height `h` and comment
/// line count `c` stays in range, for a text of `n` lines.
pub open spec fn header_numbers_safe(h: int, c: int, n: int) -> bool {
    &&& 0 <= c < i32::MAX
    &&& (n < c + 1 || if c + 1 < n {
        h != 0 && (h > 0 ==> 1 + c + 102 * h <= i32::MAX)
    } else {
        h >= 0 && 1 + c + 102 * h <= i32::MAX
    })
}

/// Whether `FIGlet::from_content` of the `figlet-rs` crate runs on
/// `content` without panicking. The parser reads the header's first word
/// with a byte slice that fails inside a multi-byte last character, slices
/// the comment lines with a negative count, reads the glyph of a font of
/// height 0, and does `i32` and `usize` arithmetic on the height and the
/// comment count that can overflow. Where the overflow on a positive height
/// could only occur after every glyph has been read, this predicate rules
/// the input out without checking that the glyphs read.
pub open spec fn figlet_parse_safe(content: Seq<char>) -> bool {
    let ls = lines_spec(content);
    ls.len() == 0 || {
        let ws = words(ls[0]);
        ws.len() < 6 || utf8_len(ws[0]) < 6 || {
            &&& (ws[0].last() as u32) < 0x80
            &&& match (
                parse_i32_text(ws[1]),
                parse_i32_text(ws[2]),
                parse_i32_text(ws[3]),
                parse_i32_text(ws[4]),
                parse_i32_text(ws[5]),
            ) {
                (Some(h), Some(_), Some(_), Some(_), Some(c)) => header_numbers_safe(
                    h,
                    c,
                    ls.len() as int,
                ),
                _ => true,
            }
        }
    }
}

fn is_whitespace_char(c: char) -> (res: bool)
    ensures
        res == is_whitespace(c),
{
    ('\t' <= c && c <= '\r') || c == ' ' || c == '\u{85}' || c == '\u{a0}' || c == '\u{1680}' || (
    '\u{2000}' <= c && c <= '\u{200a}') || c == '\u{2028}' || c == '\u{2029}' || c == '\u{202f}'
        || c == '\u{205f}' || c == '\u{3000}'
}

/// The words of `cs`, split at white space.
fn split_words(cs: &Vec<char>) -> (res: Vec<Vec<char>>)
    ensures
        res@.map_values(|w: Vec<char>| w@) == words(cs@),
{
    let mut done: Vec<Vec<char>> = Vec::new();
    let mut open: Vec<char> = Vec::new();
    let mut i: usize = 0;
    while i < cs.len()
        invariant
            i <= cs@.len(),
            done@.map_values(|w: Vec<char>| w@) == word_scan(cs@.subrange(0, i as int)).0,
            open@ == word_scan(cs@.subrange(0, i as int)).1,
        decreases cs.len() - i,
    {
        assert(cs@.subrange(0, i + 1).drop_last() =~= cs@.subrange(0, i as int));
        let c = cs[i];
        if is_whitespace_char(c) {
            if open.len() > 0 {
                let ghost before = done@;
                let w = open;
                done.push(w);
                open = Vec::new();
                assert(done@.map_values(|w: Vec<char>| w@) =~= before.map_values(
                    |w: Vec<char>| w@,
                ).push(w@));
                assert(open@ =~= Seq::<char>::empty());
            }
        } else {
            open.push(c);
        }
        i = i + 1;
    }
    assert(cs@.subrange(0, cs@.len() as int) =~= cs@);
    if open.len() > 0 {
        let ghost before = done@;
        let w = open;
        done.push(w);
        assert(done@.map_values(|w: Vec<char>| w@) =~= before.map_values(|w: Vec<char>| w@).push(
            w@,
        ));
    }
    done
}

/// The UTF-8 length of `w`, capped at `cap`.
fn utf8_len_capped(w: &Vec<char>, cap: u64) -> (res: u64)
    requires
        cap <= 1000,
    ensures
        res == if utf8_len(w@) < cap {
            utf8_len(w@)
        } else {
            cap as nat
        },
{
    let mut total: u64 = 0;
    let mut i: usize = 0;
    while i < w.len()
        invariant
            i <= w@.len(),
            cap <= 1000,
            total <= cap,
            total == if utf8_len(w@.subrange(0, i as int)) < cap {
                utf8_len(w@.subrange(0, i as int))
            } else {
                cap as nat
            },
        decreases w.len() - i,
    {
        assert(w@.subrange(0, i + 1).drop_last() =~= w@.subrange(0, i as int));
        let c = w[i];
        let width: u64 = if (c as u32) < 0x80 {
            1
        } else if (c as u32) < 0x800 {
            2
        } else if (c as u32) < 0x10000 {
            3
        } else {
            4
        };
        if total < cap {
            total = if total + width < cap {
                total + width
            } else {
                cap
            };
        }
        i = i + 1;
    }
    assert(w@.subrange(0, w@.len() as int) =~= w@);
    total
}


proof fn lemma_digits_prefix_step(d: Seq<char>, k: int)
    requires
        0 <= k < d.len(),
    ensures
        digits_value(d.subrange(0, k + 1)) == digits_value(d.subrange(0, k)) * 10
            + crate::text::digit_value(d[k]),
{
    assert(d.subrange(0, k + 1).drop_last() =~= d.subrange(0, k));
}

proof fn lemma_value_grows(v: nat, dv: nat)
    by (nonlinear_arith)
    requires
        v > 2147483648,
    ensures
        v * 10 + dv > 2147483648,
{
}

/// Parses a word as `str::parse::<i32>` does.
fn parse_i32_word(t: &Vec<char>) -> (res: Option<i64>)
    ensures
        match parse_i32_text(t@) {
            Some(v) => res == Some(v as i64),
            None => res is None,
        },
{
    let n = t.len();
    if n == 0 {
        return None;
    }
    let negative = t[0] == '-';
    let start: usize = if t[0] == '+' || t[0] == '-' { 1 } else { 0 };
    let ghost d = if t@.len() > 0 && (t@[0] == '+' || t@[0] == '-') {
        t@.skip(1)
    } else {
        t@
    };
    assert(d =~= t@.subrange(start as int, n as int));
    if start >= n {
        return None;
    }
    // The magnitude is tracked up to 2^31 + 1; anything above is out of range.
    let limit: u64 = 2147483649;
    let mut acc: u64 = 0;
    let mut i: usize = start;
    while i < n
        invariant
            n == t@.len(),
            start <= i <= n,
            d =~= t@.subrange(start as int, n as int),
            d == (if t@.len() > 0 && (t@[0] == '+' || t@[0] == '-') {
                t@.skip(1)
            } else {
                t@
            }),
            all_digits(d.subrange(0, i - start)),
            acc <= limit,
            limit == 2147483649,
            acc < limit ==> acc as nat == digits_value(d.subrange(0, i - start)),
            acc == limit ==> digits_value(d.subrange(0, i - start)) > 2147483648,
        decreases n - i,
    {
        let c = t[i];
        assert(d[i - start] == c);
        if !('0' <= c && c <= '9') {
            assert(!is_digit(d[i - start]));
            return None;
        }
        let dv: u64 = (c as u64) - 48;
        proof {
            lemma_digits_prefix_step(d, i - start);
        }
        if acc == limit {
            proof {
                lemma_value_grows(digits_value(d.subrange(0, i - start)), dv as nat);
            }
        } else if acc <= 214748364 {
            let next = acc * 10 + dv;
            if next >= limit {
                acc = limit;
            } else {
                acc = next;
            }
        } else {
            proof {
                assert(acc * 10 + dv > 2147483648) by (nonlinear_arith)
                    requires
                        acc > 214748364,
                ;
            }
            acc = limit;
        }
        i = i + 1;
    }
    assert(d.subrange(0, n - start) =~= d);
    if acc == limit {
        return None;
    }
    let v: i64 = if negative { 0 - (acc as i64) } else { acc as i64 };
    if v < -2147483648 || v > 2147483647 {
        return None;
    }
    Some(v)
}

/// Whether `FIGlet::from_content` can run on `content` without panicking
/// (see `figlet_parse_safe`).
pub fn figlet_parse_is_safe(content: &str) -> (res: bool)
    ensures
        res == figlet_parse_safe(content@),
{
    let lines = split_lines(content);
    let ghost ls = lines_spec(content@);
    assert(ls.len() == lines@.len());
    if lines.len() == 0 {
        return true;
    }
    assert(ls[0] == lines@[0]@);
    let first = chars_of(lines[0].as_str());
    let ws = split_words(&first);
    let ghost wv = words(ls[0]);
    assert(wv.len() == ws@.len());
    if ws.len() < 6 {
        return true;
    }
    assert(wv[0] == ws@[0]@);
    if utf8_len_capped(&ws[0], 6) < 6 {
        return true;
    }
    let w0 = &ws[0];
    if (w0[w0.len() - 1] as u32) >= 0x80 {
        return false;
    }
    assert(wv[1] == ws@[1]@);
    assert(wv[2] == ws@[2]@);
    assert(wv[3] == ws@[3]@);
    assert(wv[4] == ws@[4]@);
    assert(wv[5] == ws@[5]@);
    let h = parse_i32_word(&ws[1]);
    let b = parse_i32_word(&ws[2]);
    let m = parse_i32_word(&ws[3]);
    let o = parse_i32_word(&ws[4]);
    let c = parse_i32_word(&ws[5]);
    match (h, b, m, o, c) {
        (Some(h), Some(_), Some(_), Some(_), Some(c)) => {
            let n = lines.len();
            if c < 0 || c >= 2147483647 {
                return false;
            }
            let c1: u64 = (c + 1) as u64;
            if (n as u64) < c1 {
                return true;
            }
            if c1 < (n as u64) {
                h != 0 && (h <= 0 || 1 + c + 102 * h <= 2147483647)
            } else {
                h >= 0 && 1 + c + 102 * h <= 2147483647
            }
        },
        _ => true,
    }
}

} // verus!
