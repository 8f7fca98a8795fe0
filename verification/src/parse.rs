//! Parsing a JSON document back into a report.
//!
//! The parser accepts exactly the documents [`crate::json::render_json`]
//! produces: after extracting a candidate record it re-renders the
//! candidate and compares the bytes, so a successful parse guarantees
//! the input is the canonical document of the returned record.

use vstd::prelude::*;

use crate::canon::dec_val;
use crate::canon::hex_val;
use crate::canon::is_dec_char;
use crate::canon::is_hex_char;
use crate::canon::dec_char_val;
use crate::canon::hex_char_val;
use crate::canon::pow10;
use crate::canon::pow16;
use crate::canon::lemma_dec_val_concat;
use crate::canon::lemma_dec_val_nonneg;
use crate::canon::lemma_hex_val_concat;
use crate::canon::lemma_hex_val_nonneg;
use crate::json::esc_char;
use crate::json::jstr;
use crate::json::render_json;
use crate::json::spec_escape_json;
use crate::json::spec_json;
use crate::model::ConnSpeed;
use crate::model::ConnType;
use crate::model::Continent;
use crate::model::GeoIPConnectionInfo;
use crate::model::GeoIPGeographicInfo;
use crate::model::GeoIPISPInfo;
use crate::model::GeoIPProxyInfo;
use crate::model::GeoIPResponse;
use crate::model::IpAddress;
use crate::model::ProxyDescription;
use crate::model::ProxyType;
use crate::text::spec_fixed_dec;
use crate::text::spec_udec;
use crate::text::spec_uhex;
use crate::text::str_eq;

verus! {

/// Advance past `lit` exactly when the text at `i` is `lit`.
fn expect(s: &str, i: usize, lit: &str) -> (r: Option<usize>)
    requires
        i <= s@.len(),
    ensures
        r is Some <==> (i + lit@.len() <= s@.len() && s@.subrange(
            i as int,
            i as int + lit@.len() as int,
        ) == lit@),
        r is Some ==> r->0 == i + lit@.len(),
{
    let n = lit.unicode_len();
    let len = s.unicode_len();
    if n > len - i {
        return None;
    }
    let piece = s.substring_char(i, i + n);
    if str_eq(piece, lit) {
        Some(i + n)
    } else {
        None
    }
}

/// The character a `\u00XY` escape denotes, if the digits are
/// lowercase hexadecimal and the code is below thirty-two.
pub(crate) open spec fn code_char(hi: char, lo: char) -> Option<char> {
    if hi == '0' {
        if lo == '0' {
            Some('\u{0}')
        } else if lo == '1' {
            Some('\u{1}')
        } else if lo == '2' {
            Some('\u{2}')
        } else if lo == '3' {
            Some('\u{3}')
        } else if lo == '4' {
            Some('\u{4}')
        } else if lo == '5' {
            Some('\u{5}')
        } else if lo == '6' {
            Some('\u{6}')
        } else if lo == '7' {
            Some('\u{7}')
        } else if lo == '8' {
            Some('\u{8}')
        } else if lo == '9' {
            Some('\u{9}')
        } else if lo == 'a' {
            Some('\u{a}')
        } else if lo == 'b' {
            Some('\u{b}')
        } else if lo == 'c' {
            Some('\u{c}')
        } else if lo == 'd' {
            Some('\u{d}')
        } else if lo == 'e' {
            Some('\u{e}')
        } else if lo == 'f' {
            Some('\u{f}')
        } else {
            None
        }
    } else if hi == '1' {
        if lo == '0' {
            Some('\u{10}')
        } else if lo == '1' {
            Some('\u{11}')
        } else if lo == '2' {
            Some('\u{12}')
        } else if lo == '3' {
            Some('\u{13}')
        } else if lo == '4' {
            Some('\u{14}')
        } else if lo == '5' {
            Some('\u{15}')
        } else if lo == '6' {
            Some('\u{16}')
        } else if lo == '7' {
            Some('\u{17}')
        } else if lo == '8' {
            Some('\u{18}')
        } else if lo == '9' {
            Some('\u{19}')
        } else if lo == 'a' {
            Some('\u{1a}')
        } else if lo == 'b' {
            Some('\u{1b}')
        } else if lo == 'c' {
            Some('\u{1c}')
        } else if lo == 'd' {
            Some('\u{1d}')
        } else if lo == 'e' {
            Some('\u{1e}')
        } else if lo == 'f' {
            Some('\u{1f}')
        } else {
            None
        }
    } else {
        None
    }
}

/// The escape digits of a control character decode back to it.
proof fn lemma_code_char(c: char)
    requires
        (c as u32) < 32,
    ensures
        code_char(
            crate::text::hex_digit(((c as u32) / 16) as nat),
            crate::text::hex_digit(((c as u32) % 16) as nat),
        ) == Some(c),
{
    let n = c as u32;
    if n == 0 {
        crate::canon::lemma_char_code_eq(c, '\u{0}');
    } else if n == 1 {
        crate::canon::lemma_char_code_eq(c, '\u{1}');
    } else if n == 2 {
        crate::canon::lemma_char_code_eq(c, '\u{2}');
    } else if n == 3 {
        crate::canon::lemma_char_code_eq(c, '\u{3}');
    } else if n == 4 {
        crate::canon::lemma_char_code_eq(c, '\u{4}');
    } else if n == 5 {
        crate::canon::lemma_char_code_eq(c, '\u{5}');
    } else if n == 6 {
        crate::canon::lemma_char_code_eq(c, '\u{6}');
    } else if n == 7 {
        crate::canon::lemma_char_code_eq(c, '\u{7}');
    } else if n == 8 {
        crate::canon::lemma_char_code_eq(c, '\u{8}');
    } else if n == 9 {
        crate::canon::lemma_char_code_eq(c, '\u{9}');
    } else if n == 10 {
        crate::canon::lemma_char_code_eq(c, '\u{a}');
    } else if n == 11 {
        crate::canon::lemma_char_code_eq(c, '\u{b}');
    } else if n == 12 {
        crate::canon::lemma_char_code_eq(c, '\u{c}');
    } else if n == 13 {
        crate::canon::lemma_char_code_eq(c, '\u{d}');
    } else if n == 14 {
        crate::canon::lemma_char_code_eq(c, '\u{e}');
    } else if n == 15 {
        crate::canon::lemma_char_code_eq(c, '\u{f}');
    } else if n == 16 {
        crate::canon::lemma_char_code_eq(c, '\u{10}');
    } else if n == 17 {
        crate::canon::lemma_char_code_eq(c, '\u{11}');
    } else if n == 18 {
        crate::canon::lemma_char_code_eq(c, '\u{12}');
    } else if n == 19 {
        crate::canon::lemma_char_code_eq(c, '\u{13}');
    } else if n == 20 {
        crate::canon::lemma_char_code_eq(c, '\u{14}');
    } else if n == 21 {
        crate::canon::lemma_char_code_eq(c, '\u{15}');
    } else if n == 22 {
        crate::canon::lemma_char_code_eq(c, '\u{16}');
    } else if n == 23 {
        crate::canon::lemma_char_code_eq(c, '\u{17}');
    } else if n == 24 {
        crate::canon::lemma_char_code_eq(c, '\u{18}');
    } else if n == 25 {
        crate::canon::lemma_char_code_eq(c, '\u{19}');
    } else if n == 26 {
        crate::canon::lemma_char_code_eq(c, '\u{1a}');
    } else if n == 27 {
        crate::canon::lemma_char_code_eq(c, '\u{1b}');
    } else if n == 28 {
        crate::canon::lemma_char_code_eq(c, '\u{1c}');
    } else if n == 29 {
        crate::canon::lemma_char_code_eq(c, '\u{1d}');
    } else if n == 30 {
        crate::canon::lemma_char_code_eq(c, '\u{1e}');
    } else if n == 31 {
        crate::canon::lemma_char_code_eq(c, '\u{1f}');
    } else {
        assert(false);
    }
}

/// The character a `\u00XY` escape denotes, as a one-character
/// string.
fn control_str(hi: char, lo: char) -> (r: Option<&'static str>)
    ensures
        r is Some <==> code_char(hi, lo) is Some,
        r matches Some(p) ==> code_char(hi, lo) matches Some(c) && p@ == seq![c],
{
    if hi == '0' {
        match lo {
            '0' => {
                proof {
                    reveal_strlit("\u{0}");
                    assert(("\u{0}"@) =~= seq!['\u{0}']);
                }
                Some("\u{0}")
            },
            '1' => {
                proof {
                    reveal_strlit("\u{1}");
                    assert(("\u{1}"@) =~= seq!['\u{1}']);
                }
                Some("\u{1}")
            },
            '2' => {
                proof {
                    reveal_strlit("\u{2}");
                    assert(("\u{2}"@) =~= seq!['\u{2}']);
                }
                Some("\u{2}")
            },
            '3' => {
                proof {
                    reveal_strlit("\u{3}");
                    assert(("\u{3}"@) =~= seq!['\u{3}']);
                }
                Some("\u{3}")
            },
            '4' => {
                proof {
                    reveal_strlit("\u{4}");
                    assert(("\u{4}"@) =~= seq!['\u{4}']);
                }
                Some("\u{4}")
            },
            '5' => {
                proof {
                    reveal_strlit("\u{5}");
                    assert(("\u{5}"@) =~= seq!['\u{5}']);
                }
                Some("\u{5}")
            },
            '6' => {
                proof {
                    reveal_strlit("\u{6}");
                    assert(("\u{6}"@) =~= seq!['\u{6}']);
                }
                Some("\u{6}")
            },
            '7' => {
                proof {
                    reveal_strlit("\u{7}");
                    assert(("\u{7}"@) =~= seq!['\u{7}']);
                }
                Some("\u{7}")
            },
            '8' => {
                proof {
                    reveal_strlit("\u{8}");
                    assert(("\u{8}"@) =~= seq!['\u{8}']);
                }
                Some("\u{8}")
            },
            '9' => {
                proof {
                    reveal_strlit("\u{9}");
                    assert(("\u{9}"@) =~= seq!['\u{9}']);
                }
                Some("\u{9}")
            },
            'a' => {
                proof {
                    reveal_strlit("\u{a}");
                    assert(("\u{a}"@) =~= seq!['\u{a}']);
                }
                Some("\u{a}")
            },
            'b' => {
                proof {
                    reveal_strlit("\u{b}");
                    assert(("\u{b}"@) =~= seq!['\u{b}']);
                }
                Some("\u{b}")
            },
            'c' => {
                proof {
                    reveal_strlit("\u{c}");
                    assert(("\u{c}"@) =~= seq!['\u{c}']);
                }
                Some("\u{c}")
            },
            'd' => {
                proof {
                    reveal_strlit("\u{d}");
                    assert(("\u{d}"@) =~= seq!['\u{d}']);
                }
                Some("\u{d}")
            },
            'e' => {
                proof {
                    reveal_strlit("\u{e}");
                    assert(("\u{e}"@) =~= seq!['\u{e}']);
                }
                Some("\u{e}")
            },
            'f' => {
                proof {
                    reveal_strlit("\u{f}");
                    assert(("\u{f}"@) =~= seq!['\u{f}']);
                }
                Some("\u{f}")
            },
            _ => None,
        }
    } else if hi == '1' {
        match lo {
            '0' => {
                proof {
                    reveal_strlit("\u{10}");
                    assert(("\u{10}"@) =~= seq!['\u{10}']);
                }
                Some("\u{10}")
            },
            '1' => {
                proof {
                    reveal_strlit("\u{11}");
                    assert(("\u{11}"@) =~= seq!['\u{11}']);
                }
                Some("\u{11}")
            },
            '2' => {
                proof {
                    reveal_strlit("\u{12}");
                    assert(("\u{12}"@) =~= seq!['\u{12}']);
                }
                Some("\u{12}")
            },
            '3' => {
                proof {
                    reveal_strlit("\u{13}");
                    assert(("\u{13}"@) =~= seq!['\u{13}']);
                }
                Some("\u{13}")
            },
            '4' => {
                proof {
                    reveal_strlit("\u{14}");
                    assert(("\u{14}"@) =~= seq!['\u{14}']);
                }
                Some("\u{14}")
            },
            '5' => {
                proof {
                    reveal_strlit("\u{15}");
                    assert(("\u{15}"@) =~= seq!['\u{15}']);
                }
                Some("\u{15}")
            },
            '6' => {
                proof {
                    reveal_strlit("\u{16}");
                    assert(("\u{16}"@) =~= seq!['\u{16}']);
                }
                Some("\u{16}")
            },
            '7' => {
                proof {
                    reveal_strlit("\u{17}");
                    assert(("\u{17}"@) =~= seq!['\u{17}']);
                }
                Some("\u{17}")
            },
            '8' => {
                proof {
                    reveal_strlit("\u{18}");
                    assert(("\u{18}"@) =~= seq!['\u{18}']);
                }
                Some("\u{18}")
            },
            '9' => {
                proof {
                    reveal_strlit("\u{19}");
                    assert(("\u{19}"@) =~= seq!['\u{19}']);
                }
                Some("\u{19}")
            },
            'a' => {
                proof {
                    reveal_strlit("\u{1a}");
                    assert(("\u{1a}"@) =~= seq!['\u{1a}']);
                }
                Some("\u{1a}")
            },
            'b' => {
                proof {
                    reveal_strlit("\u{1b}");
                    assert(("\u{1b}"@) =~= seq!['\u{1b}']);
                }
                Some("\u{1b}")
            },
            'c' => {
                proof {
                    reveal_strlit("\u{1c}");
                    assert(("\u{1c}"@) =~= seq!['\u{1c}']);
                }
                Some("\u{1c}")
            },
            'd' => {
                proof {
                    reveal_strlit("\u{1d}");
                    assert(("\u{1d}"@) =~= seq!['\u{1d}']);
                }
                Some("\u{1d}")
            },
            'e' => {
                proof {
                    reveal_strlit("\u{1e}");
                    assert(("\u{1e}"@) =~= seq!['\u{1e}']);
                }
                Some("\u{1e}")
            },
            'f' => {
                proof {
                    reveal_strlit("\u{1f}");
                    assert(("\u{1f}"@) =~= seq!['\u{1f}']);
                }
                Some("\u{1f}")
            },
            _ => None,
        }
    } else {
        None
    }
}

/// One pass over a string-literal body: from `k` (just after the
/// opening quote), with `acc` already unescaped.
pub(crate) open spec fn scan_str(s: Seq<char>, k: int, acc: Seq<char>) -> Option<(Seq<char>, int)>
    decreases s.len() - k,
    when 0 <= k <= s.len()
{
    if k >= s.len() {
        None
    } else if s[k] == '"' {
        Some((acc, k + 1))
    } else if s[k] == '\\' {
        if k + 1 >= s.len() {
            None
        } else if s[k + 1] == '"' || s[k + 1] == '\\' {
            scan_str(s, k + 2, acc.push(s[k + 1]))
        } else if s[k + 1] == 'u' {
            if k + 6 <= s.len() && s[k + 2] == '0' && s[k + 3] == '0' {
                match code_char(s[k + 4], s[k + 5]) {
                    Some(c) => scan_str(s, k + 6, acc.push(c)),
                    None => None,
                }
            } else {
                None
            }
        } else {
            None
        }
    } else {
        scan_str(s, k + 1, acc.push(s[k]))
    }
}

/// The string literal of `x` sits at `i` and ends at `j`.
pub(crate) open spec fn jstr_at(s: Seq<char>, i: int, x: Seq<char>, j: int) -> bool {
    0 <= i && i + jstr(x).len() == j && j <= s.len() && s.subrange(i, j) == jstr(x)
}

/// A string literal opens with its quote and carries its escaped body.
proof fn lemma_jstr_at_body(s: Seq<char>, i: int, x: Seq<char>, j: int)
    requires
        jstr_at(s, i, x, j),
    ensures
        i < s.len(),
        s[i] == '"',
        i + 1 + spec_escape_json(x).len() + 1 == j,
        s.subrange(i + 1, j) == spec_escape_json(x) + seq!['"'],
{
    let lit = jstr(x);
    assert forall|m: int| 0 <= m < lit.len() implies s[i + m] == lit[m] by {
        assert(s.subrange(i, j)[m] == s[i + m]);
        assert(s.subrange(i, j)[m] == lit[m]);
    }
    assert(s[i + 0] == lit[0]);
    assert(lit[0] == '"');
    let body = spec_escape_json(x) + seq!['"'];
    assert forall|m: int| 0 <= m < body.len() implies s.subrange(i + 1, j)[m] == body[m] by {
        assert(s.subrange(i + 1, j)[m] == s[i + 1 + m]);
        assert(s[i + (1 + m)] == lit[1 + m]);
        assert(lit[1 + m] == body[m]);
    }
    assert(s.subrange(i + 1, j) =~= body);
}

/// Scanning the escaped body of `x`, terminated by its closing quote,
/// yields `x` and stops just past the quote.
proof fn lemma_scan_complete(s: Seq<char>, k: int, acc: Seq<char>, x: Seq<char>, j: int)
    requires
        0 <= k,
        k + spec_escape_json(x).len() + 1 == j,
        j <= s.len(),
        s.subrange(k, j) == spec_escape_json(x) + seq!['"'],
    ensures
        scan_str(s, k, acc) == Some((acc + x, j)),
    decreases x.len(),
{
    let body = spec_escape_json(x) + seq!['"'];
    assert forall|m: int| 0 <= m < body.len() implies s[k + m] == body[m] by {
        assert(s.subrange(k, j)[m] == s[k + m]);
        assert(s.subrange(k, j)[m] == body[m]);
    }
    if x.len() == 0 {
        assert(spec_escape_json(x) == Seq::<char>::empty());
        assert(s[k + 0] == body[0]);
        assert(body[0] == '"');
        assert(acc + x =~= acc);
    } else {
        let c = x[0];
        let xr = x.drop_first();
        crate::canon::lemma_esc_first(x);
        let e = esc_char(c);
        let bodyr = spec_escape_json(xr) + seq!['"'];
        assert(body =~= e + bodyr);
        assert forall|m: int| 0 <= m < e.len() implies s[k + m] == e[m] by {
            assert(body[m] == e[m]);
        }
        let k2 = k + e.len();
        assert forall|m: int| 0 <= m < bodyr.len() implies s.subrange(k2, j)[m] == bodyr[m] by {
            assert(s.subrange(k2, j)[m] == s[k2 + m]);
            assert(s[k + (e.len() + m)] == body[e.len() + m]);
            assert(body[e.len() + m] == bodyr[m]);
        }
        assert(s.subrange(k2, j) =~= bodyr);
        if c != '"' && c != '\\' && (c as u32) >= 32 {
            assert(e == seq![c]);
            assert(e[0] == c);
            assert(s[k + 0] == e[0]);
            lemma_scan_complete(s, k + 1, acc.push(c), xr, j);
            assert(acc.push(c) + xr =~= acc + x);
        } else if c == '"' || c == '\\' {
            assert(e == seq!['\\', c]);
            assert(e[0] == '\\');
            assert(e[1] == c);
            assert(s[k + 0] == e[0]);
            assert(s[k + 1] == e[1]);
            lemma_scan_complete(s, k + 2, acc.push(c), xr, j);
            assert(acc.push(c) + xr =~= acc + x);
            assert(scan_str(s, k, acc) == scan_str(s, k + 2, acc.push(s[k + 1])));
        } else {
            let chi = ((c as u32) / 16) as nat;
            let clo = ((c as u32) % 16) as nat;
            assert(e == seq!['\\', 'u', '0', '0', crate::text::hex_digit(chi),
                crate::text::hex_digit(clo)]);
            assert(e[0] == '\\' && e[1] == 'u' && e[2] == '0' && e[3] == '0' && e[4]
                == crate::text::hex_digit(chi) && e[5] == crate::text::hex_digit(clo));
            assert(s[k + 0] == e[0]);
            assert(s[k + 1] == e[1]);
            assert(s[k + 2] == e[2]);
            assert(s[k + 3] == e[3]);
            assert(s[k + 4] == e[4]);
            assert(s[k + 5] == e[5]);
            lemma_code_char(c);
            assert(code_char(s[k + 4], s[k + 5]) == Some(c));
            lemma_scan_complete(s, k + 6, acc.push(c), xr, j);
            assert(acc.push(c) + xr =~= acc + x);
        }
    }
}

/// Read a string literal starting at the opening quote: unescape its
/// body and stop after the closing quote. The canonical literal of any
/// text is read back whole.
fn parse_string(s: &str, i: usize) -> (r: Option<(String, usize)>)
    requires
        i <= s@.len(),
    ensures
        r matches Some(p) ==> p.1 <= s@.len(),
        forall|x: Seq<char>, j: int|
            #![trigger s@.subrange(i as int, j), jstr(x)]
            jstr_at(s@, i as int, x, j) ==> (r matches Some(p) && p.0@ == x && p.1 == j),
{
    let len = s.unicode_len();
    if i >= len || s.get_char(i) != '"' {
        proof {
            assert forall|x: Seq<char>, j: int|
                #![trigger s@.subrange(i as int, j), jstr(x)]
                !jstr_at(s@, i as int, x, j) by {
                if jstr_at(s@, i as int, x, j) {
                    lemma_jstr_at_body(s@, i as int, x, j);
                }
            }
        }
        return None;
    }
    let mut out = String::new();
    let mut k: usize = i + 1;
    loop
        invariant
            i as int + 1 <= k as int <= len as int,
            len == s@.len(),
            scan_str(s@, i as int + 1, Seq::<char>::empty()) == scan_str(s@, k as int, out@),
        decreases len - k,
    {
        if k >= len {
            proof {
                assert(scan_str(s@, k as int, out@) is None);
                lemma_parse_string_none(s@, i as int);
            }
            return None;
        }
        let c = s.get_char(k);
        if c == '"' {
            proof {
                assert(scan_str(s@, k as int, out@) == Some((out@, k as int + 1)));
                assert forall|x: Seq<char>, j: int|
                    #![trigger s@.subrange(i as int, j), jstr(x)]
                    jstr_at(s@, i as int, x, j) implies (out@ == x && k as int + 1 == j) by {
                    lemma_jstr_at_body(s@, i as int, x, j);
                    lemma_scan_complete(s@, i as int + 1, Seq::<char>::empty(), x, j);
                    assert(Seq::<char>::empty() + x =~= x);
                }
            }
            return Some((out, k + 1));
        } else if c == '\\' {
            if k + 1 >= len {
                proof {
                    assert(scan_str(s@, k as int, out@) is None);
                    lemma_parse_string_none(s@, i as int);
                }
                return None;
            }
            let d = s.get_char(k + 1);
            if d == '"' {
                let ghost out0 = out@;
                out.append("\"");
                proof {
                    reveal_strlit("\"");
                    assert(out@ =~= out0.push(s@[k as int + 1]));
                    assert(scan_str(s@, k as int, out0) == scan_str(
                        s@,
                        k as int + 2,
                        out0.push(s@[k as int + 1]),
                    ));
                }
                k = k + 2;
            } else if d == '\\' {
                let ghost out0 = out@;
                out.append("\\");
                proof {
                    reveal_strlit("\\");
                    assert(out@ =~= out0.push(s@[k as int + 1]));
                    assert(scan_str(s@, k as int, out0) == scan_str(
                        s@,
                        k as int + 2,
                        out0.push(s@[k as int + 1]),
                    ));
                }
                k = k + 2;
            } else if d == 'u' {
                if len - k < 6 {
                    proof {
                        assert(scan_str(s@, k as int, out@) is None);
                        lemma_parse_string_none(s@, i as int);
                    }
                    return None;
                }
                if s.get_char(k + 2) != '0' || s.get_char(k + 3) != '0' {
                    proof {
                        assert(scan_str(s@, k as int, out@) is None);
                        lemma_parse_string_none(s@, i as int);
                    }
                    return None;
                }
                match control_str(s.get_char(k + 4), s.get_char(k + 5)) {
                    Some(piece) => {
                        let ghost out0 = out@;
                        out.append(piece);
                        proof {
                            let cc = code_char(s@[k as int + 4], s@[k as int + 5])->0;
                            assert(out@ =~= out0.push(cc));
                            assert(scan_str(s@, k as int, out0) == scan_str(
                                s@,
                                k as int + 6,
                                out0.push(cc),
                            ));
                        }
                        k = k + 6;
                    },
                    None => {
                        proof {
                            assert(scan_str(s@, k as int, out@) is None);
                            lemma_parse_string_none(s@, i as int);
                        }
                        return None;
                    },
                }
            } else {
                proof {
                    assert(scan_str(s@, k as int, out@) is None);
                    lemma_parse_string_none(s@, i as int);
                }
                return None;
            }
        } else {
            let ghost out0 = out@;
            let piece = s.substring_char(k, k + 1);
            out.append(piece);
            proof {
                assert(out@ =~= out0.push(s@[k as int]));
                assert(scan_str(s@, k as int, out0) == scan_str(
                    s@,
                    k as int + 1,
                    out0.push(s@[k as int]),
                ));
            }
            k = k + 1;
        }
    }
}

/// A failed scan refutes every admissible literal.
proof fn lemma_parse_string_none(s: Seq<char>, i: int)
    requires
        scan_str(s, i + 1, Seq::<char>::empty()) is None,
        0 <= i,
    ensures
        forall|x: Seq<char>, j: int|
            #![trigger s.subrange(i, j), jstr(x)]
            !jstr_at(s, i, x, j),
{
    assert forall|x: Seq<char>, j: int|
        #![trigger s.subrange(i, j), jstr(x)]
        !jstr_at(s, i, x, j) by {
        if jstr_at(s, i, x, j) {
            lemma_jstr_at_body(s, i, x, j);
            lemma_scan_complete(s, i + 1, Seq::<char>::empty(), x, j);
        }
    }
}

/// The run of decimal digits at `i` denotes a value small enough to
/// return.
pub(crate) open spec fn dec_run_at(s: Seq<char>, i: int, j: int) -> bool {
    i < j <= s.len() && (forall|m: int| i <= m < j ==> is_dec_char(#[trigger] s[m])) && (j
        == s.len() || !is_dec_char(s[j])) && 0 <= dec_val(s.subrange(i, j)) <= u64::MAX
}

/// Read a run of decimal digits starting at `i` into a number. The
/// maximal digit run, if there is one and its value fits, is read
/// whole.
fn parse_u64(s: &str, i: usize) -> (r: Option<(u64, usize)>)
    requires
        i <= s@.len(),
    ensures
        r matches Some(p) ==> p.1 <= s@.len() && i <= p.1,
        forall|j: int|
            #![trigger s@.subrange(i as int, j)]
            dec_run_at(s@, i as int, j) ==> (r matches Some(p) && p.0 == dec_val(
                s@.subrange(i as int, j),
            ) && p.1 == j),
{
    let len = s.unicode_len();
    let mut k: usize = i;
    let mut acc: u64 = 0;
    loop
        invariant
            i <= k <= len,
            len == s@.len(),
            forall|m: int| i as int <= m < k as int ==> is_dec_char(#[trigger] s@[m]),
            acc == dec_val(s@.subrange(i as int, k as int)),
        ensures
            i <= k <= len,
            len == s@.len(),
            forall|m: int| i as int <= m < k as int ==> is_dec_char(#[trigger] s@[m]),
            acc == dec_val(s@.subrange(i as int, k as int)),
            k == len || !is_dec_char(s@[k as int]),
        decreases len - k,
    {
        if k >= len {
            break;
        }
        let c = s.get_char(k);
        if !(c >= '0' && c <= '9') {
            break;
        }
        let d: u64 = (c as u32 as u64) - 48;
        if acc > (u64::MAX - d) / 10 {
            proof {
                lemma_dec_run_overflow(s@, i as int, k as int, acc, d);
            }
            return None;
        }
        proof {
            assert(s@.subrange(i as int, k as int + 1).drop_last() =~= s@.subrange(
                i as int,
                k as int,
            ));
            assert(s@.subrange(i as int, k as int + 1).last() == s@[k as int]);
            assert(acc * 10 + d <= u64::MAX) by (nonlinear_arith)
                requires
                    acc <= (u64::MAX - d) / 10,
                    d <= 9,
            ;
        }
        acc = acc * 10 + d;
        k = k + 1;
    }
    proof {
        assert forall|j: int|
            #![trigger s@.subrange(i as int, j)]
            dec_run_at(s@, i as int, j) implies j == k as int by {
            lemma_dec_run_end(s@, i as int, j, k as int);
        }
    }
    if k == i {
        return None;
    }
    Some((acc, k))
}

/// A digit run whose next prefix already overflows has no admissible
/// end.
proof fn lemma_dec_run_overflow(s: Seq<char>, i: int, k: int, acc: u64, d: u64)
    requires
        0 <= i <= k < s.len(),
        forall|m: int| i <= m < k ==> is_dec_char(#[trigger] s[m]),
        is_dec_char(s[k]),
        acc == dec_val(s.subrange(i, k)),
        d == dec_char_val(s[k]),
        acc > (u64::MAX - d) / 10,
    ensures
        forall|j: int|
            #![trigger s.subrange(i, j)]
            !dec_run_at(s, i, j),
{
    assert forall|j: int| #![trigger s.subrange(i, j)] !dec_run_at(s, i, j) by {
        if dec_run_at(s, i, j) {
            if j <= k {
                assert(is_dec_char(s[j]));
            }
            assert(j > k);
            let a = s.subrange(i, k + 1);
            let b = s.subrange(k + 1, j);
            assert(s.subrange(i, j) =~= a + b);
            lemma_dec_val_concat(a, b);
            assert(a.drop_last() =~= s.subrange(i, k));
            assert(a.last() == s[k]);
            assert(dec_val(a) == acc * 10 + d);
            assert forall|m: int| 0 <= m < b.len() implies is_dec_char(#[trigger] b[m]) by {
                assert(b[m] == s[k + 1 + m]);
            }
            lemma_dec_val_nonneg(b);
            crate::canon::lemma_pow10_pos(b.len());
            assert(dec_val(a) * pow10(b.len()) >= dec_val(a)) by (nonlinear_arith)
                requires
                    dec_val(a) >= 0,
                    pow10(b.len()) >= 1,
            ;
            assert(acc * 10 + d > u64::MAX) by (nonlinear_arith)
                requires
                    acc > (u64::MAX - d) / 10,
                    d <= 9,
            ;
            assert(dec_val(s.subrange(i, j)) > u64::MAX);
        }
    }
}

/// An admissible digit-run end is exactly where the scan stopped.
proof fn lemma_dec_run_end(s: Seq<char>, i: int, j: int, k: int)
    requires
        0 <= i <= k <= s.len(),
        forall|m: int| i <= m < k ==> is_dec_char(#[trigger] s[m]),
        k == s.len() || !is_dec_char(s[k]),
        dec_run_at(s, i, j),
    ensures
        j == k,
{
    if j < k {
        assert(is_dec_char(s[j]));
        assert(j < s.len());
        assert(!is_dec_char(s[j]));
    }
    if j > k {
        assert(k < s.len());
        assert(is_dec_char(s[k]));
    }
}

/// The run of lowercase hexadecimal digits at `i` denotes a value
/// small enough to return.
pub(crate) open spec fn hex_run_at(s: Seq<char>, i: int, j: int) -> bool {
    i < j <= s.len() && (forall|m: int| i <= m < j ==> is_hex_char(#[trigger] s[m])) && (j
        == s.len() || !is_hex_char(s[j])) && 0 <= hex_val(s.subrange(i, j)) <= u64::MAX
}

/// Read a run of lowercase hexadecimal digits starting at `i`. The
/// maximal run, if there is one and its value fits, is read whole.
fn parse_hex_u64(s: &str, i: usize) -> (r: Option<(u64, usize)>)
    requires
        i <= s@.len(),
    ensures
        r matches Some(p) ==> p.1 <= s@.len() && i <= p.1,
        forall|j: int|
            #![trigger s@.subrange(i as int, j)]
            hex_run_at(s@, i as int, j) ==> (r matches Some(p) && p.0 == hex_val(
                s@.subrange(i as int, j),
            ) && p.1 == j),
{
    let len = s.unicode_len();
    let mut k: usize = i;
    let mut acc: u64 = 0;
    loop
        invariant
            i <= k <= len,
            len == s@.len(),
            forall|m: int| i as int <= m < k as int ==> is_hex_char(#[trigger] s@[m]),
            acc == hex_val(s@.subrange(i as int, k as int)),
        ensures
            i <= k <= len,
            len == s@.len(),
            forall|m: int| i as int <= m < k as int ==> is_hex_char(#[trigger] s@[m]),
            acc == hex_val(s@.subrange(i as int, k as int)),
            k == len || !is_hex_char(s@[k as int]),
        decreases len - k,
    {
        if k >= len {
            break;
        }
        let c = s.get_char(k);
        let d: u64 = if c >= '0' && c <= '9' {
            (c as u32 as u64) - 48
        } else if c >= 'a' && c <= 'f' {
            (c as u32 as u64) - 87
        } else {
            break;
        };
        if acc > (u64::MAX - d) / 16 {
            proof {
                lemma_hex_run_overflow(s@, i as int, k as int, acc, d);
            }
            return None;
        }
        proof {
            assert(s@.subrange(i as int, k as int + 1).drop_last() =~= s@.subrange(
                i as int,
                k as int,
            ));
            assert(s@.subrange(i as int, k as int + 1).last() == s@[k as int]);
            assert(acc * 16 + d <= u64::MAX) by (nonlinear_arith)
                requires
                    acc <= (u64::MAX - d) / 16,
                    d <= 15,
            ;
        }
        acc = acc * 16 + d;
        k = k + 1;
    }
    proof {
        assert forall|j: int|
            #![trigger s@.subrange(i as int, j)]
            hex_run_at(s@, i as int, j) implies j == k as int by {
            lemma_hex_run_end(s@, i as int, j, k as int);
        }
    }
    if k == i {
        return None;
    }
    Some((acc, k))
}

/// A hexadecimal run whose next prefix already overflows has no
/// admissible end.
proof fn lemma_hex_run_overflow(s: Seq<char>, i: int, k: int, acc: u64, d: u64)
    requires
        0 <= i <= k < s.len(),
        forall|m: int| i <= m < k ==> is_hex_char(#[trigger] s[m]),
        is_hex_char(s[k]),
        acc == hex_val(s.subrange(i, k)),
        d == hex_char_val(s[k]),
        acc > (u64::MAX - d) / 16,
    ensures
        forall|j: int|
            #![trigger s.subrange(i, j)]
            !hex_run_at(s, i, j),
{
    assert forall|j: int| #![trigger s.subrange(i, j)] !hex_run_at(s, i, j) by {
        if hex_run_at(s, i, j) {
            if j <= k {
                assert(is_hex_char(s[j]));
            }
            assert(j > k);
            let a = s.subrange(i, k + 1);
            let b = s.subrange(k + 1, j);
            assert(s.subrange(i, j) =~= a + b);
            lemma_hex_val_concat(a, b);
            assert(a.drop_last() =~= s.subrange(i, k));
            assert(a.last() == s[k]);
            assert(hex_val(a) == acc * 16 + d);
            assert forall|m: int| 0 <= m < b.len() implies is_hex_char(#[trigger] b[m]) by {
                assert(b[m] == s[k + 1 + m]);
            }
            lemma_hex_val_nonneg(b);
            crate::canon::lemma_pow16_pos(b.len());
            assert(hex_val(a) * pow16(b.len()) >= hex_val(a)) by (nonlinear_arith)
                requires
                    hex_val(a) >= 0,
                    pow16(b.len()) >= 1,
            ;
            assert(acc * 16 + d > u64::MAX) by (nonlinear_arith)
                requires
                    acc > (u64::MAX - d) / 16,
                    d <= 15,
            ;
            assert(hex_val(s.subrange(i, j)) > u64::MAX);
        }
    }
}

/// An admissible hexadecimal-run end is exactly where the scan
/// stopped.
proof fn lemma_hex_run_end(s: Seq<char>, i: int, j: int, k: int)
    requires
        0 <= i <= k <= s.len(),
        forall|m: int| i <= m < k ==> is_hex_char(#[trigger] s[m]),
        k == s.len() || !is_hex_char(s[k]),
        hex_run_at(s, i, j),
    ensures
        j == k,
{
    if j < k {
        assert(is_hex_char(s[j]));
        assert(j < s.len());
        assert(!is_hex_char(s[j]));
    }
    if j > k {
        assert(k < s.len());
        assert(is_hex_char(s[k]));
    }
}

/// The magnitude of a coordinate in microdegrees.
pub(crate) open spec fn coord_mag(vv: i64) -> nat {
    if vv < 0 {
        (-(vv as int)) as nat
    } else {
        vv as nat
    }
}

/// One when the coordinate prints a sign, zero otherwise.
pub(crate) open spec fn coord_sgn(vv: i64) -> int {
    if vv < 0 {
        1
    } else {
        0
    }
}

/// The whole-degree part of a coordinate.
pub(crate) open spec fn coord_units(vv: i64) -> nat {
    coord_mag(vv) / 1000000
}

/// The fractional part of a coordinate, in microdegrees.
pub(crate) open spec fn coord_frac(vv: i64) -> nat {
    coord_mag(vv) % 1000000
}

/// Where the whole-degree numeral of a coordinate at `i` ends.
pub(crate) open spec fn coord_iu(i: int, vv: i64) -> int {
    i + coord_sgn(vv) + spec_udec(coord_units(vv)).len()
}

/// The coordinate text of `vv` sits at `i` and ends at `j`, with no
/// digit right after it.
pub(crate) open spec fn coord_at(s: Seq<char>, i: int, vv: i64, j: int) -> bool {
    0 <= i && i + crate::text::spec_coord(vv as int).len() == j && j <= s.len() && s.subrange(i, j)
        == crate::text::spec_coord(vv as int) && (j == s.len() || !is_dec_char(s[j]))
}

/// How the coordinate text decomposes at its position: the sign, the
/// whole-degree run, the dot, and the six-digit fraction.
proof fn lemma_coord_decompose(s: Seq<char>, i: int, vv: i64, j: int)
    requires
        coord_at(s, i, vv, j),
    ensures
        j == coord_iu(i, vv) + 7,
        vv < 0 ==> i < s.len() && s[i] == '-',
        vv >= 0 ==> i < s.len() && is_dec_char(s[i]) && s[i] != '-',
        dec_run_at(s, i + coord_sgn(vv), coord_iu(i, vv)),
        dec_val(s.subrange(i + coord_sgn(vv), coord_iu(i, vv))) == coord_units(vv),
        coord_iu(i, vv) < s.len() && s[coord_iu(i, vv)] == '.',
        dec_run_at(s, coord_iu(i, vv) + 1, j),
        dec_val(s.subrange(coord_iu(i, vv) + 1, j)) == coord_frac(vv),
        coord_units(vv) <= 9223372036854,
        coord_frac(vv) < 1000000,
        coord_units(vv) * 1000000 + coord_frac(vv) == coord_mag(vv),
        coord_mag(vv) <= 9223372036854775808,
{
    let mag = coord_mag(vv);
    let units = coord_units(vv);
    let frac = coord_frac(vv);
    let sgn = coord_sgn(vv);
    let iu = coord_iu(i, vv);
    let u = spec_udec(units);
    let f = spec_fixed_dec(frac, 6);
    let co = crate::text::spec_coord(vv as int);
    let sign: Seq<char> = if vv < 0 { seq!['-'] } else { Seq::<char>::empty() };
    crate::canon::lemma_fixed_len(frac, 6);
    assert(co == sign + u + seq!['.'] + f);
    assert(co.len() == sgn + u.len() + 1 + 6);
    assert forall|m: int| 0 <= m < co.len() implies s[i + m] == co[m] by {
        assert(s.subrange(i, j)[m] == s[i + m]);
        assert(s.subrange(i, j)[m] == co[m]);
    }
    assert forall|m: int| 0 <= m < u.len() implies s.subrange(i + sgn, iu)[m] == u[m] by {
        assert(s.subrange(i + sgn, iu)[m] == s[i + sgn + m]);
        assert(s[i + sgn + m] == co[sgn + m]);
        assert(co[sgn + m] == u[m]);
    }
    assert(s.subrange(i + sgn, iu) =~= u);
    assert(s[i + (sgn + u.len())] == co[sgn + u.len() as int]);
    assert(co[sgn + u.len() as int] == '.');
    assert(s[iu] == '.');
    assert forall|m: int| 0 <= m < 6 implies s.subrange(iu + 1, j)[m] == f[m] by {
        assert(s.subrange(iu + 1, j)[m] == s[iu + 1 + m]);
        assert(s[i + (sgn + u.len() + 1 + m)] == co[sgn + u.len() + 1 + m]);
        assert(co[sgn + u.len() + 1 + m] == f[m]);
    }
    assert(s.subrange(iu + 1, j) =~= f);
    crate::canon::lemma_udec_all_dec(units);
    crate::canon::lemma_fixed_all_dec(frac, 6);
    crate::canon::lemma_dec_val_udec(units);
    crate::canon::lemma_dec_val_fixed(frac, 6);
    assert(pow10(0) == 1);
    assert(pow10(1) == 10);
    assert(pow10(2) == 100);
    assert(pow10(3) == 1000);
    assert(pow10(4) == 10000);
    assert(pow10(5) == 100000);
    assert(pow10(6) == 1000000);
    assert(frac % 1000000 == frac);
    assert(mag <= 9223372036854775808);
    assert(units <= 9223372036854) by (nonlinear_arith)
        requires
            units == mag / 1000000,
            mag <= 9223372036854775808,
    ;
    assert forall|m: int| i + sgn <= m < iu implies is_dec_char(#[trigger] s[m]) by {
        assert(s[m] == u[m - (i + sgn)]);
    }
    assert forall|m: int| iu + 1 <= m < j implies is_dec_char(#[trigger] s[m]) by {
        assert(s[m] == f[m - (iu + 1)]);
    }
    assert(dec_val(s.subrange(i + sgn, iu)) == units);
    assert(dec_val(s.subrange(iu + 1, j)) == frac);
    assert(!is_dec_char('.'));
    if vv < 0 {
        assert(s[i + 0] == co[0]);
        assert(co[0] == sign[0]);
        assert(s[i] == '-');
    } else {
        assert(u.len() > 0);
        assert(s[i + 0] == co[0]);
        assert(co[0] == u[0]);
        assert(is_dec_char(s[i]));
    }
}

/// Read a fixed-point microdegree coordinate: an optional sign, whole
/// degrees, a dot, and exactly six fractional digits. The canonical
/// rendering of any microdegree value is read back whole.
#[verifier::rlimit(100)]
fn parse_coord(s: &str, i: usize) -> (r: Option<(i64, usize)>)
    requires
        i <= s@.len(),
    ensures
        r matches Some(p) ==> p.1 <= s@.len(),
        forall|vv: i64, j: int|
            #![trigger s@.subrange(i as int, j), crate::text::spec_coord(vv as int)]
            coord_at(s@, i as int, vv, j) ==> (r matches Some(p) && p.0 == vv && p.1 == j),
{
    proof {
        reveal_strlit(".");
    }
    let len = s.unicode_len();
    let mut k: usize = i;
    let mut neg = false;
    if k < len && s.get_char(k) == '-' {
        neg = true;
        k = k + 1;
    }
    proof {
        assert forall|vv: i64, j: int|
            #![trigger s@.subrange(i as int, j), crate::text::spec_coord(vv as int)]
            coord_at(s@, i as int, vv, j) implies (neg == (vv < 0) && k as int == i as int
            + coord_sgn(vv)) by {
            lemma_coord_decompose(s@, i as int, vv, j);
        }
    }
    let units_end = match parse_u64(s, k) {
        Some(p) => p,
        None => {
            proof {
                assert forall|vv: i64, j: int|
                    #![trigger s@.subrange(i as int, j), crate::text::spec_coord(vv as int)]
                    !coord_at(s@, i as int, vv, j) by {
                    if coord_at(s@, i as int, vv, j) {
                        lemma_coord_decompose(s@, i as int, vv, j);
                    }
                }
            }
            return None;
        },
    };
    let units = units_end.0;
    let ku = units_end.1;
    if units > 9223372036854u64 {
        proof {
            assert forall|vv: i64, j: int|
                #![trigger s@.subrange(i as int, j), crate::text::spec_coord(vv as int)]
                !coord_at(s@, i as int, vv, j) by {
                if coord_at(s@, i as int, vv, j) {
                    lemma_coord_decompose(s@, i as int, vv, j);
                }
            }
        }
        return None;
    }
    let kd = match expect(s, ku, ".") {
        Some(j) => j,
        None => {
            proof {
                assert forall|vv: i64, j: int|
                    #![trigger s@.subrange(i as int, j), crate::text::spec_coord(vv as int)]
                    !coord_at(s@, i as int, vv, j) by {
                    if coord_at(s@, i as int, vv, j) {
                        lemma_coord_decompose(s@, i as int, vv, j);
                        assert(s@.subrange(coord_iu(i as int, vv), coord_iu(i as int, vv) + 1)
                            =~= "."@);
                    }
                }
            }
            return None;
        },
    };
    let frac_end = match parse_u64(s, kd) {
        Some(p) => p,
        None => {
            proof {
                assert forall|vv: i64, j: int|
                    #![trigger s@.subrange(i as int, j), crate::text::spec_coord(vv as int)]
                    !coord_at(s@, i as int, vv, j) by {
                    if coord_at(s@, i as int, vv, j) {
                        lemma_coord_decompose(s@, i as int, vv, j);
                        assert(s@.subrange(coord_iu(i as int, vv), coord_iu(i as int, vv) + 1)
                            =~= "."@);
                    }
                }
            }
            return None;
        },
    };
    let frac = frac_end.0;
    let k2 = frac_end.1;
    proof {
        assert forall|vv: i64, j: int|
            #![trigger s@.subrange(i as int, j), crate::text::spec_coord(vv as int)]
            coord_at(s@, i as int, vv, j) implies (units == coord_units(vv) && ku as int
            == coord_iu(i as int, vv) && kd as int == coord_iu(i as int, vv) + 1 && frac
            == coord_frac(vv) && k2 as int == j) by {
            lemma_coord_decompose(s@, i as int, vv, j);
            assert(s@.subrange(coord_iu(i as int, vv), coord_iu(i as int, vv) + 1) =~= "."@);
        }
    }
    if k2 - kd != 6 || frac >= 1000000 {
        proof {
            assert forall|vv: i64, j: int|
                #![trigger s@.subrange(i as int, j), crate::text::spec_coord(vv as int)]
                !coord_at(s@, i as int, vv, j) by {
                if coord_at(s@, i as int, vv, j) {
                    lemma_coord_decompose(s@, i as int, vv, j);
                    crate::canon::lemma_fixed_len(coord_frac(vv), 6);
                }
            }
        }
        return None;
    }
    let mag: u64 = units * 1000000 + frac;
    proof {
        assert forall|vv: i64, j: int|
            #![trigger s@.subrange(i as int, j), crate::text::spec_coord(vv as int)]
            coord_at(s@, i as int, vv, j) implies mag == coord_mag(vv) by {
            lemma_coord_decompose(s@, i as int, vv, j);
            assert(s@.subrange(coord_iu(i as int, vv), coord_iu(i as int, vv) + 1) =~= "."@);
        }
    }
    if neg {
        if mag == 9223372036854775808u64 {
            Some((i64::MIN, k2))
        } else if mag <= 9223372036854775807u64 {
            Some(((-(mag as i64)), k2))
        } else {
            proof {
                assert forall|vv: i64, j: int|
                    #![trigger s@.subrange(i as int, j), crate::text::spec_coord(vv as int)]
                    !coord_at(s@, i as int, vv, j) by {
                    if coord_at(s@, i as int, vv, j) {
                        lemma_coord_decompose(s@, i as int, vv, j);
                    }
                }
            }
            None
        }
    } else {
        if mag <= 9223372036854775807u64 {
            Some((mag as i64, k2))
        } else {
            proof {
                assert forall|vv: i64, j: int|
                    #![trigger s@.subrange(i as int, j), crate::text::spec_coord(vv as int)]
                    !coord_at(s@, i as int, vv, j) by {
                    if coord_at(s@, i as int, vv, j) {
                        lemma_coord_decompose(s@, i as int, vv, j);
                    }
                }
            }
            None
        }
    }
}

/// Read an address out of its textual form.
fn parse_ip(t: &str) -> (r: Option<IpAddress>) {
    let len = t.unicode_len();
    let mut has_colon = false;
    let mut i: usize = 0;
    while i < len
        invariant
            i <= len,
            len == t@.len(),
        decreases len - i,
    {
        if t.get_char(i) == ':' {
            has_colon = true;
        }
        i = i + 1;
    }
    if has_colon {
        let (g0, i) = parse_hex_u64(t, 0)?;
        let i = expect(t, i, ":")?;
        let (g1, i) = parse_hex_u64(t, i)?;
        let i = expect(t, i, ":")?;
        let (g2, i) = parse_hex_u64(t, i)?;
        let i = expect(t, i, ":")?;
        let (g3, i) = parse_hex_u64(t, i)?;
        let i = expect(t, i, ":")?;
        let (g4, i) = parse_hex_u64(t, i)?;
        let i = expect(t, i, ":")?;
        let (g5, i) = parse_hex_u64(t, i)?;
        let i = expect(t, i, ":")?;
        let (g6, i) = parse_hex_u64(t, i)?;
        let i = expect(t, i, ":")?;
        let (g7, i) = parse_hex_u64(t, i)?;
        if i != len {
            return None;
        }
        if g0 > 65535 || g1 > 65535 || g2 > 65535 || g3 > 65535 || g4 > 65535 || g5 > 65535 || g6
            > 65535 || g7 > 65535 {
            return None;
        }
        Some(
            IpAddress::V6(
                g0 as u16,
                g1 as u16,
                g2 as u16,
                g3 as u16,
                g4 as u16,
                g5 as u16,
                g6 as u16,
                g7 as u16,
            ),
        )
    } else {
        let (a, i) = parse_u64(t, 0)?;
        let i = expect(t, i, ".")?;
        let (b, i) = parse_u64(t, i)?;
        let i = expect(t, i, ".")?;
        let (c, i) = parse_u64(t, i)?;
        let i = expect(t, i, ".")?;
        let (d, i) = parse_u64(t, i)?;
        if i != len {
            return None;
        }
        if a > 255 || b > 255 || c > 255 || d > 255 {
            return None;
        }
        Some(IpAddress::V4(a as u8, b as u8, c as u8, d as u8))
    }
}

/// Read the open variant of a category: `{"<tag>":"<label>"}`.
fn parse_other(s: &str, i: usize, open: &str) -> (r: Option<(String, usize)>)
    requires
        i <= s@.len(),
    ensures
        r matches Some(p) ==> p.1 <= s@.len(),
{
    let i = expect(s, i, open)?;
    let (label, i) = parse_string(s, i)?;
    let i = expect(s, i, "}")?;
    Some((label, i))
}

/// Read the JSON fragment of a continent.
fn parse_continent(s: &str, i: usize) -> (r: Option<(Continent, usize)>)
    requires
        i <= s@.len(),
    ensures
        r matches Some(p) ==> p.1 <= s@.len(),
{
    if let Some(j) = expect(s, i, "\"AF\"") {
        return Some((Continent::Africa, j));
    }
    if let Some(j) = expect(s, i, "\"AN\"") {
        return Some((Continent::Antarctica, j));
    }
    if let Some(j) = expect(s, i, "\"AS\"") {
        return Some((Continent::Asia, j));
    }
    if let Some(j) = expect(s, i, "\"EU\"") {
        return Some((Continent::Europe, j));
    }
    if let Some(j) = expect(s, i, "\"NA\"") {
        return Some((Continent::NorthAmerica, j));
    }
    if let Some(j) = expect(s, i, "\"OC\"") {
        return Some((Continent::Oceania, j));
    }
    if let Some(j) = expect(s, i, "\"SA\"") {
        return Some((Continent::SouthAmerica, j));
    }
    let (label, j) = parse_other(s, i, "{\"Other\":")?;
    Some((Continent::Other(label), j))
}

/// Read the JSON fragment of a connection-speed category.
fn parse_conn_speed(s: &str, i: usize) -> (r: Option<(ConnSpeed, usize)>)
    requires
        i <= s@.len(),
    ensures
        r matches Some(p) ==> p.1 <= s@.len(),
{
    if let Some(j) = expect(s, i, "\"broadband\"") {
        return Some((ConnSpeed::Broadband, j));
    }
    if let Some(j) = expect(s, i, "\"cable\"") {
        return Some((ConnSpeed::Cable, j));
    }
    if let Some(j) = expect(s, i, "\"dialup\"") {
        return Some((ConnSpeed::Dialup, j));
    }
    if let Some(j) = expect(s, i, "\"mobile\"") {
        return Some((ConnSpeed::Mobile, j));
    }
    if let Some(j) = expect(s, i, "\"oc12\"") {
        return Some((ConnSpeed::Oc12, j));
    }
    if let Some(j) = expect(s, i, "\"oc3\"") {
        return Some((ConnSpeed::Oc3, j));
    }
    if let Some(j) = expect(s, i, "\"satellite\"") {
        return Some((ConnSpeed::Satellite, j));
    }
    if let Some(j) = expect(s, i, "\"t1\"") {
        return Some((ConnSpeed::T1, j));
    }
    if let Some(j) = expect(s, i, "\"t3\"") {
        return Some((ConnSpeed::T3, j));
    }
    if let Some(j) = expect(s, i, "\"ultrabb\"") {
        return Some((ConnSpeed::UltraBroadband, j));
    }
    if let Some(j) = expect(s, i, "\"wireless\"") {
        return Some((ConnSpeed::Wireless, j));
    }
    if let Some(j) = expect(s, i, "\"xdsl\"") {
        return Some((ConnSpeed::Xdsl, j));
    }
    let (label, j) = parse_other(s, i, "{\"other\":")?;
    Some((ConnSpeed::Other(label), j))
}

/// Read the JSON fragment of a connection-type category.
fn parse_conn_type(s: &str, i: usize) -> (r: Option<(ConnType, usize)>)
    requires
        i <= s@.len(),
    ensures
        r matches Some(p) ==> p.1 <= s@.len(),
{
    if let Some(j) = expect(s, i, "\"wired\"") {
        return Some((ConnType::Wired, j));
    }
    if let Some(j) = expect(s, i, "\"wifi\"") {
        return Some((ConnType::Wifi, j));
    }
    if let Some(j) = expect(s, i, "\"mobile\"") {
        return Some((ConnType::Mobile, j));
    }
    if let Some(j) = expect(s, i, "\"dialup\"") {
        return Some((ConnType::Dialup, j));
    }
    if let Some(j) = expect(s, i, "\"satellite\"") {
        return Some((ConnType::Satellite, j));
    }
    if let Some(j) = expect(s, i, "\"?\"") {
        return Some((ConnType::Unknown, j));
    }
    let (label, j) = parse_other(s, i, "{\"other\":")?;
    Some((ConnType::Other(label), j))
}

/// Read the JSON fragment of a proxy-type category.
fn parse_proxy_type(s: &str, i: usize) -> (r: Option<(ProxyType, usize)>)
    requires
        i <= s@.len(),
    ensures
        r matches Some(p) ==> p.1 <= s@.len(),
{
    if let Some(j) = expect(s, i, "\"anonymous\"") {
        return Some((ProxyType::Anonymous, j));
    }
    if let Some(j) = expect(s, i, "\"aol\"") {
        return Some((ProxyType::Aol, j));
    }
    if let Some(j) = expect(s, i, "\"blackberry\"") {
        return Some((ProxyType::Blackberry, j));
    }
    if let Some(j) = expect(s, i, "\"corporate\"") {
        return Some((ProxyType::Corporate, j));
    }
    if let Some(j) = expect(s, i, "\"edu\"") {
        return Some((ProxyType::Edu, j));
    }
    if let Some(j) = expect(s, i, "\"hosting\"") {
        return Some((ProxyType::Hosting, j));
    }
    if let Some(j) = expect(s, i, "\"public\"") {
        return Some((ProxyType::Public, j));
    }
    if let Some(j) = expect(s, i, "\"transparent\"") {
        return Some((ProxyType::Transparent, j));
    }
    if let Some(j) = expect(s, i, "\"?\"") {
        return Some((ProxyType::Unknown, j));
    }
    let (label, j) = parse_other(s, i, "{\"other\":")?;
    Some((ProxyType::Other(label), j))
}

/// Read the JSON fragment of a proxy-description category.
fn parse_proxy_description(s: &str, i: usize) -> (r: Option<(ProxyDescription, usize)>)
    requires
        i <= s@.len(),
    ensures
        r matches Some(p) ==> p.1 <= s@.len(),
{
    if let Some(j) = expect(s, i, "\"cloud\"") {
        return Some((ProxyDescription::Cloud, j));
    }
    if let Some(j) = expect(s, i, "\"cloud-security\"") {
        return Some((ProxyDescription::CloudSecurity, j));
    }
    if let Some(j) = expect(s, i, "\"dns\"") {
        return Some((ProxyDescription::Dns, j));
    }
    if let Some(j) = expect(s, i, "\"tor-exit\"") {
        return Some((ProxyDescription::TorExit, j));
    }
    if let Some(j) = expect(s, i, "\"tor-relay\"") {
        return Some((ProxyDescription::TorRelay, j));
    }
    if let Some(j) = expect(s, i, "\"vpn\"") {
        return Some((ProxyDescription::Vpn, j));
    }
    if let Some(j) = expect(s, i, "\"web-browser\"") {
        return Some((ProxyDescription::WebBrowser, j));
    }
    if let Some(j) = expect(s, i, "\"?\"") {
        return Some((ProxyDescription::Unknown, j));
    }
    let (label, j) = parse_other(s, i, "{\"other\":")?;
    Some((ProxyDescription::Other(label), j))
}

/// Extract a candidate record from the document text, without judging
/// whether the text is canonical.
fn parse_candidate(s: &str) -> (r: Option<GeoIPResponse>) {
    let i = expect(s, 0, "{\"ip\":")?;
    let (ip_text, i) = parse_string(s, i)?;
    let ip = parse_ip(ip_text.as_str())?;
    let i = expect(s, i, ",\"isp\":{\"isp_name\":")?;
    let (isp_name, i) = parse_string(s, i)?;
    let i = expect(s, i, ",\"isp_asn\":")?;
    let (asn, i) = parse_u64(s, i)?;
    if asn > 4294967295u64 {
        return None;
    }
    let i = expect(s, i, "},\"geographic\":{\"city\":")?;
    let (city, i) = parse_string(s, i)?;
    let i = expect(s, i, ",\"country\":")?;
    let (country, i) = parse_string(s, i)?;
    let i = expect(s, i, ",\"continent\":")?;
    let (continent, i) = parse_continent(s, i)?;
    let i = expect(s, i, ",\"postal_code\":")?;
    let (postal_code, i) = parse_string(s, i)?;
    let i = expect(s, i, ",\"latitude\":")?;
    let (latitude, i) = parse_coord(s, i)?;
    let i = expect(s, i, ",\"longitude\":")?;
    let (longitude, i) = parse_coord(s, i)?;
    let i = expect(s, i, "},\"connection\":{\"connection_speed\":")?;
    let (connection_speed, i) = parse_conn_speed(s, i)?;
    let i = expect(s, i, ",\"connection_type\":")?;
    let (connection_type, i) = parse_conn_type(s, i)?;
    let i = expect(s, i, "},\"proxy\":{\"proxy_type\":")?;
    let (proxy_type, i) = parse_proxy_type(s, i)?;
    let i = expect(s, i, ",\"proxy_description\":")?;
    let (proxy_description, i) = parse_proxy_description(s, i)?;
    let i = expect(s, i, "}}")?;
    if i != s.unicode_len() {
        return None;
    }
    Some(
        GeoIPResponse {
            ip,
            isp: GeoIPISPInfo { isp_name, isp_asn: asn as u32 },
            geographic: GeoIPGeographicInfo {
                city,
                country,
                continent,
                postal_code,
                latitude,
                longitude,
            },
            connection: GeoIPConnectionInfo { connection_speed, connection_type },
            proxy: GeoIPProxyInfo { proxy_type, proxy_description },
        },
    )
}

/// Parse a JSON document into the report it serializes.
///
/// A successful parse is exact: the returned record's canonical
/// document is byte-identical to the input. Since the document
/// determines the record ([`crate::canon::lemma_json_injective`]),
/// parsing a rendered document can only recover a record structurally
/// equal to the one that was rendered.
pub fn parse_json(s: &str) -> (r: Option<GeoIPResponse>)
    ensures
        r is Some ==> spec_json(r->0@) == s@,
        forall|v: crate::model::GeoIPResponseView|
            r is Some && s@ == spec_json(v) ==> r->0@ == v,
{
    match parse_candidate(s) {
        Some(candidate) => {
            let rendered = render_json(&candidate);
            if str_eq(rendered.as_str(), s) {
                proof {
                    assert forall|v: crate::model::GeoIPResponseView|
                        s@ == spec_json(v) implies candidate@ == v by {
                        crate::canon::lemma_json_injective(candidate@, v);
                    }
                }
                Some(candidate)
            } else {
                None
            }
        },
        None => None,
    }
}

} // verus!
