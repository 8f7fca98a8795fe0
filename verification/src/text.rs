//! Verified text rendering for the plain values the reports carry:
//! unsigned and signed decimal numerals, fixed-point microdegree
//! coordinates, and the dotted or colon-separated address forms.

use vstd::prelude::*;

verus! {

/// The decimal digit character for a value below ten.
pub open spec fn dec_digit(d: nat) -> char {
    if d == 0 {
        '0'
    } else if d == 1 {
        '1'
    } else if d == 2 {
        '2'
    } else if d == 3 {
        '3'
    } else if d == 4 {
        '4'
    } else if d == 5 {
        '5'
    } else if d == 6 {
        '6'
    } else if d == 7 {
        '7'
    } else if d == 8 {
        '8'
    } else {
        '9'
    }
}

/// The lowercase hexadecimal digit character for a value below sixteen.
pub open spec fn hex_digit(d: nat) -> char {
    if d < 10 {
        dec_digit(d)
    } else if d == 10 {
        'a'
    } else if d == 11 {
        'b'
    } else if d == 12 {
        'c'
    } else if d == 13 {
        'd'
    } else if d == 14 {
        'e'
    } else {
        'f'
    }
}

/// The shortest decimal numeral of `n`: no leading zero except for
/// `"0"` itself.
pub open spec fn spec_udec(n: nat) -> Seq<char>
    decreases n,
{
    if n < 10 {
        seq![dec_digit(n)]
    } else {
        spec_udec(n / 10) + seq![dec_digit(n % 10)]
    }
}

/// The decimal numeral of `n` padded with leading zeros to exactly
/// `width` digits (the low `width` digits of `n`).
pub open spec fn spec_fixed_dec(n: nat, width: nat) -> Seq<char>
    decreases width,
{
    if width == 0 {
        Seq::empty()
    } else {
        spec_fixed_dec(n / 10, (width - 1) as nat) + seq![dec_digit(n % 10)]
    }
}

/// The shortest lowercase hexadecimal numeral of `n`.
pub open spec fn spec_uhex(n: nat) -> Seq<char>
    decreases n,
{
    if n < 16 {
        seq![hex_digit(n)]
    } else {
        spec_uhex(n / 16) + seq![hex_digit(n % 16)]
    }
}

/// The fixed-point text of a microdegree coordinate: whole degrees, a
/// dot, and exactly six fractional digits, with a leading `'-'` when
/// the value is negative.
pub open spec fn spec_coord(v: int) -> Seq<char> {
    let mag = if v < 0 { (-v) as nat } else { v as nat };
    let sign: Seq<char> = if v < 0 { seq!['-'] } else { Seq::empty() };
    sign + spec_udec(mag / 1000000) + seq!['.'] + spec_fixed_dec(mag % 1000000, 6)
}

/// The textual form of an address: dotted decimal octets for IPv4, the
/// full eight lowercase hexadecimal groups for IPv6 (no zero-run
/// compression).
pub open spec fn spec_ip_text(ip: crate::model::IpAddress) -> Seq<char> {
    match ip {
        crate::model::IpAddress::V4(a, b, c, d) => spec_udec(a as nat) + (seq!['.'] + (spec_udec(
            b as nat,
        ) + (seq!['.'] + (spec_udec(c as nat) + (seq!['.'] + spec_udec(d as nat)))))),
        crate::model::IpAddress::V6(s0, s1, s2, s3, s4, s5, s6, s7) => spec_uhex(s0 as nat) + (seq![':'] + (spec_uhex(s1 as nat) + (seq![':'] + (spec_uhex(s2 as nat) + (seq![':'] + (spec_uhex(s3 as nat) + (seq![':'] + (spec_uhex(s4 as nat) + (seq![':'] + (spec_uhex(s5 as nat) + (seq![':'] + (spec_uhex(s6 as nat) + (seq![':'] + (spec_uhex(s7 as nat))))))))))))))),
    }
}

/// The one-character string for a decimal digit value.
fn dec_digit_str(d: u64) -> (r: &'static str)
    requires
        d < 10,
    ensures
        r@ == seq![dec_digit(d as nat)],
{
    proof {
        reveal_strlit("0");
        reveal_strlit("1");
        reveal_strlit("2");
        reveal_strlit("3");
        reveal_strlit("4");
        reveal_strlit("5");
        reveal_strlit("6");
        reveal_strlit("7");
        reveal_strlit("8");
        reveal_strlit("9");
    }
    let r: &'static str = if d == 0 {
        "0"
    } else if d == 1 {
        "1"
    } else if d == 2 {
        "2"
    } else if d == 3 {
        "3"
    } else if d == 4 {
        "4"
    } else if d == 5 {
        "5"
    } else if d == 6 {
        "6"
    } else if d == 7 {
        "7"
    } else if d == 8 {
        "8"
    } else {
        "9"
    };
    proof {
        assert(r@ =~= seq![dec_digit(d as nat)]);
    }
    r
}

/// The one-character string for a hexadecimal digit value.
pub fn hex_digit_str(d: u64) -> (r: &'static str)
    requires
        d < 16,
    ensures
        r@ == seq![hex_digit(d as nat)],
{
    if d < 10 {
        dec_digit_str(d)
    } else {
        proof {
            reveal_strlit("a");
            reveal_strlit("b");
            reveal_strlit("c");
            reveal_strlit("d");
            reveal_strlit("e");
            reveal_strlit("f");
        }
        let r: &'static str = if d == 10 {
            "a"
        } else if d == 11 {
            "b"
        } else if d == 12 {
            "c"
        } else if d == 13 {
            "d"
        } else if d == 14 {
            "e"
        } else {
            "f"
        };
        proof {
            assert(r@ =~= seq![hex_digit(d as nat)]);
        }
        r
    }
}

/// Render `n` as its shortest decimal numeral.
pub fn u64_to_dec(n: u64) -> (r: String)
    ensures
        r@ == spec_udec(n as nat),
    decreases n,
{
    if n < 10 {
        String::from_str(dec_digit_str(n))
    } else {
        let mut s = u64_to_dec(n / 10);
        s.append(dec_digit_str(n % 10));
        s
    }
}

/// Render the low `width` decimal digits of `n`, zero-padded.
pub fn u64_to_fixed_dec(n: u64, width: u64) -> (r: String)
    ensures
        r@ == spec_fixed_dec(n as nat, width as nat),
    decreases width,
{
    if width == 0 {
        let r = String::new();
        proof {
            assert(r@ =~= spec_fixed_dec(n as nat, 0));
        }
        r
    } else {
        let mut s = u64_to_fixed_dec(n / 10, width - 1);
        s.append(dec_digit_str(n % 10));
        s
    }
}

/// Render `n` as its shortest lowercase hexadecimal numeral.
pub fn u64_to_hex(n: u64) -> (r: String)
    ensures
        r@ == spec_uhex(n as nat),
    decreases n,
{
    if n < 16 {
        String::from_str(hex_digit_str(n))
    } else {
        let mut s = u64_to_hex(n / 16);
        s.append(hex_digit_str(n % 16));
        s
    }
}

/// Character-wise string equality: true exactly when the two views
/// agree.
pub fn str_eq(a: &str, b: &str) -> (r: bool)
    ensures
        r == (a@ == b@),
{
    let la = a.unicode_len();
    let lb = b.unicode_len();
    if la != lb {
        return false;
    }
    let mut i: usize = 0;
    while i < la
        invariant
            i <= la,
            la == a@.len(),
            lb == b@.len(),
            la == lb,
            forall|j: int| 0 <= j < i ==> a@[j] == b@[j],
        decreases la - i,
    {
        if a.get_char(i) != b.get_char(i) {
            return false;
        }
        i = i + 1;
    }
    proof {
        assert(a@ =~= b@);
    }
    true
}

/// Render a microdegree coordinate in its fixed-point form.
pub fn coord_to_string(v: i64) -> (r: String)
    ensures
        r@ == spec_coord(v as int),
{
    let mag: u64 = if v < 0 {
        if v == i64::MIN {
            9223372036854775808u64
        } else {
            (-v) as u64
        }
    } else {
        v as u64
    };
    let mut s = if v < 0 {
        proof {
            reveal_strlit("-");
        }
        let mut t = String::from_str("-");
        proof {
            assert(t@ =~= seq!['-']);
        }
        t
    } else {
        String::new()
    };
    s.append(u64_to_dec(mag / 1000000).as_str());
    proof {
        reveal_strlit(".");
        assert("."@ =~= seq!['.']);
    }
    s.append(".");
    s.append(u64_to_fixed_dec(mag % 1000000, 6).as_str());
    proof {
        assert(s@ =~= spec_coord(v as int));
    }
    s
}

/// Render an address in its textual form.
#[verifier::rlimit(100)]
pub fn ip_to_string(ip: &crate::model::IpAddress) -> (r: String)
    ensures
        r@ == spec_ip_text(*ip),
{
    proof {
        reveal_strlit(".");
        reveal_strlit(":");
        assert("."@ =~= seq!['.']);
        assert(":"@ =~= seq![':']);
    }
    match ip {
        crate::model::IpAddress::V4(a, b, c, d) => {
            let mut s = u64_to_dec(*a as u64);
            s.append(".");
            s.append(u64_to_dec(*b as u64).as_str());
            s.append(".");
            s.append(u64_to_dec(*c as u64).as_str());
            s.append(".");
            s.append(u64_to_dec(*d as u64).as_str());
            proof {
                assert(s@ =~= spec_ip_text(*ip));
            }
            s
        },
        crate::model::IpAddress::V6(s0, s1, s2, s3, s4, s5, s6, s7) => {
            let mut s = u64_to_hex(*s0 as u64);
            s.append(":");
            s.append(u64_to_hex(*s1 as u64).as_str());
            s.append(":");
            s.append(u64_to_hex(*s2 as u64).as_str());
            s.append(":");
            s.append(u64_to_hex(*s3 as u64).as_str());
            s.append(":");
            s.append(u64_to_hex(*s4 as u64).as_str());
            s.append(":");
            s.append(u64_to_hex(*s5 as u64).as_str());
            s.append(":");
            s.append(u64_to_hex(*s6 as u64).as_str());
            s.append(":");
            s.append(u64_to_hex(*s7 as u64).as_str());
            proof {
                assert(s@ =~= spec_ip_text(*ip));
            }
            s
        },
    }
}

} // verus!
