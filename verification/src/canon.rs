//! The canonical JSON document determines the record.
//!
//! Each fragment the renderer emits is shown to determine the value it
//! was rendered from, even when followed by arbitrary text; stitched
//! together, [`lemma_json_injective`] states that two records with the
//! same document are structurally equal.

use vstd::prelude::*;

use crate::json::conn_speed_json;
use crate::json::conn_type_json;
use crate::json::continent_json;
use crate::json::esc_char;
use crate::json::proxy_description_json;
use crate::json::proxy_type_json;
use crate::json::jstr;
use crate::json::spec_escape_json;
use crate::text::dec_digit;
use crate::text::hex_digit;
use crate::text::spec_fixed_dec;
use crate::text::spec_udec;
use crate::text::spec_uhex;

verus! {

broadcast use vstd::seq::group_seq_axioms;

use vstd::seq::lemma_seq_add_index2_alt;

/// A decimal digit character.
pub open spec fn is_dec_char(c: char) -> bool {
    48 <= c as u32 <= 57
}

/// A lowercase hexadecimal digit character.
pub open spec fn is_hex_char(c: char) -> bool {
    is_dec_char(c) || (97 <= c as u32 <= 102)
}

/// The digit value of a decimal character.
pub open spec fn dec_char_val(c: char) -> int {
    c as u32 - 48
}

/// The digit value of a lowercase hexadecimal character.
pub open spec fn hex_char_val(c: char) -> int {
    if is_dec_char(c) {
        dec_char_val(c)
    } else {
        c as u32 - 87
    }
}

/// The number a run of decimal digit characters denotes.
pub open spec fn dec_val(s: Seq<char>) -> int
    decreases s.len(),
{
    if s.len() == 0 {
        0
    } else {
        dec_val(s.drop_last()) * 10 + dec_char_val(s.last())
    }
}

/// The number a run of hexadecimal digit characters denotes.
pub open spec fn hex_val(s: Seq<char>) -> int
    decreases s.len(),
{
    if s.len() == 0 {
        0
    } else {
        hex_val(s.drop_last()) * 16 + hex_char_val(s.last())
    }
}

/// Characters with the same code point are the same character.
pub(crate) proof fn lemma_char_code_eq(c: char, d: char)
    requires
        c as u32 == d as u32,
    ensures
        c == d,
{
}

/// Equal text after an equal prefix is equal.
pub(crate) proof fn lemma_peel(p: Seq<char>, a: Seq<char>, b: Seq<char>)
    requires
        p + a == p + b,
    ensures
        a == b,
{
    assert((p + a).len() == p.len() + a.len());
    assert((p + b).len() == p.len() + b.len());
    assert(a.len() == b.len());
    assert forall|i: int| 0 <= i < a.len() implies a[i] == b[i] by {
        lemma_seq_add_index2_alt(p, a, i);
        lemma_seq_add_index2_alt(p, b, i);
        assert((p + a)[i + p.len()] == (p + b)[i + p.len()]);
    }
    assert(a =~= b);
}

/// The decimal numeral of `n` denotes `n`.
pub(crate) proof fn lemma_dec_val_udec(n: nat)
    ensures
        dec_val(spec_udec(n)) == n,
    decreases n,
{
    if n < 10 {
        assert(dec_val(Seq::<char>::empty()) == 0);
        assert(spec_udec(n) == seq![dec_digit(n)]);
        assert(seq![dec_digit(n)].drop_last() =~= Seq::<char>::empty());
        assert(seq![dec_digit(n)].last() == dec_digit(n));
        assert(dec_char_val(dec_digit(n)) == n);
    } else {
        lemma_dec_val_udec(n / 10);
        let head = spec_udec(n / 10);
        let tail = seq![dec_digit(n % 10)];
        assert(spec_udec(n) == head + tail);
        assert((head + tail).drop_last() =~= head);
        assert((head + tail).last() == dec_digit(n % 10));
        assert(dec_char_val(dec_digit(n % 10)) == n % 10);
        assert(dec_val(head + tail) == dec_val(head) * 10 + dec_char_val(dec_digit(n % 10)));
    }
}

/// Every character of a decimal numeral is a decimal digit.
pub(crate) proof fn lemma_udec_all_dec(n: nat)
    ensures
        forall|i: int| 0 <= i < spec_udec(n).len() ==> is_dec_char(#[trigger] spec_udec(n)[i]),
    decreases n,
{
    if n < 10 {
        assert(spec_udec(n) == seq![dec_digit(n)]);
        assert forall|i: int| 0 <= i < spec_udec(n).len() implies is_dec_char(
            #[trigger] spec_udec(n)[i],
        ) by {
            assert(spec_udec(n)[i] == dec_digit(n));
            assert(is_dec_char(dec_digit(n)));
        }
    } else {
        lemma_udec_all_dec(n / 10);
        let head = spec_udec(n / 10);
        assert(spec_udec(n) == head + seq![dec_digit(n % 10)]);
        assert forall|i: int| 0 <= i < spec_udec(n).len() implies is_dec_char(
            #[trigger] spec_udec(n)[i],
        ) by {
            if i < head.len() {
                assert(spec_udec(n)[i] == head[i]);
            } else {
                assert(spec_udec(n)[i] == dec_digit(n % 10));
                assert(is_dec_char(dec_digit(n % 10)));
            }
        }
    }
}

/// A decimal numeral, followed by anything that does not start with a
/// digit, determines its value and the text after it.
pub(crate) proof fn lemma_udec_det(n: nat, m: nat, a: Seq<char>, b: Seq<char>)
    requires
        spec_udec(n) + a == spec_udec(m) + b,
        a.len() == 0 || !is_dec_char(a[0]),
        b.len() == 0 || !is_dec_char(b[0]),
    ensures
        n == m,
        a == b,
{
    let ln = spec_udec(n).len() as int;
    let lm = spec_udec(m).len() as int;
    let s = spec_udec(n) + a;
    lemma_udec_all_dec(n);
    lemma_udec_all_dec(m);
    if ln < lm {
        assert(s.len() == lm + b.len());
        assert(a.len() > 0);
        assert(s[ln] == a[0]);
        assert(s[ln] == spec_udec(m)[ln]);
        assert(false);
    }
    if lm < ln {
        assert(s.len() == ln + a.len());
        assert(b.len() > 0);
        assert(s[lm] == b[0]);
        assert(s[lm] == spec_udec(n)[lm]);
        assert(false);
    }
    assert forall|i: int| 0 <= i < ln implies spec_udec(n)[i] == spec_udec(m)[i] by {
        assert(s[i] == spec_udec(n)[i]);
        assert(s[i] == spec_udec(m)[i]);
    }
    assert(spec_udec(n) =~= spec_udec(m));
    lemma_dec_val_udec(n);
    lemma_dec_val_udec(m);
    lemma_peel(spec_udec(n), a, b);
}

/// The hexadecimal numeral of `n` denotes `n`.
pub(crate) proof fn lemma_hex_val_uhex(n: nat)
    ensures
        hex_val(spec_uhex(n)) == n,
    decreases n,
{
    if n < 16 {
        assert(hex_val(Seq::<char>::empty()) == 0);
        assert(spec_uhex(n) == seq![hex_digit(n)]);
        assert(seq![hex_digit(n)].drop_last() =~= Seq::<char>::empty());
        assert(seq![hex_digit(n)].last() == hex_digit(n));
        assert(hex_char_val(hex_digit(n)) == n);
    } else {
        lemma_hex_val_uhex(n / 16);
        let head = spec_uhex(n / 16);
        let tail = seq![hex_digit(n % 16)];
        assert(spec_uhex(n) == head + tail);
        assert((head + tail).drop_last() =~= head);
        assert((head + tail).last() == hex_digit(n % 16));
        assert(hex_char_val(hex_digit(n % 16)) == n % 16);
        assert(hex_val(head + tail) == hex_val(head) * 16 + hex_char_val(hex_digit(n % 16)));
    }
}

/// Every character of a hexadecimal numeral is a hexadecimal digit.
pub(crate) proof fn lemma_uhex_all_hex(n: nat)
    ensures
        forall|i: int| 0 <= i < spec_uhex(n).len() ==> is_hex_char(#[trigger] spec_uhex(n)[i]),
    decreases n,
{
    if n < 16 {
        assert(spec_uhex(n) == seq![hex_digit(n)]);
        assert forall|i: int| 0 <= i < spec_uhex(n).len() implies is_hex_char(
            #[trigger] spec_uhex(n)[i],
        ) by {
            assert(spec_uhex(n)[i] == hex_digit(n));
            assert(is_hex_char(hex_digit(n)));
        }
    } else {
        lemma_uhex_all_hex(n / 16);
        let head = spec_uhex(n / 16);
        assert(spec_uhex(n) == head + seq![hex_digit(n % 16)]);
        assert forall|i: int| 0 <= i < spec_uhex(n).len() implies is_hex_char(
            #[trigger] spec_uhex(n)[i],
        ) by {
            if i < head.len() {
                assert(spec_uhex(n)[i] == head[i]);
            } else {
                assert(spec_uhex(n)[i] == hex_digit(n % 16));
                assert(is_hex_char(hex_digit(n % 16)));
            }
        }
    }
}

/// A hexadecimal numeral, followed by anything that does not start
/// with a hexadecimal digit, determines its value and the text after
/// it.
proof fn lemma_uhex_det(n: nat, m: nat, a: Seq<char>, b: Seq<char>)
    requires
        spec_uhex(n) + a == spec_uhex(m) + b,
        a.len() == 0 || !is_hex_char(a[0]),
        b.len() == 0 || !is_hex_char(b[0]),
    ensures
        n == m,
        a == b,
{
    let ln = spec_uhex(n).len() as int;
    let lm = spec_uhex(m).len() as int;
    let s = spec_uhex(n) + a;
    lemma_uhex_all_hex(n);
    lemma_uhex_all_hex(m);
    if ln < lm {
        assert(s.len() == lm + b.len());
        assert(a.len() > 0);
        assert(s[ln] == a[0]);
        assert(s[ln] == spec_uhex(m)[ln]);
        assert(false);
    }
    if lm < ln {
        assert(s.len() == ln + a.len());
        assert(b.len() > 0);
        assert(s[lm] == b[0]);
        assert(s[lm] == spec_uhex(n)[lm]);
        assert(false);
    }
    assert forall|i: int| 0 <= i < ln implies spec_uhex(n)[i] == spec_uhex(m)[i] by {
        assert(s[i] == spec_uhex(n)[i]);
        assert(s[i] == spec_uhex(m)[i]);
    }
    assert(spec_uhex(n) =~= spec_uhex(m));
    lemma_hex_val_uhex(n);
    lemma_hex_val_uhex(m);
    lemma_peel(spec_uhex(n), a, b);
}

/// A fixed-width numeral is as wide as asked.
pub(crate) proof fn lemma_fixed_len(n: nat, w: nat)
    ensures
        spec_fixed_dec(n, w).len() == w,
    decreases w,
{
    if w == 0 {
    } else {
        lemma_fixed_len(n / 10, (w - 1) as nat);
    }
}

/// Ten to the `w`.
pub open spec fn pow10(w: nat) -> nat
    decreases w,
{
    if w == 0 {
        1
    } else {
        10 * pow10((w - 1) as nat)
    }
}

/// A fixed-width numeral denotes its value reduced modulo the width's
/// power of ten.
pub(crate) proof fn lemma_dec_val_fixed(n: nat, w: nat)
    ensures
        dec_val(spec_fixed_dec(n, w)) == n % pow10(w),
    decreases w,
{
    if w == 0 {
        assert(n % 1 == 0);
    } else {
        lemma_dec_val_fixed(n / 10, (w - 1) as nat);
        let p = pow10((w - 1) as nat);
        assert(p > 0) by {
            lemma_pow10_pos((w - 1) as nat);
        }
        assert((spec_fixed_dec(n / 10, (w - 1) as nat) + seq![dec_digit(n % 10)]).drop_last()
            =~= spec_fixed_dec(n / 10, (w - 1) as nat));
        assert(dec_val(spec_fixed_dec(n, w)) == ((n / 10) % p) * 10 + n % 10);
        vstd::arithmetic::div_mod::lemma_breakdown(n as int, 10, p as int);
        assert(n % (10 * p) == 10 * ((n / 10) % p) + n % 10);
    }
}

/// Powers of ten are positive.
pub(crate) proof fn lemma_pow10_pos(w: nat)
    ensures
        pow10(w) >= 1,
    decreases w,
{
    if w == 0 {
    } else {
        lemma_pow10_pos((w - 1) as nat);
    }
}


/// A character that the JSON escape passes through unchanged.
pub open spec fn is_plain_char(c: char) -> bool {
    c != '"' && c != '\\' && c as u32 >= 32
}

/// Escaping distributes over concatenation.
proof fn lemma_esc_concat(a: Seq<char>, b: Seq<char>)
    ensures
        spec_escape_json(a + b) == spec_escape_json(a) + spec_escape_json(b),
    decreases b.len(),
{
    if b.len() == 0 {
        assert(a + b =~= a);
        assert(spec_escape_json(b) == Seq::<char>::empty());
        assert(spec_escape_json(a) + spec_escape_json(b) =~= spec_escape_json(a));
    } else {
        lemma_esc_concat(a, b.drop_last());
        assert((a + b).len() > 0);
        assert((a + b).drop_last() =~= a + b.drop_last());
        assert((a + b).last() == b.last());
        assert(spec_escape_json(a + b) == spec_escape_json(a + b.drop_last()) + esc_char(
            b.last(),
        ));
        assert(spec_escape_json(b) == spec_escape_json(b.drop_last()) + esc_char(b.last()));
        assert(spec_escape_json(a) + (spec_escape_json(b.drop_last()) + esc_char(b.last()))
            =~= (spec_escape_json(a) + spec_escape_json(b.drop_last())) + esc_char(b.last()));
    }
}

/// Escaping peels its first character.
pub(crate) proof fn lemma_esc_first(x: Seq<char>)
    requires
        x.len() > 0,
    ensures
        spec_escape_json(x) == esc_char(x[0]) + spec_escape_json(x.drop_first()),
{
    assert(x =~= seq![x[0]] + x.drop_first());
    lemma_esc_concat(seq![x[0]], x.drop_first());
    assert(seq![x[0]].drop_last() =~= Seq::<char>::empty());
    assert(seq![x[0]].last() == x[0]);
    assert(spec_escape_json(Seq::<char>::empty()) == Seq::<char>::empty());
    assert(spec_escape_json(seq![x[0]]) == spec_escape_json(Seq::<char>::empty()) + esc_char(
        x[0],
    ));
    assert(Seq::<char>::empty() + esc_char(x[0]) =~= esc_char(x[0]));
}

/// An escaped body terminated by its closing quote determines the
/// body and whatever follows the quote.
proof fn lemma_esc_det(x: Seq<char>, y: Seq<char>, t: Seq<char>, u: Seq<char>)
    requires
        spec_escape_json(x) + (seq!['"'] + t) == spec_escape_json(y) + (seq!['"'] + u),
    ensures
        x == y,
        t == u,
    decreases x.len(),
{
    let s = spec_escape_json(x) + (seq!['"'] + t);
    if x.len() == 0 && y.len() == 0 {
        assert(s =~= seq!['"'] + t);
        assert(spec_escape_json(y) + (seq!['"'] + u) =~= seq!['"'] + u);
        lemma_peel(seq!['"'], t, u);
        assert(x =~= y);
    } else if x.len() == 0 {
        assert(s =~= seq!['"'] + t);
        assert(s[0] == '"');
        lemma_esc_first(y);
        let d = y[0];
        assert(s =~= esc_char(d) + (spec_escape_json(y.drop_first()) + (seq!['"'] + u)));
        assert(esc_char(d).len() > 0);
        assert(s[0] == esc_char(d)[0]);
        assert(esc_char(d)[0] != '"');
        assert(false);
    } else if y.len() == 0 {
        assert(spec_escape_json(y) + (seq!['"'] + u) =~= seq!['"'] + u);
        assert(s[0] == '"');
        lemma_esc_first(x);
        let c = x[0];
        assert(s =~= esc_char(c) + (spec_escape_json(x.drop_first()) + (seq!['"'] + t)));
        assert(esc_char(c).len() > 0);
        assert(s[0] == esc_char(c)[0]);
        assert(esc_char(c)[0] != '"');
        assert(false);
    } else {
        let c = x[0];
        let d = y[0];
        lemma_esc_first(x);
        lemma_esc_first(y);
        let xrest = spec_escape_json(x.drop_first()) + (seq!['"'] + t);
        let yrest = spec_escape_json(y.drop_first()) + (seq!['"'] + u);
        assert(s =~= esc_char(c) + xrest);
        assert(s =~= esc_char(d) + yrest);
        if is_plain_char(c) && is_plain_char(d) {
            assert(esc_char(c) == seq![c]);
            assert(esc_char(d) == seq![d]);
            assert(s[0] == c);
            assert(s[0] == d);
        } else if is_plain_char(c) {
            assert(s[0] == c);
            assert(s[0] == esc_char(d)[0]);
            assert(esc_char(d)[0] == '\\');
            assert(false);
        } else if is_plain_char(d) {
            assert(s[0] == d);
            assert(s[0] == esc_char(c)[0]);
            assert(esc_char(c)[0] == '\\');
            assert(false);
        } else {
            assert(esc_char(c).len() >= 2);
            assert(esc_char(d).len() >= 2);
            assert(s[1] == esc_char(c)[1]);
            assert(s[1] == esc_char(d)[1]);
            if c == '"' {
                assert(esc_char(c)[1] == '"');
                assert(esc_char(d)[1] == '"');
                assert(d == '"');
            } else if c == '\\' {
                assert(esc_char(c)[1] == '\\');
                assert(esc_char(d)[1] == '\\');
                assert(d == '\\');
            } else {
                assert(esc_char(c)[1] == 'u');
                assert(esc_char(d)[1] == 'u');
                assert(d != '"' && d != '\\');
                assert(esc_char(c).len() == 6);
                assert(esc_char(d).len() == 6);
                let chi = ((c as u32) / 16) as nat;
                let clo = ((c as u32) % 16) as nat;
                let dhi = ((d as u32) / 16) as nat;
                let dlo = ((d as u32) % 16) as nat;
                assert(s[4] == hex_digit(chi));
                assert(s[4] == hex_digit(dhi));
                assert(s[5] == hex_digit(clo));
                assert(s[5] == hex_digit(dlo));
                assert(hex_char_val(hex_digit(chi)) == chi);
                assert(hex_char_val(hex_digit(dhi)) == dhi);
                assert(hex_char_val(hex_digit(clo)) == clo);
                assert(hex_char_val(hex_digit(dlo)) == dlo);
                assert(c as u32 == d as u32);
                lemma_char_code_eq(c, d);
            }
        }
        assert(c == d);
        lemma_peel(esc_char(c), xrest, yrest);
        lemma_esc_det(x.drop_first(), y.drop_first(), t, u);
        assert(x =~= seq![c] + x.drop_first());
        assert(y =~= seq![d] + y.drop_first());
    }
}

/// A string literal determines its contents and the text after it.
proof fn lemma_jstr_det(x: Seq<char>, y: Seq<char>, a: Seq<char>, b: Seq<char>)
    requires
        (jstr(x) + a) == (jstr(y) + b),
    ensures
        x == y,
        a == b,
{
    assert(jstr(x) + a =~= seq!['"'] + (spec_escape_json(x) + (seq!['"'] + a)));
    assert(jstr(y) + b =~= seq!['"'] + (spec_escape_json(y) + (seq!['"'] + b)));
    lemma_peel(
        seq!['"'],
        spec_escape_json(x) + (seq!['"'] + a),
        spec_escape_json(y) + (seq!['"'] + b),
    );
    lemma_esc_det(x, y, a, b);
}


/// Fixed-width fractions of equal width determine their value and the
/// text after them.
proof fn lemma_fixed6_det(f: nat, g: nat, a: Seq<char>, b: Seq<char>)
    requires
        (spec_fixed_dec(f, 6) + a) == (spec_fixed_dec(g, 6) + b),
        f < 1000000,
        g < 1000000,
    ensures
        f == g,
        a == b,
{
    lemma_fixed_len(f, 6);
    lemma_fixed_len(g, 6);
    let s = spec_fixed_dec(f, 6) + a;
    assert forall|i: int| 0 <= i < 6 implies spec_fixed_dec(f, 6)[i] == spec_fixed_dec(g, 6)[i] by {
        assert(s[i] == spec_fixed_dec(f, 6)[i]);
        assert(s[i] == spec_fixed_dec(g, 6)[i]);
    }
    assert(spec_fixed_dec(f, 6) =~= spec_fixed_dec(g, 6));
    lemma_dec_val_fixed(f, 6);
    lemma_dec_val_fixed(g, 6);
    assert(pow10(0) == 1);
    assert(pow10(1) == 10);
    assert(pow10(2) == 100);
    assert(pow10(3) == 1000);
    assert(pow10(4) == 10000);
    assert(pow10(5) == 100000);
    assert(pow10(6) == 1000000);
    assert(f % 1000000 == f);
    assert(g % 1000000 == g);
    lemma_peel(spec_fixed_dec(f, 6), a, b);
}

/// A coordinate numeral determines its microdegree value and the text
/// after it.
proof fn lemma_coord_det(v: int, w: int, a: Seq<char>, b: Seq<char>)
    requires
        (crate::text::spec_coord(v) + a) == (crate::text::spec_coord(w) + b),
    ensures
        v == w,
        a == b,
{
    let magv = if v < 0 { (-v) as nat } else { v as nat };
    let magw = if w < 0 { (-w) as nat } else { w as nat };
    let uv = magv / 1000000;
    let uw = magw / 1000000;
    let fv = magv % 1000000;
    let fw = magw % 1000000;
    let tv = seq!['.'] + (spec_fixed_dec(fv, 6) + a);
    let tw = seq!['.'] + (spec_fixed_dec(fw, 6) + b);
    let s = crate::text::spec_coord(v) + a;
    lemma_udec_all_dec(uv);
    lemma_udec_all_dec(uw);
    assert(spec_udec(uv).len() > 0);
    assert(spec_udec(uw).len() > 0);
    if v < 0 && w >= 0 {
        assert(s =~= seq!['-'] + (spec_udec(uv) + tv));
        assert(s =~= spec_udec(uw) + tw);
        assert(s[0] == '-');
        assert(s[0] == spec_udec(uw)[0]);
        assert(is_dec_char(spec_udec(uw)[0]));
        assert(false);
    }
    if w < 0 && v >= 0 {
        assert(s =~= seq!['-'] + (spec_udec(uw) + tw));
        assert(s =~= spec_udec(uv) + tv);
        assert(s[0] == '-');
        assert(s[0] == spec_udec(uv)[0]);
        assert(is_dec_char(spec_udec(uv)[0]));
        assert(false);
    }
    if v < 0 {
        assert(s =~= seq!['-'] + (spec_udec(uv) + tv));
        assert(s =~= seq!['-'] + (spec_udec(uw) + tw));
        lemma_peel(seq!['-'], spec_udec(uv) + tv, spec_udec(uw) + tw);
    } else {
        assert(s =~= spec_udec(uv) + tv);
        assert(s =~= spec_udec(uw) + tw);
    }
    assert((spec_udec(uv) + tv) == (spec_udec(uw) + tw));
    assert(tv[0] == '.');
    assert(tw[0] == '.');
    assert(!is_dec_char('.'));
    lemma_udec_det(uv, uw, tv, tw);
    lemma_peel(seq!['.'], spec_fixed_dec(fv, 6) + a, spec_fixed_dec(fw, 6) + b);
    lemma_fixed6_det(fv, fw, a, b);
    assert(magv == uv * 1000000 + fv);
    assert(magw == uw * 1000000 + fw);
    assert(magv == magw);
}

/// No character of the text is a dot.
pub open spec fn no_dot(s: Seq<char>) -> bool {
    forall|i: int| 0 <= i < s.len() ==> #[trigger] s[i] != '.'
}

/// Dotlessness is closed under concatenation.
proof fn lemma_no_dot_concat(x: Seq<char>, y: Seq<char>)
    requires
        no_dot(x),
        no_dot(y),
    ensures
        no_dot(x + y),
{
    assert forall|i: int| 0 <= i < (x + y).len() implies #[trigger] (x + y)[i] != '.' by {
        if i < x.len() {
            assert((x + y)[i] == x[i]);
        } else {
            assert((x + y)[i] == y[i - x.len()]);
        }
    }
}

/// Hexadecimal numerals contain no dot.
proof fn lemma_uhex_no_dot(n: nat)
    ensures
        no_dot(spec_uhex(n)),
{
    lemma_uhex_all_hex(n);
    assert forall|i: int| 0 <= i < spec_uhex(n).len() implies #[trigger] spec_uhex(n)[i] != '.' by {
        assert(is_hex_char(spec_uhex(n)[i]));
    }
}

/// The colon separator contains no dot.
proof fn lemma_colon_no_dot()
    ensures
        no_dot(seq![':']),
{
    assert forall|i: int| 0 <= i < seq![':'].len() implies #[trigger] seq![':'][i] != '.' by {
        assert(seq![':'][i] == ':');
    }
}

/// The textual form of an address determines the address.
proof fn lemma_ip_text_inj(p: crate::model::IpAddress, q: crate::model::IpAddress)
    requires
        crate::text::spec_ip_text(p) == crate::text::spec_ip_text(q),
    ensures
        p == q,
{
    let s = crate::text::spec_ip_text(p);
    match p {
        crate::model::IpAddress::V4(a1, b1, c1, d1) => {
            match q {
                crate::model::IpAddress::V4(a2, b2, c2, d2) => {
                    lemma_v4_inj(a1, b1, c1, d1, a2, b2, c2, d2);
                },
                crate::model::IpAddress::V6(g0, g1, g2, g3, g4, g5, g6, g7) => {
                    lemma_v4_has_dot(a1, b1, c1, d1);
                    lemma_v6_no_dot(g0, g1, g2, g3, g4, g5, g6, g7);
                    let k = choose|k: int| 0 <= k < s.len() && s[k] == '.';
                    assert(false);
                },
            }
        },
        crate::model::IpAddress::V6(g0, g1, g2, g3, g4, g5, g6, g7) => {
            match q {
                crate::model::IpAddress::V4(a2, b2, c2, d2) => {
                    lemma_v4_has_dot(a2, b2, c2, d2);
                    lemma_v6_no_dot(g0, g1, g2, g3, g4, g5, g6, g7);
                    let k = choose|k: int| 0 <= k < s.len() && s[k] == '.';
                    assert(false);
                },
                crate::model::IpAddress::V6(h0, h1, h2, h3, h4, h5, h6, h7) => {
                    lemma_v6_inj(g0, g1, g2, g3, g4, g5, g6, g7, h0, h1, h2, h3, h4, h5, h6, h7);
                },
            }
        },
    }
}

/// A dotted-quad rendering contains a dot.
proof fn lemma_v4_has_dot(a: u8, b: u8, c: u8, d: u8)
    ensures
        exists|k: int|
            0 <= k < crate::text::spec_ip_text(crate::model::IpAddress::V4(a, b, c, d)).len()
                && #[trigger] crate::text::spec_ip_text(crate::model::IpAddress::V4(a, b, c, d))[k]
                == '.',
{
    let s = crate::text::spec_ip_text(crate::model::IpAddress::V4(a, b, c, d));
    let k = spec_udec(a as nat).len() as int;
    assert(s[k] == '.');
}

/// A colon-group rendering contains no dot.
pub(crate) proof fn lemma_v6_no_dot(g0: u16, g1: u16, g2: u16, g3: u16, g4: u16, g5: u16, g6: u16, g7: u16)
    ensures
        no_dot(
            crate::text::spec_ip_text(
                crate::model::IpAddress::V6(g0, g1, g2, g3, g4, g5, g6, g7),
            ),
        ),
{
    lemma_uhex_no_dot(g0 as nat);
    lemma_uhex_no_dot(g1 as nat);
    lemma_uhex_no_dot(g2 as nat);
    lemma_uhex_no_dot(g3 as nat);
    lemma_uhex_no_dot(g4 as nat);
    lemma_uhex_no_dot(g5 as nat);
    lemma_uhex_no_dot(g6 as nat);
    lemma_uhex_no_dot(g7 as nat);
    lemma_colon_no_dot();
    let r7 = spec_uhex(g7 as nat);
    let c6 = seq![':'] + r7;
    lemma_no_dot_concat(seq![':'], r7);
    let r6 = spec_uhex(g6 as nat) + c6;
    lemma_no_dot_concat(spec_uhex(g6 as nat), c6);
    let c5 = seq![':'] + r6;
    lemma_no_dot_concat(seq![':'], r6);
    let r5 = spec_uhex(g5 as nat) + c5;
    lemma_no_dot_concat(spec_uhex(g5 as nat), c5);
    let c4 = seq![':'] + r5;
    lemma_no_dot_concat(seq![':'], r5);
    let r4 = spec_uhex(g4 as nat) + c4;
    lemma_no_dot_concat(spec_uhex(g4 as nat), c4);
    let c3 = seq![':'] + r4;
    lemma_no_dot_concat(seq![':'], r4);
    let r3 = spec_uhex(g3 as nat) + c3;
    lemma_no_dot_concat(spec_uhex(g3 as nat), c3);
    let c2 = seq![':'] + r3;
    lemma_no_dot_concat(seq![':'], r3);
    let r2 = spec_uhex(g2 as nat) + c2;
    lemma_no_dot_concat(spec_uhex(g2 as nat), c2);
    let c1 = seq![':'] + r2;
    lemma_no_dot_concat(seq![':'], r2);
    let r1 = spec_uhex(g1 as nat) + c1;
    lemma_no_dot_concat(spec_uhex(g1 as nat), c1);
    let c0 = seq![':'] + r1;
    lemma_no_dot_concat(seq![':'], r1);
    let r0 = spec_uhex(g0 as nat) + c0;
    lemma_no_dot_concat(spec_uhex(g0 as nat), c0);
    assert(crate::text::spec_ip_text(crate::model::IpAddress::V6(g0, g1, g2, g3, g4, g5, g6, g7)) == r0);
}

/// Dotted-quad renderings of equal text have equal octets.
proof fn lemma_v4_inj(a1: u8, b1: u8, c1: u8, d1: u8, a2: u8, b2: u8, c2: u8, d2: u8)
    requires
        crate::text::spec_ip_text(crate::model::IpAddress::V4(a1, b1, c1, d1))
            == crate::text::spec_ip_text(crate::model::IpAddress::V4(a2, b2, c2, d2)),
    ensures
        a1 == a2,
        b1 == b2,
        c1 == c2,
        d1 == d2,
{
    let t0g = seq!['.'] + (spec_udec(b1 as nat) + (seq!['.'] + (spec_udec(c1 as nat) + (seq!['.'] + (spec_udec(d1 as nat))))));
    let t0h = seq!['.'] + (spec_udec(b2 as nat) + (seq!['.'] + (spec_udec(c2 as nat) + (seq!['.'] + (spec_udec(d2 as nat))))));
    let t1g = seq!['.'] + (spec_udec(c1 as nat) + (seq!['.'] + (spec_udec(d1 as nat))));
    let t1h = seq!['.'] + (spec_udec(c2 as nat) + (seq!['.'] + (spec_udec(d2 as nat))));
    let t2g = seq!['.'] + (spec_udec(d1 as nat));
    let t2h = seq!['.'] + (spec_udec(d2 as nat));
    assert(t0g[0] == '.');
    assert(t0h[0] == '.');
    lemma_udec_det(a1 as nat, a2 as nat, t0g, t0h);
    lemma_peel(seq!['.'], spec_udec(b1 as nat) + t1g, spec_udec(b2 as nat) + t1h);
    assert(t1g[0] == '.');
    assert(t1h[0] == '.');
    lemma_udec_det(b1 as nat, b2 as nat, t1g, t1h);
    lemma_peel(seq!['.'], spec_udec(c1 as nat) + t2g, spec_udec(c2 as nat) + t2h);
    assert(t2g[0] == '.');
    assert(t2h[0] == '.');
    lemma_udec_det(c1 as nat, c2 as nat, t2g, t2h);
    lemma_peel(seq!['.'], spec_udec(d1 as nat), spec_udec(d2 as nat));
    lemma_dec_val_udec(d1 as nat);
    lemma_dec_val_udec(d2 as nat);
}

/// Colon-group renderings of equal text have equal groups.
proof fn lemma_v6_inj(
    g0: u16,
    g1: u16,
    g2: u16,
    g3: u16,
    g4: u16,
    g5: u16,
    g6: u16,
    g7: u16,
    h0: u16,
    h1: u16,
    h2: u16,
    h3: u16,
    h4: u16,
    h5: u16,
    h6: u16,
    h7: u16,
)
    requires
        crate::text::spec_ip_text(crate::model::IpAddress::V6(g0, g1, g2, g3, g4, g5, g6, g7))
            == crate::text::spec_ip_text(
            crate::model::IpAddress::V6(h0, h1, h2, h3, h4, h5, h6, h7),
        ),
    ensures
        g0 == h0,
        g1 == h1,
        g2 == h2,
        g3 == h3,
        g4 == h4,
        g5 == h5,
        g6 == h6,
        g7 == h7,
{
    let t0g = seq![':'] + (spec_uhex(g1 as nat) + (seq![':'] + (spec_uhex(g2 as nat) + (seq![':'] + (spec_uhex(g3 as nat) + (seq![':'] + (spec_uhex(g4 as nat) + (seq![':'] + (spec_uhex(g5 as nat) + (seq![':'] + (spec_uhex(g6 as nat) + (seq![':'] + (spec_uhex(g7 as nat))))))))))))));
    let t0h = seq![':'] + (spec_uhex(h1 as nat) + (seq![':'] + (spec_uhex(h2 as nat) + (seq![':'] + (spec_uhex(h3 as nat) + (seq![':'] + (spec_uhex(h4 as nat) + (seq![':'] + (spec_uhex(h5 as nat) + (seq![':'] + (spec_uhex(h6 as nat) + (seq![':'] + (spec_uhex(h7 as nat))))))))))))));
    let t1g = seq![':'] + (spec_uhex(g2 as nat) + (seq![':'] + (spec_uhex(g3 as nat) + (seq![':'] + (spec_uhex(g4 as nat) + (seq![':'] + (spec_uhex(g5 as nat) + (seq![':'] + (spec_uhex(g6 as nat) + (seq![':'] + (spec_uhex(g7 as nat))))))))))));
    let t1h = seq![':'] + (spec_uhex(h2 as nat) + (seq![':'] + (spec_uhex(h3 as nat) + (seq![':'] + (spec_uhex(h4 as nat) + (seq![':'] + (spec_uhex(h5 as nat) + (seq![':'] + (spec_uhex(h6 as nat) + (seq![':'] + (spec_uhex(h7 as nat))))))))))));
    let t2g = seq![':'] + (spec_uhex(g3 as nat) + (seq![':'] + (spec_uhex(g4 as nat) + (seq![':'] + (spec_uhex(g5 as nat) + (seq![':'] + (spec_uhex(g6 as nat) + (seq![':'] + (spec_uhex(g7 as nat))))))))));
    let t2h = seq![':'] + (spec_uhex(h3 as nat) + (seq![':'] + (spec_uhex(h4 as nat) + (seq![':'] + (spec_uhex(h5 as nat) + (seq![':'] + (spec_uhex(h6 as nat) + (seq![':'] + (spec_uhex(h7 as nat))))))))));
    let t3g = seq![':'] + (spec_uhex(g4 as nat) + (seq![':'] + (spec_uhex(g5 as nat) + (seq![':'] + (spec_uhex(g6 as nat) + (seq![':'] + (spec_uhex(g7 as nat))))))));
    let t3h = seq![':'] + (spec_uhex(h4 as nat) + (seq![':'] + (spec_uhex(h5 as nat) + (seq![':'] + (spec_uhex(h6 as nat) + (seq![':'] + (spec_uhex(h7 as nat))))))));
    let t4g = seq![':'] + (spec_uhex(g5 as nat) + (seq![':'] + (spec_uhex(g6 as nat) + (seq![':'] + (spec_uhex(g7 as nat))))));
    let t4h = seq![':'] + (spec_uhex(h5 as nat) + (seq![':'] + (spec_uhex(h6 as nat) + (seq![':'] + (spec_uhex(h7 as nat))))));
    let t5g = seq![':'] + (spec_uhex(g6 as nat) + (seq![':'] + (spec_uhex(g7 as nat))));
    let t5h = seq![':'] + (spec_uhex(h6 as nat) + (seq![':'] + (spec_uhex(h7 as nat))));
    let t6g = seq![':'] + (spec_uhex(g7 as nat));
    let t6h = seq![':'] + (spec_uhex(h7 as nat));
    assert(t0g[0] == ':');
    assert(t0h[0] == ':');
    lemma_uhex_det(g0 as nat, h0 as nat, t0g, t0h);
    lemma_peel(seq![':'], spec_uhex(g1 as nat) + t1g, spec_uhex(h1 as nat) + t1h);
    assert(t1g[0] == ':');
    assert(t1h[0] == ':');
    lemma_uhex_det(g1 as nat, h1 as nat, t1g, t1h);
    lemma_peel(seq![':'], spec_uhex(g2 as nat) + t2g, spec_uhex(h2 as nat) + t2h);
    assert(t2g[0] == ':');
    assert(t2h[0] == ':');
    lemma_uhex_det(g2 as nat, h2 as nat, t2g, t2h);
    lemma_peel(seq![':'], spec_uhex(g3 as nat) + t3g, spec_uhex(h3 as nat) + t3h);
    assert(t3g[0] == ':');
    assert(t3h[0] == ':');
    lemma_uhex_det(g3 as nat, h3 as nat, t3g, t3h);
    lemma_peel(seq![':'], spec_uhex(g4 as nat) + t4g, spec_uhex(h4 as nat) + t4h);
    assert(t4g[0] == ':');
    assert(t4h[0] == ':');
    lemma_uhex_det(g4 as nat, h4 as nat, t4g, t4h);
    lemma_peel(seq![':'], spec_uhex(g5 as nat) + t5g, spec_uhex(h5 as nat) + t5h);
    assert(t5g[0] == ':');
    assert(t5h[0] == ':');
    lemma_uhex_det(g5 as nat, h5 as nat, t5g, t5h);
    lemma_peel(seq![':'], spec_uhex(g6 as nat) + t6g, spec_uhex(h6 as nat) + t6h);
    assert(t6g[0] == ':');
    assert(t6h[0] == ':');
    lemma_uhex_det(g6 as nat, h6 as nat, t6g, t6h);
    lemma_peel(seq![':'], spec_uhex(g7 as nat), spec_uhex(h7 as nat));
    lemma_hex_val_uhex(g7 as nat);
    lemma_hex_val_uhex(h7 as nat);
}

/// A continent fragment determines its value and the text after it.
#[verifier::rlimit(100)]
pub proof fn lemma_continent_det(c: crate::model::ContinentView, d: crate::model::ContinentView, a: Seq<char>, b: Seq<char>)
    requires
        (continent_json(c) + a) == (continent_json(d) + b),
    ensures
        c == d,
        a == b,
{
    reveal_strlit("\"AF\"");
    reveal_strlit("\"AN\"");
    reveal_strlit("\"AS\"");
    reveal_strlit("\"EU\"");
    reveal_strlit("\"NA\"");
    reveal_strlit("\"OC\"");
    reveal_strlit("\"SA\"");
    reveal_strlit("{\"Other\":");
    match c {
        crate::model::ContinentView::Africa => {
            match d {
                crate::model::ContinentView::Africa => {
                    lemma_peel("\"AF\""@, a, b);
                },
                crate::model::ContinentView::Antarctica => {
                    assert((("\"AF\""@) + a)[2] == ("\"AF\""@)[2]);
                    assert((("\"AN\""@) + b)[2] == ("\"AN\""@)[2]);
                    assert(("\"AF\""@)[2] == 'F');
                    assert(("\"AN\""@)[2] == 'N');
                    assert(false);
                },
                crate::model::ContinentView::Asia => {
                    assert((("\"AF\""@) + a)[2] == ("\"AF\""@)[2]);
                    assert((("\"AS\""@) + b)[2] == ("\"AS\""@)[2]);
                    assert(("\"AF\""@)[2] == 'F');
                    assert(("\"AS\""@)[2] == 'S');
                    assert(false);
                },
                crate::model::ContinentView::Europe => {
                    assert((("\"AF\""@) + a)[1] == ("\"AF\""@)[1]);
                    assert((("\"EU\""@) + b)[1] == ("\"EU\""@)[1]);
                    assert(("\"AF\""@)[1] == 'A');
                    assert(("\"EU\""@)[1] == 'E');
                    assert(false);
                },
                crate::model::ContinentView::NorthAmerica => {
                    assert((("\"AF\""@) + a)[1] == ("\"AF\""@)[1]);
                    assert((("\"NA\""@) + b)[1] == ("\"NA\""@)[1]);
                    assert(("\"AF\""@)[1] == 'A');
                    assert(("\"NA\""@)[1] == 'N');
                    assert(false);
                },
                crate::model::ContinentView::Oceania => {
                    assert((("\"AF\""@) + a)[1] == ("\"AF\""@)[1]);
                    assert((("\"OC\""@) + b)[1] == ("\"OC\""@)[1]);
                    assert(("\"AF\""@)[1] == 'A');
                    assert(("\"OC\""@)[1] == 'O');
                    assert(false);
                },
                crate::model::ContinentView::SouthAmerica => {
                    assert((("\"AF\""@) + a)[1] == ("\"AF\""@)[1]);
                    assert((("\"SA\""@) + b)[1] == ("\"SA\""@)[1]);
                    assert(("\"AF\""@)[1] == 'A');
                    assert(("\"SA\""@)[1] == 'S');
                    assert(false);
                },
                crate::model::ContinentView::Other(r) => {
                    assert((("\"AF\""@) + a)[0] == ("\"AF\""@)[0]);
                    assert(("\"AF\""@)[0] == '\"');
                    assert((("{\"Other\":"@ + (jstr(r) + "}"@)) + b)[0] == ("{\"Other\":"@ + (jstr(r) + "}"@))[0]);
                    assert(("{\"Other\":"@ + (jstr(r) + "}"@))[0] == ("{\"Other\":"@)[0]);
                    assert(("{\"Other\":"@)[0] == '{');
                    assert(false);
                },
            }
        },
        crate::model::ContinentView::Antarctica => {
            match d {
                crate::model::ContinentView::Africa => {
                    assert((("\"AN\""@) + a)[2] == ("\"AN\""@)[2]);
                    assert((("\"AF\""@) + b)[2] == ("\"AF\""@)[2]);
                    assert(("\"AN\""@)[2] == 'N');
                    assert(("\"AF\""@)[2] == 'F');
                    assert(false);
                },
                crate::model::ContinentView::Antarctica => {
                    lemma_peel("\"AN\""@, a, b);
                },
                crate::model::ContinentView::Asia => {
                    assert((("\"AN\""@) + a)[2] == ("\"AN\""@)[2]);
                    assert((("\"AS\""@) + b)[2] == ("\"AS\""@)[2]);
                    assert(("\"AN\""@)[2] == 'N');
                    assert(("\"AS\""@)[2] == 'S');
                    assert(false);
                },
                crate::model::ContinentView::Europe => {
                    assert((("\"AN\""@) + a)[1] == ("\"AN\""@)[1]);
                    assert((("\"EU\""@) + b)[1] == ("\"EU\""@)[1]);
                    assert(("\"AN\""@)[1] == 'A');
                    assert(("\"EU\""@)[1] == 'E');
                    assert(false);
                },
                crate::model::ContinentView::NorthAmerica => {
                    assert((("\"AN\""@) + a)[1] == ("\"AN\""@)[1]);
                    assert((("\"NA\""@) + b)[1] == ("\"NA\""@)[1]);
                    assert(("\"AN\""@)[1] == 'A');
                    assert(("\"NA\""@)[1] == 'N');
                    assert(false);
                },
                crate::model::ContinentView::Oceania => {
                    assert((("\"AN\""@) + a)[1] == ("\"AN\""@)[1]);
                    assert((("\"OC\""@) + b)[1] == ("\"OC\""@)[1]);
                    assert(("\"AN\""@)[1] == 'A');
                    assert(("\"OC\""@)[1] == 'O');
                    assert(false);
                },
                crate::model::ContinentView::SouthAmerica => {
                    assert((("\"AN\""@) + a)[1] == ("\"AN\""@)[1]);
                    assert((("\"SA\""@) + b)[1] == ("\"SA\""@)[1]);
                    assert(("\"AN\""@)[1] == 'A');
                    assert(("\"SA\""@)[1] == 'S');
                    assert(false);
                },
                crate::model::ContinentView::Other(r) => {
                    assert((("\"AN\""@) + a)[0] == ("\"AN\""@)[0]);
                    assert(("\"AN\""@)[0] == '\"');
                    assert((("{\"Other\":"@ + (jstr(r) + "}"@)) + b)[0] == ("{\"Other\":"@ + (jstr(r) + "}"@))[0]);
                    assert(("{\"Other\":"@ + (jstr(r) + "}"@))[0] == ("{\"Other\":"@)[0]);
                    assert(("{\"Other\":"@)[0] == '{');
                    assert(false);
                },
            }
        },
        crate::model::ContinentView::Asia => {
            match d {
                crate::model::ContinentView::Africa => {
                    assert((("\"AS\""@) + a)[2] == ("\"AS\""@)[2]);
                    assert((("\"AF\""@) + b)[2] == ("\"AF\""@)[2]);
                    assert(("\"AS\""@)[2] == 'S');
                    assert(("\"AF\""@)[2] == 'F');
                    assert(false);
                },
                crate::model::ContinentView::Antarctica => {
                    assert((("\"AS\""@) + a)[2] == ("\"AS\""@)[2]);
                    assert((("\"AN\""@) + b)[2] == ("\"AN\""@)[2]);
                    assert(("\"AS\""@)[2] == 'S');
                    assert(("\"AN\""@)[2] == 'N');
                    assert(false);
                },
                crate::model::ContinentView::Asia => {
                    lemma_peel("\"AS\""@, a, b);
                },
                crate::model::ContinentView::Europe => {
                    assert((("\"AS\""@) + a)[1] == ("\"AS\""@)[1]);
                    assert((("\"EU\""@) + b)[1] == ("\"EU\""@)[1]);
                    assert(("\"AS\""@)[1] == 'A');
                    assert(("\"EU\""@)[1] == 'E');
                    assert(false);
                },
                crate::model::ContinentView::NorthAmerica => {
                    assert((("\"AS\""@) + a)[1] == ("\"AS\""@)[1]);
                    assert((("\"NA\""@) + b)[1] == ("\"NA\""@)[1]);
                    assert(("\"AS\""@)[1] == 'A');
                    assert(("\"NA\""@)[1] == 'N');
                    assert(false);
                },
                crate::model::ContinentView::Oceania => {
                    assert((("\"AS\""@) + a)[1] == ("\"AS\""@)[1]);
                    assert((("\"OC\""@) + b)[1] == ("\"OC\""@)[1]);
                    assert(("\"AS\""@)[1] == 'A');
                    assert(("\"OC\""@)[1] == 'O');
                    assert(false);
                },
                crate::model::ContinentView::SouthAmerica => {
                    assert((("\"AS\""@) + a)[1] == ("\"AS\""@)[1]);
                    assert((("\"SA\""@) + b)[1] == ("\"SA\""@)[1]);
                    assert(("\"AS\""@)[1] == 'A');
                    assert(("\"SA\""@)[1] == 'S');
                    assert(false);
                },
                crate::model::ContinentView::Other(r) => {
                    assert((("\"AS\""@) + a)[0] == ("\"AS\""@)[0]);
                    assert(("\"AS\""@)[0] == '\"');
                    assert((("{\"Other\":"@ + (jstr(r) + "}"@)) + b)[0] == ("{\"Other\":"@ + (jstr(r) + "}"@))[0]);
                    assert(("{\"Other\":"@ + (jstr(r) + "}"@))[0] == ("{\"Other\":"@)[0]);
                    assert(("{\"Other\":"@)[0] == '{');
                    assert(false);
                },
            }
        },
        crate::model::ContinentView::Europe => {
            match d {
                crate::model::ContinentView::Africa => {
                    assert((("\"EU\""@) + a)[1] == ("\"EU\""@)[1]);
                    assert((("\"AF\""@) + b)[1] == ("\"AF\""@)[1]);
                    assert(("\"EU\""@)[1] == 'E');
                    assert(("\"AF\""@)[1] == 'A');
                    assert(false);
                },
                crate::model::ContinentView::Antarctica => {
                    assert((("\"EU\""@) + a)[1] == ("\"EU\""@)[1]);
                    assert((("\"AN\""@) + b)[1] == ("\"AN\""@)[1]);
                    assert(("\"EU\""@)[1] == 'E');
                    assert(("\"AN\""@)[1] == 'A');
                    assert(false);
                },
                crate::model::ContinentView::Asia => {
                    assert((("\"EU\""@) + a)[1] == ("\"EU\""@)[1]);
                    assert((("\"AS\""@) + b)[1] == ("\"AS\""@)[1]);
                    assert(("\"EU\""@)[1] == 'E');
                    assert(("\"AS\""@)[1] == 'A');
                    assert(false);
                },
                crate::model::ContinentView::Europe => {
                    lemma_peel("\"EU\""@, a, b);
                },
                crate::model::ContinentView::NorthAmerica => {
                    assert((("\"EU\""@) + a)[1] == ("\"EU\""@)[1]);
                    assert((("\"NA\""@) + b)[1] == ("\"NA\""@)[1]);
                    assert(("\"EU\""@)[1] == 'E');
                    assert(("\"NA\""@)[1] == 'N');
                    assert(false);
                },
                crate::model::ContinentView::Oceania => {
                    assert((("\"EU\""@) + a)[1] == ("\"EU\""@)[1]);
                    assert((("\"OC\""@) + b)[1] == ("\"OC\""@)[1]);
                    assert(("\"EU\""@)[1] == 'E');
                    assert(("\"OC\""@)[1] == 'O');
                    assert(false);
                },
                crate::model::ContinentView::SouthAmerica => {
                    assert((("\"EU\""@) + a)[1] == ("\"EU\""@)[1]);
                    assert((("\"SA\""@) + b)[1] == ("\"SA\""@)[1]);
                    assert(("\"EU\""@)[1] == 'E');
                    assert(("\"SA\""@)[1] == 'S');
                    assert(false);
                },
                crate::model::ContinentView::Other(r) => {
                    assert((("\"EU\""@) + a)[0] == ("\"EU\""@)[0]);
                    assert(("\"EU\""@)[0] == '\"');
                    assert((("{\"Other\":"@ + (jstr(r) + "}"@)) + b)[0] == ("{\"Other\":"@ + (jstr(r) + "}"@))[0]);
                    assert(("{\"Other\":"@ + (jstr(r) + "}"@))[0] == ("{\"Other\":"@)[0]);
                    assert(("{\"Other\":"@)[0] == '{');
                    assert(false);
                },
            }
        },
        crate::model::ContinentView::NorthAmerica => {
            match d {
                crate::model::ContinentView::Africa => {
                    assert((("\"NA\""@) + a)[1] == ("\"NA\""@)[1]);
                    assert((("\"AF\""@) + b)[1] == ("\"AF\""@)[1]);
                    assert(("\"NA\""@)[1] == 'N');
                    assert(("\"AF\""@)[1] == 'A');
                    assert(false);
                },
                crate::model::ContinentView::Antarctica => {
                    assert((("\"NA\""@) + a)[1] == ("\"NA\""@)[1]);
                    assert((("\"AN\""@) + b)[1] == ("\"AN\""@)[1]);
                    assert(("\"NA\""@)[1] == 'N');
                    assert(("\"AN\""@)[1] == 'A');
                    assert(false);
                },
                crate::model::ContinentView::Asia => {
                    assert((("\"NA\""@) + a)[1] == ("\"NA\""@)[1]);
                    assert((("\"AS\""@) + b)[1] == ("\"AS\""@)[1]);
                    assert(("\"NA\""@)[1] == 'N');
                    assert(("\"AS\""@)[1] == 'A');
                    assert(false);
                },
                crate::model::ContinentView::Europe => {
                    assert((("\"NA\""@) + a)[1] == ("\"NA\""@)[1]);
                    assert((("\"EU\""@) + b)[1] == ("\"EU\""@)[1]);
                    assert(("\"NA\""@)[1] == 'N');
                    assert(("\"EU\""@)[1] == 'E');
                    assert(false);
                },
                crate::model::ContinentView::NorthAmerica => {
                    lemma_peel("\"NA\""@, a, b);
                },
                crate::model::ContinentView::Oceania => {
                    assert((("\"NA\""@) + a)[1] == ("\"NA\""@)[1]);
                    assert((("\"OC\""@) + b)[1] == ("\"OC\""@)[1]);
                    assert(("\"NA\""@)[1] == 'N');
                    assert(("\"OC\""@)[1] == 'O');
                    assert(false);
                },
                crate::model::ContinentView::SouthAmerica => {
                    assert((("\"NA\""@) + a)[1] == ("\"NA\""@)[1]);
                    assert((("\"SA\""@) + b)[1] == ("\"SA\""@)[1]);
                    assert(("\"NA\""@)[1] == 'N');
                    assert(("\"SA\""@)[1] == 'S');
                    assert(false);
                },
                crate::model::ContinentView::Other(r) => {
                    assert((("\"NA\""@) + a)[0] == ("\"NA\""@)[0]);
                    assert(("\"NA\""@)[0] == '\"');
                    assert((("{\"Other\":"@ + (jstr(r) + "}"@)) + b)[0] == ("{\"Other\":"@ + (jstr(r) + "}"@))[0]);
                    assert(("{\"Other\":"@ + (jstr(r) + "}"@))[0] == ("{\"Other\":"@)[0]);
                    assert(("{\"Other\":"@)[0] == '{');
                    assert(false);
                },
            }
        },
        crate::model::ContinentView::Oceania => {
            match d {
                crate::model::ContinentView::Africa => {
                    assert((("\"OC\""@) + a)[1] == ("\"OC\""@)[1]);
                    assert((("\"AF\""@) + b)[1] == ("\"AF\""@)[1]);
                    assert(("\"OC\""@)[1] == 'O');
                    assert(("\"AF\""@)[1] == 'A');
                    assert(false);
                },
                crate::model::ContinentView::Antarctica => {
                    assert((("\"OC\""@) + a)[1] == ("\"OC\""@)[1]);
                    assert((("\"AN\""@) + b)[1] == ("\"AN\""@)[1]);
                    assert(("\"OC\""@)[1] == 'O');
                    assert(("\"AN\""@)[1] == 'A');
                    assert(false);
                },
                crate::model::ContinentView::Asia => {
                    assert((("\"OC\""@) + a)[1] == ("\"OC\""@)[1]);
                    assert((("\"AS\""@) + b)[1] == ("\"AS\""@)[1]);
                    assert(("\"OC\""@)[1] == 'O');
                    assert(("\"AS\""@)[1] == 'A');
                    assert(false);
                },
                crate::model::ContinentView::Europe => {
                    assert((("\"OC\""@) + a)[1] == ("\"OC\""@)[1]);
                    assert((("\"EU\""@) + b)[1] == ("\"EU\""@)[1]);
                    assert(("\"OC\""@)[1] == 'O');
                    assert(("\"EU\""@)[1] == 'E');
                    assert(false);
                },
                crate::model::ContinentView::NorthAmerica => {
                    assert((("\"OC\""@) + a)[1] == ("\"OC\""@)[1]);
                    assert((("\"NA\""@) + b)[1] == ("\"NA\""@)[1]);
                    assert(("\"OC\""@)[1] == 'O');
                    assert(("\"NA\""@)[1] == 'N');
                    assert(false);
                },
                crate::model::ContinentView::Oceania => {
                    lemma_peel("\"OC\""@, a, b);
                },
                crate::model::ContinentView::SouthAmerica => {
                    assert((("\"OC\""@) + a)[1] == ("\"OC\""@)[1]);
                    assert((("\"SA\""@) + b)[1] == ("\"SA\""@)[1]);
                    assert(("\"OC\""@)[1] == 'O');
                    assert(("\"SA\""@)[1] == 'S');
                    assert(false);
                },
                crate::model::ContinentView::Other(r) => {
                    assert((("\"OC\""@) + a)[0] == ("\"OC\""@)[0]);
                    assert(("\"OC\""@)[0] == '\"');
                    assert((("{\"Other\":"@ + (jstr(r) + "}"@)) + b)[0] == ("{\"Other\":"@ + (jstr(r) + "}"@))[0]);
                    assert(("{\"Other\":"@ + (jstr(r) + "}"@))[0] == ("{\"Other\":"@)[0]);
                    assert(("{\"Other\":"@)[0] == '{');
                    assert(false);
                },
            }
        },
        crate::model::ContinentView::SouthAmerica => {
            match d {
                crate::model::ContinentView::Africa => {
                    assert((("\"SA\""@) + a)[1] == ("\"SA\""@)[1]);
                    assert((("\"AF\""@) + b)[1] == ("\"AF\""@)[1]);
                    assert(("\"SA\""@)[1] == 'S');
                    assert(("\"AF\""@)[1] == 'A');
                    assert(false);
                },
                crate::model::ContinentView::Antarctica => {
                    assert((("\"SA\""@) + a)[1] == ("\"SA\""@)[1]);
                    assert((("\"AN\""@) + b)[1] == ("\"AN\""@)[1]);
                    assert(("\"SA\""@)[1] == 'S');
                    assert(("\"AN\""@)[1] == 'A');
                    assert(false);
                },
                crate::model::ContinentView::Asia => {
                    assert((("\"SA\""@) + a)[1] == ("\"SA\""@)[1]);
                    assert((("\"AS\""@) + b)[1] == ("\"AS\""@)[1]);
                    assert(("\"SA\""@)[1] == 'S');
                    assert(("\"AS\""@)[1] == 'A');
                    assert(false);
                },
                crate::model::ContinentView::Europe => {
                    assert((("\"SA\""@) + a)[1] == ("\"SA\""@)[1]);
                    assert((("\"EU\""@) + b)[1] == ("\"EU\""@)[1]);
                    assert(("\"SA\""@)[1] == 'S');
                    assert(("\"EU\""@)[1] == 'E');
                    assert(false);
                },
                crate::model::ContinentView::NorthAmerica => {
                    assert((("\"SA\""@) + a)[1] == ("\"SA\""@)[1]);
                    assert((("\"NA\""@) + b)[1] == ("\"NA\""@)[1]);
                    assert(("\"SA\""@)[1] == 'S');
                    assert(("\"NA\""@)[1] == 'N');
                    assert(false);
                },
                crate::model::ContinentView::Oceania => {
                    assert((("\"SA\""@) + a)[1] == ("\"SA\""@)[1]);
                    assert((("\"OC\""@) + b)[1] == ("\"OC\""@)[1]);
                    assert(("\"SA\""@)[1] == 'S');
                    assert(("\"OC\""@)[1] == 'O');
                    assert(false);
                },
                crate::model::ContinentView::SouthAmerica => {
                    lemma_peel("\"SA\""@, a, b);
                },
                crate::model::ContinentView::Other(r) => {
                    assert((("\"SA\""@) + a)[0] == ("\"SA\""@)[0]);
                    assert(("\"SA\""@)[0] == '\"');
                    assert((("{\"Other\":"@ + (jstr(r) + "}"@)) + b)[0] == ("{\"Other\":"@ + (jstr(r) + "}"@))[0]);
                    assert(("{\"Other\":"@ + (jstr(r) + "}"@))[0] == ("{\"Other\":"@)[0]);
                    assert(("{\"Other\":"@)[0] == '{');
                    assert(false);
                },
            }
        },
        crate::model::ContinentView::Other(s) => {
            match d {
                crate::model::ContinentView::Africa => {
                    assert((("\"AF\""@) + b)[0] == ("\"AF\""@)[0]);
                    assert(("\"AF\""@)[0] == '\"');
                    assert((("{\"Other\":"@ + (jstr(s) + "}"@)) + a)[0] == ("{\"Other\":"@ + (jstr(s) + "}"@))[0]);
                    assert(("{\"Other\":"@ + (jstr(s) + "}"@))[0] == ("{\"Other\":"@)[0]);
                    assert(("{\"Other\":"@)[0] == '{');
                    assert(false);
                },
                crate::model::ContinentView::Antarctica => {
                    assert((("\"AN\""@) + b)[0] == ("\"AN\""@)[0]);
                    assert(("\"AN\""@)[0] == '\"');
                    assert((("{\"Other\":"@ + (jstr(s) + "}"@)) + a)[0] == ("{\"Other\":"@ + (jstr(s) + "}"@))[0]);
                    assert(("{\"Other\":"@ + (jstr(s) + "}"@))[0] == ("{\"Other\":"@)[0]);
                    assert(("{\"Other\":"@)[0] == '{');
                    assert(false);
                },
                crate::model::ContinentView::Asia => {
                    assert((("\"AS\""@) + b)[0] == ("\"AS\""@)[0]);
                    assert(("\"AS\""@)[0] == '\"');
                    assert((("{\"Other\":"@ + (jstr(s) + "}"@)) + a)[0] == ("{\"Other\":"@ + (jstr(s) + "}"@))[0]);
                    assert(("{\"Other\":"@ + (jstr(s) + "}"@))[0] == ("{\"Other\":"@)[0]);
                    assert(("{\"Other\":"@)[0] == '{');
                    assert(false);
                },
                crate::model::ContinentView::Europe => {
                    assert((("\"EU\""@) + b)[0] == ("\"EU\""@)[0]);
                    assert(("\"EU\""@)[0] == '\"');
                    assert((("{\"Other\":"@ + (jstr(s) + "}"@)) + a)[0] == ("{\"Other\":"@ + (jstr(s) + "}"@))[0]);
                    assert(("{\"Other\":"@ + (jstr(s) + "}"@))[0] == ("{\"Other\":"@)[0]);
                    assert(("{\"Other\":"@)[0] == '{');
                    assert(false);
                },
                crate::model::ContinentView::NorthAmerica => {
                    assert((("\"NA\""@) + b)[0] == ("\"NA\""@)[0]);
                    assert(("\"NA\""@)[0] == '\"');
                    assert((("{\"Other\":"@ + (jstr(s) + "}"@)) + a)[0] == ("{\"Other\":"@ + (jstr(s) + "}"@))[0]);
                    assert(("{\"Other\":"@ + (jstr(s) + "}"@))[0] == ("{\"Other\":"@)[0]);
                    assert(("{\"Other\":"@)[0] == '{');
                    assert(false);
                },
                crate::model::ContinentView::Oceania => {
                    assert((("\"OC\""@) + b)[0] == ("\"OC\""@)[0]);
                    assert(("\"OC\""@)[0] == '\"');
                    assert((("{\"Other\":"@ + (jstr(s) + "}"@)) + a)[0] == ("{\"Other\":"@ + (jstr(s) + "}"@))[0]);
                    assert(("{\"Other\":"@ + (jstr(s) + "}"@))[0] == ("{\"Other\":"@)[0]);
                    assert(("{\"Other\":"@)[0] == '{');
                    assert(false);
                },
                crate::model::ContinentView::SouthAmerica => {
                    assert((("\"SA\""@) + b)[0] == ("\"SA\""@)[0]);
                    assert(("\"SA\""@)[0] == '\"');
                    assert((("{\"Other\":"@ + (jstr(s) + "}"@)) + a)[0] == ("{\"Other\":"@ + (jstr(s) + "}"@))[0]);
                    assert(("{\"Other\":"@ + (jstr(s) + "}"@))[0] == ("{\"Other\":"@)[0]);
                    assert(("{\"Other\":"@)[0] == '{');
                    assert(false);
                },
                crate::model::ContinentView::Other(r) => {
                    assert(("{\"Other\":"@ + (jstr(s) + "}"@)) + a =~= "{\"Other\":"@ + (jstr(s) + ("}"@ + a)));
                    assert(("{\"Other\":"@ + (jstr(r) + "}"@)) + b =~= "{\"Other\":"@ + (jstr(r) + ("}"@ + b)));
                    lemma_peel("{\"Other\":"@, jstr(s) + ("}"@ + a), jstr(r) + ("}"@ + b));
                    lemma_jstr_det(s, r, "}"@ + a, "}"@ + b);
                    lemma_peel("}"@, a, b);
                },
            }
        },
    }
}

/// A conn speed fragment determines its value and the text after it.
#[verifier::rlimit(100)]
pub proof fn lemma_conn_speed_det(c: crate::model::ConnSpeedView, d: crate::model::ConnSpeedView, a: Seq<char>, b: Seq<char>)
    requires
        (conn_speed_json(c) + a) == (conn_speed_json(d) + b),
    ensures
        c == d,
        a == b,
{
    reveal_strlit("\"broadband\"");
    reveal_strlit("\"cable\"");
    reveal_strlit("\"dialup\"");
    reveal_strlit("\"mobile\"");
    reveal_strlit("\"oc12\"");
    reveal_strlit("\"oc3\"");
    reveal_strlit("\"satellite\"");
    reveal_strlit("\"t1\"");
    reveal_strlit("\"t3\"");
    reveal_strlit("\"ultrabb\"");
    reveal_strlit("\"wireless\"");
    reveal_strlit("\"xdsl\"");
    reveal_strlit("{\"other\":");
    match c {
        crate::model::ConnSpeedView::Broadband => {
            match d {
                crate::model::ConnSpeedView::Broadband => {
                    lemma_peel("\"broadband\""@, a, b);
                },
                crate::model::ConnSpeedView::Cable => {
                    assert((("\"broadband\""@) + a)[1] == ("\"broadband\""@)[1]);
                    assert((("\"cable\""@) + b)[1] == ("\"cable\""@)[1]);
                    assert(("\"broadband\""@)[1] == 'b');
                    assert(("\"cable\""@)[1] == 'c');
                    assert(false);
                },
                crate::model::ConnSpeedView::Dialup => {
                    assert((("\"broadband\""@) + a)[1] == ("\"broadband\""@)[1]);
                    assert((("\"dialup\""@) + b)[1] == ("\"dialup\""@)[1]);
                    assert(("\"broadband\""@)[1] == 'b');
                    assert(("\"dialup\""@)[1] == 'd');
                    assert(false);
                },
                crate::model::ConnSpeedView::Mobile => {
                    assert((("\"broadband\""@) + a)[1] == ("\"broadband\""@)[1]);
                    assert((("\"mobile\""@) + b)[1] == ("\"mobile\""@)[1]);
                    assert(("\"broadband\""@)[1] == 'b');
                    assert(("\"mobile\""@)[1] == 'm');
                    assert(false);
                },
                crate::model::ConnSpeedView::Oc12 => {
                    assert((("\"broadband\""@) + a)[1] == ("\"broadband\""@)[1]);
                    assert((("\"oc12\""@) + b)[1] == ("\"oc12\""@)[1]);
                    assert(("\"broadband\""@)[1] == 'b');
                    assert(("\"oc12\""@)[1] == 'o');
                    assert(false);
                },
                crate::model::ConnSpeedView::Oc3 => {
                    assert((("\"broadband\""@) + a)[1] == ("\"broadband\""@)[1]);
                    assert((("\"oc3\""@) + b)[1] == ("\"oc3\""@)[1]);
                    assert(("\"broadband\""@)[1] == 'b');
                    assert(("\"oc3\""@)[1] == 'o');
                    assert(false);
                },
                crate::model::ConnSpeedView::Satellite => {
                    assert((("\"broadband\""@) + a)[1] == ("\"broadband\""@)[1]);
                    assert((("\"satellite\""@) + b)[1] == ("\"satellite\""@)[1]);
                    assert(("\"broadband\""@)[1] == 'b');
                    assert(("\"satellite\""@)[1] == 's');
                    assert(false);
                },
                crate::model::ConnSpeedView::T1 => {
                    assert((("\"broadband\""@) + a)[1] == ("\"broadband\""@)[1]);
                    assert((("\"t1\""@) + b)[1] == ("\"t1\""@)[1]);
                    assert(("\"broadband\""@)[1] == 'b');
                    assert(("\"t1\""@)[1] == 't');
                    assert(false);
                },
                crate::model::ConnSpeedView::T3 => {
                    assert((("\"broadband\""@) + a)[1] == ("\"broadband\""@)[1]);
                    assert((("\"t3\""@) + b)[1] == ("\"t3\""@)[1]);
                    assert(("\"broadband\""@)[1] == 'b');
                    assert(("\"t3\""@)[1] == 't');
                    assert(false);
                },
                crate::model::ConnSpeedView::UltraBroadband => {
                    assert((("\"broadband\""@) + a)[1] == ("\"broadband\""@)[1]);
                    assert((("\"ultrabb\""@) + b)[1] == ("\"ultrabb\""@)[1]);
                    assert(("\"broadband\""@)[1] == 'b');
                    assert(("\"ultrabb\""@)[1] == 'u');
                    assert(false);
                },
                crate::model::ConnSpeedView::Wireless => {
                    assert((("\"broadband\""@) + a)[1] == ("\"broadband\""@)[1]);
                    assert((("\"wireless\""@) + b)[1] == ("\"wireless\""@)[1]);
                    assert(("\"broadband\""@)[1] == 'b');
                    assert(("\"wireless\""@)[1] == 'w');
                    assert(false);
                },
                crate::model::ConnSpeedView::Xdsl => {
                    assert((("\"broadband\""@) + a)[1] == ("\"broadband\""@)[1]);
                    assert((("\"xdsl\""@) + b)[1] == ("\"xdsl\""@)[1]);
                    assert(("\"broadband\""@)[1] == 'b');
                    assert(("\"xdsl\""@)[1] == 'x');
                    assert(false);
                },
                crate::model::ConnSpeedView::Other(r) => {
                    assert((("\"broadband\""@) + a)[0] == ("\"broadband\""@)[0]);
                    assert(("\"broadband\""@)[0] == '\"');
                    assert((("{\"other\":"@ + (jstr(r) + "}"@)) + b)[0] == ("{\"other\":"@ + (jstr(r) + "}"@))[0]);
                    assert(("{\"other\":"@ + (jstr(r) + "}"@))[0] == ("{\"other\":"@)[0]);
                    assert(("{\"other\":"@)[0] == '{');
                    assert(false);
                },
            }
        },
        crate::model::ConnSpeedView::Cable => {
            match d {
                crate::model::ConnSpeedView::Broadband => {
                    assert((("\"cable\""@) + a)[1] == ("\"cable\""@)[1]);
                    assert((("\"broadband\""@) + b)[1] == ("\"broadband\""@)[1]);
                    assert(("\"cable\""@)[1] == 'c');
                    assert(("\"broadband\""@)[1] == 'b');
                    assert(false);
                },
                crate::model::ConnSpeedView::Cable => {
                    lemma_peel("\"cable\""@, a, b);
                },
                crate::model::ConnSpeedView::Dialup => {
                    assert((("\"cable\""@) + a)[1] == ("\"cable\""@)[1]);
                    assert((("\"dialup\""@) + b)[1] == ("\"dialup\""@)[1]);
                    assert(("\"cable\""@)[1] == 'c');
                    assert(("\"dialup\""@)[1] == 'd');
                    assert(false);
                },
                crate::model::ConnSpeedView::Mobile => {
                    assert((("\"cable\""@) + a)[1] == ("\"cable\""@)[1]);
                    assert((("\"mobile\""@) + b)[1] == ("\"mobile\""@)[1]);
                    assert(("\"cable\""@)[1] == 'c');
                    assert(("\"mobile\""@)[1] == 'm');
                    assert(false);
                },
                crate::model::ConnSpeedView::Oc12 => {
                    assert((("\"cable\""@) + a)[1] == ("\"cable\""@)[1]);
                    assert((("\"oc12\""@) + b)[1] == ("\"oc12\""@)[1]);
                    assert(("\"cable\""@)[1] == 'c');
                    assert(("\"oc12\""@)[1] == 'o');
                    assert(false);
                },
                crate::model::ConnSpeedView::Oc3 => {
                    assert((("\"cable\""@) + a)[1] == ("\"cable\""@)[1]);
                    assert((("\"oc3\""@) + b)[1] == ("\"oc3\""@)[1]);
                    assert(("\"cable\""@)[1] == 'c');
                    assert(("\"oc3\""@)[1] == 'o');
                    assert(false);
                },
                crate::model::ConnSpeedView::Satellite => {
                    assert((("\"cable\""@) + a)[1] == ("\"cable\""@)[1]);
                    assert((("\"satellite\""@) + b)[1] == ("\"satellite\""@)[1]);
                    assert(("\"cable\""@)[1] == 'c');
                    assert(("\"satellite\""@)[1] == 's');
                    assert(false);
                },
                crate::model::ConnSpeedView::T1 => {
                    assert((("\"cable\""@) + a)[1] == ("\"cable\""@)[1]);
                    assert((("\"t1\""@) + b)[1] == ("\"t1\""@)[1]);
                    assert(("\"cable\""@)[1] == 'c');
                    assert(("\"t1\""@)[1] == 't');
                    assert(false);
                },
                crate::model::ConnSpeedView::T3 => {
                    assert((("\"cable\""@) + a)[1] == ("\"cable\""@)[1]);
                    assert((("\"t3\""@) + b)[1] == ("\"t3\""@)[1]);
                    assert(("\"cable\""@)[1] == 'c');
                    assert(("\"t3\""@)[1] == 't');
                    assert(false);
                },
                crate::model::ConnSpeedView::UltraBroadband => {
                    assert((("\"cable\""@) + a)[1] == ("\"cable\""@)[1]);
                    assert((("\"ultrabb\""@) + b)[1] == ("\"ultrabb\""@)[1]);
                    assert(("\"cable\""@)[1] == 'c');
                    assert(("\"ultrabb\""@)[1] == 'u');
                    assert(false);
                },
                crate::model::ConnSpeedView::Wireless => {
                    assert((("\"cable\""@) + a)[1] == ("\"cable\""@)[1]);
                    assert((("\"wireless\""@) + b)[1] == ("\"wireless\""@)[1]);
                    assert(("\"cable\""@)[1] == 'c');
                    assert(("\"wireless\""@)[1] == 'w');
                    assert(false);
                },
                crate::model::ConnSpeedView::Xdsl => {
                    assert((("\"cable\""@) + a)[1] == ("\"cable\""@)[1]);
                    assert((("\"xdsl\""@) + b)[1] == ("\"xdsl\""@)[1]);
                    assert(("\"cable\""@)[1] == 'c');
                    assert(("\"xdsl\""@)[1] == 'x');
                    assert(false);
                },
                crate::model::ConnSpeedView::Other(r) => {
                    assert((("\"cable\""@) + a)[0] == ("\"cable\""@)[0]);
                    assert(("\"cable\""@)[0] == '\"');
                    assert((("{\"other\":"@ + (jstr(r) + "}"@)) + b)[0] == ("{\"other\":"@ + (jstr(r) + "}"@))[0]);
                    assert(("{\"other\":"@ + (jstr(r) + "}"@))[0] == ("{\"other\":"@)[0]);
                    assert(("{\"other\":"@)[0] == '{');
                    assert(false);
                },
            }
        },
        crate::model::ConnSpeedView::Dialup => {
            match d {
                crate::model::ConnSpeedView::Broadband => {
                    assert((("\"dialup\""@) + a)[1] == ("\"dialup\""@)[1]);
                    assert((("\"broadband\""@) + b)[1] == ("\"broadband\""@)[1]);
                    assert(("\"dialup\""@)[1] == 'd');
                    assert(("\"broadband\""@)[1] == 'b');
                    assert(false);
                },
                crate::model::ConnSpeedView::Cable => {
                    assert((("\"dialup\""@) + a)[1] == ("\"dialup\""@)[1]);
                    assert((("\"cable\""@) + b)[1] == ("\"cable\""@)[1]);
                    assert(("\"dialup\""@)[1] == 'd');
                    assert(("\"cable\""@)[1] == 'c');
                    assert(false);
                },
                crate::model::ConnSpeedView::Dialup => {
                    lemma_peel("\"dialup\""@, a, b);
                },
                crate::model::ConnSpeedView::Mobile => {
                    assert((("\"dialup\""@) + a)[1] == ("\"dialup\""@)[1]);
                    assert((("\"mobile\""@) + b)[1] == ("\"mobile\""@)[1]);
                    assert(("\"dialup\""@)[1] == 'd');
                    assert(("\"mobile\""@)[1] == 'm');
                    assert(false);
                },
                crate::model::ConnSpeedView::Oc12 => {
                    assert((("\"dialup\""@) + a)[1] == ("\"dialup\""@)[1]);
                    assert((("\"oc12\""@) + b)[1] == ("\"oc12\""@)[1]);
                    assert(("\"dialup\""@)[1] == 'd');
                    assert(("\"oc12\""@)[1] == 'o');
                    assert(false);
                },
                crate::model::ConnSpeedView::Oc3 => {
                    assert((("\"dialup\""@) + a)[1] == ("\"dialup\""@)[1]);
                    assert((("\"oc3\""@) + b)[1] == ("\"oc3\""@)[1]);
                    assert(("\"dialup\""@)[1] == 'd');
                    assert(("\"oc3\""@)[1] == 'o');
                    assert(false);
                },
                crate::model::ConnSpeedView::Satellite => {
                    assert((("\"dialup\""@) + a)[1] == ("\"dialup\""@)[1]);
                    assert((("\"satellite\""@) + b)[1] == ("\"satellite\""@)[1]);
                    assert(("\"dialup\""@)[1] == 'd');
                    assert(("\"satellite\""@)[1] == 's');
                    assert(false);
                },
                crate::model::ConnSpeedView::T1 => {
                    assert((("\"dialup\""@) + a)[1] == ("\"dialup\""@)[1]);
                    assert((("\"t1\""@) + b)[1] == ("\"t1\""@)[1]);
                    assert(("\"dialup\""@)[1] == 'd');
                    assert(("\"t1\""@)[1] == 't');
                    assert(false);
                },
                crate::model::ConnSpeedView::T3 => {
                    assert((("\"dialup\""@) + a)[1] == ("\"dialup\""@)[1]);
                    assert((("\"t3\""@) + b)[1] == ("\"t3\""@)[1]);
                    assert(("\"dialup\""@)[1] == 'd');
                    assert(("\"t3\""@)[1] == 't');
                    assert(false);
                },
                crate::model::ConnSpeedView::UltraBroadband => {
                    assert((("\"dialup\""@) + a)[1] == ("\"dialup\""@)[1]);
                    assert((("\"ultrabb\""@) + b)[1] == ("\"ultrabb\""@)[1]);
                    assert(("\"dialup\""@)[1] == 'd');
                    assert(("\"ultrabb\""@)[1] == 'u');
                    assert(false);
                },
                crate::model::ConnSpeedView::Wireless => {
                    assert((("\"dialup\""@) + a)[1] == ("\"dialup\""@)[1]);
                    assert((("\"wireless\""@) + b)[1] == ("\"wireless\""@)[1]);
                    assert(("\"dialup\""@)[1] == 'd');
                    assert(("\"wireless\""@)[1] == 'w');
                    assert(false);
                },
                crate::model::ConnSpeedView::Xdsl => {
                    assert((("\"dialup\""@) + a)[1] == ("\"dialup\""@)[1]);
                    assert((("\"xdsl\""@) + b)[1] == ("\"xdsl\""@)[1]);
                    assert(("\"dialup\""@)[1] == 'd');
                    assert(("\"xdsl\""@)[1] == 'x');
                    assert(false);
                },
                crate::model::ConnSpeedView::Other(r) => {
                    assert((("\"dialup\""@) + a)[0] == ("\"dialup\""@)[0]);
                    assert(("\"dialup\""@)[0] == '\"');
                    assert((("{\"other\":"@ + (jstr(r) + "}"@)) + b)[0] == ("{\"other\":"@ + (jstr(r) + "}"@))[0]);
                    assert(("{\"other\":"@ + (jstr(r) + "}"@))[0] == ("{\"other\":"@)[0]);
                    assert(("{\"other\":"@)[0] == '{');
                    assert(false);
                },
            }
        },
        crate::model::ConnSpeedView::Mobile => {
            match d {
                crate::model::ConnSpeedView::Broadband => {
                    assert((("\"mobile\""@) + a)[1] == ("\"mobile\""@)[1]);
                    assert((("\"broadband\""@) + b)[1] == ("\"broadband\""@)[1]);
                    assert(("\"mobile\""@)[1] == 'm');
                    assert(("\"broadband\""@)[1] == 'b');
                    assert(false);
                },
                crate::model::ConnSpeedView::Cable => {
                    assert((("\"mobile\""@) + a)[1] == ("\"mobile\""@)[1]);
                    assert((("\"cable\""@) + b)[1] == ("\"cable\""@)[1]);
                    assert(("\"mobile\""@)[1] == 'm');
                    assert(("\"cable\""@)[1] == 'c');
                    assert(false);
                },
                crate::model::ConnSpeedView::Dialup => {
                    assert((("\"mobile\""@) + a)[1] == ("\"mobile\""@)[1]);
                    assert((("\"dialup\""@) + b)[1] == ("\"dialup\""@)[1]);
                    assert(("\"mobile\""@)[1] == 'm');
                    assert(("\"dialup\""@)[1] == 'd');
                    assert(false);
                },
                crate::model::ConnSpeedView::Mobile => {
                    lemma_peel("\"mobile\""@, a, b);
                },
                crate::model::ConnSpeedView::Oc12 => {
                    assert((("\"mobile\""@) + a)[1] == ("\"mobile\""@)[1]);
                    assert((("\"oc12\""@) + b)[1] == ("\"oc12\""@)[1]);
                    assert(("\"mobile\""@)[1] == 'm');
                    assert(("\"oc12\""@)[1] == 'o');
                    assert(false);
                },
                crate::model::ConnSpeedView::Oc3 => {
                    assert((("\"mobile\""@) + a)[1] == ("\"mobile\""@)[1]);
                    assert((("\"oc3\""@) + b)[1] == ("\"oc3\""@)[1]);
                    assert(("\"mobile\""@)[1] == 'm');
                    assert(("\"oc3\""@)[1] == 'o');
                    assert(false);
                },
                crate::model::ConnSpeedView::Satellite => {
                    assert((("\"mobile\""@) + a)[1] == ("\"mobile\""@)[1]);
                    assert((("\"satellite\""@) + b)[1] == ("\"satellite\""@)[1]);
                    assert(("\"mobile\""@)[1] == 'm');
                    assert(("\"satellite\""@)[1] == 's');
                    assert(false);
                },
                crate::model::ConnSpeedView::T1 => {
                    assert((("\"mobile\""@) + a)[1] == ("\"mobile\""@)[1]);
                    assert((("\"t1\""@) + b)[1] == ("\"t1\""@)[1]);
                    assert(("\"mobile\""@)[1] == 'm');
                    assert(("\"t1\""@)[1] == 't');
                    assert(false);
                },
                crate::model::ConnSpeedView::T3 => {
                    assert((("\"mobile\""@) + a)[1] == ("\"mobile\""@)[1]);
                    assert((("\"t3\""@) + b)[1] == ("\"t3\""@)[1]);
                    assert(("\"mobile\""@)[1] == 'm');
                    assert(("\"t3\""@)[1] == 't');
                    assert(false);
                },
                crate::model::ConnSpeedView::UltraBroadband => {
                    assert((("\"mobile\""@) + a)[1] == ("\"mobile\""@)[1]);
                    assert((("\"ultrabb\""@) + b)[1] == ("\"ultrabb\""@)[1]);
                    assert(("\"mobile\""@)[1] == 'm');
                    assert(("\"ultrabb\""@)[1] == 'u');
                    assert(false);
                },
                crate::model::ConnSpeedView::Wireless => {
                    assert((("\"mobile\""@) + a)[1] == ("\"mobile\""@)[1]);
                    assert((("\"wireless\""@) + b)[1] == ("\"wireless\""@)[1]);
                    assert(("\"mobile\""@)[1] == 'm');
                    assert(("\"wireless\""@)[1] == 'w');
                    assert(false);
                },
                crate::model::ConnSpeedView::Xdsl => {
                    assert((("\"mobile\""@) + a)[1] == ("\"mobile\""@)[1]);
                    assert((("\"xdsl\""@) + b)[1] == ("\"xdsl\""@)[1]);
                    assert(("\"mobile\""@)[1] == 'm');
                    assert(("\"xdsl\""@)[1] == 'x');
                    assert(false);
                },
                crate::model::ConnSpeedView::Other(r) => {
                    assert((("\"mobile\""@) + a)[0] == ("\"mobile\""@)[0]);
                    assert(("\"mobile\""@)[0] == '\"');
                    assert((("{\"other\":"@ + (jstr(r) + "}"@)) + b)[0] == ("{\"other\":"@ + (jstr(r) + "}"@))[0]);
                    assert(("{\"other\":"@ + (jstr(r) + "}"@))[0] == ("{\"other\":"@)[0]);
                    assert(("{\"other\":"@)[0] == '{');
                    assert(false);
                },
            }
        },
        crate::model::ConnSpeedView::Oc12 => {
            match d {
                crate::model::ConnSpeedView::Broadband => {
                    assert((("\"oc12\""@) + a)[1] == ("\"oc12\""@)[1]);
                    assert((("\"broadband\""@) + b)[1] == ("\"broadband\""@)[1]);
                    assert(("\"oc12\""@)[1] == 'o');
                    assert(("\"broadband\""@)[1] == 'b');
                    assert(false);
                },
                crate::model::ConnSpeedView::Cable => {
                    assert((("\"oc12\""@) + a)[1] == ("\"oc12\""@)[1]);
                    assert((("\"cable\""@) + b)[1] == ("\"cable\""@)[1]);
                    assert(("\"oc12\""@)[1] == 'o');
                    assert(("\"cable\""@)[1] == 'c');
                    assert(false);
                },
                crate::model::ConnSpeedView::Dialup => {
                    assert((("\"oc12\""@) + a)[1] == ("\"oc12\""@)[1]);
                    assert((("\"dialup\""@) + b)[1] == ("\"dialup\""@)[1]);
                    assert(("\"oc12\""@)[1] == 'o');
                    assert(("\"dialup\""@)[1] == 'd');
                    assert(false);
                },
                crate::model::ConnSpeedView::Mobile => {
                    assert((("\"oc12\""@) + a)[1] == ("\"oc12\""@)[1]);
                    assert((("\"mobile\""@) + b)[1] == ("\"mobile\""@)[1]);
                    assert(("\"oc12\""@)[1] == 'o');
                    assert(("\"mobile\""@)[1] == 'm');
                    assert(false);
                },
                crate::model::ConnSpeedView::Oc12 => {
                    lemma_peel("\"oc12\""@, a, b);
                },
                crate::model::ConnSpeedView::Oc3 => {
                    assert((("\"oc12\""@) + a)[3] == ("\"oc12\""@)[3]);
                    assert((("\"oc3\""@) + b)[3] == ("\"oc3\""@)[3]);
                    assert(("\"oc12\""@)[3] == '1');
                    assert(("\"oc3\""@)[3] == '3');
                    assert(false);
                },
                crate::model::ConnSpeedView::Satellite => {
                    assert((("\"oc12\""@) + a)[1] == ("\"oc12\""@)[1]);
                    assert((("\"satellite\""@) + b)[1] == ("\"satellite\""@)[1]);
                    assert(("\"oc12\""@)[1] == 'o');
                    assert(("\"satellite\""@)[1] == 's');
                    assert(false);
                },
                crate::model::ConnSpeedView::T1 => {
                    assert((("\"oc12\""@) + a)[1] == ("\"oc12\""@)[1]);
                    assert((("\"t1\""@) + b)[1] == ("\"t1\""@)[1]);
                    assert(("\"oc12\""@)[1] == 'o');
                    assert(("\"t1\""@)[1] == 't');
                    assert(false);
                },
                crate::model::ConnSpeedView::T3 => {
                    assert((("\"oc12\""@) + a)[1] == ("\"oc12\""@)[1]);
                    assert((("\"t3\""@) + b)[1] == ("\"t3\""@)[1]);
                    assert(("\"oc12\""@)[1] == 'o');
                    assert(("\"t3\""@)[1] == 't');
                    assert(false);
                },
                crate::model::ConnSpeedView::UltraBroadband => {
                    assert((("\"oc12\""@) + a)[1] == ("\"oc12\""@)[1]);
                    assert((("\"ultrabb\""@) + b)[1] == ("\"ultrabb\""@)[1]);
                    assert(("\"oc12\""@)[1] == 'o');
                    assert(("\"ultrabb\""@)[1] == 'u');
                    assert(false);
                },
                crate::model::ConnSpeedView::Wireless => {
                    assert((("\"oc12\""@) + a)[1] == ("\"oc12\""@)[1]);
                    assert((("\"wireless\""@) + b)[1] == ("\"wireless\""@)[1]);
                    assert(("\"oc12\""@)[1] == 'o');
                    assert(("\"wireless\""@)[1] == 'w');
                    assert(false);
                },
                crate::model::ConnSpeedView::Xdsl => {
                    assert((("\"oc12\""@) + a)[1] == ("\"oc12\""@)[1]);
                    assert((("\"xdsl\""@) + b)[1] == ("\"xdsl\""@)[1]);
                    assert(("\"oc12\""@)[1] == 'o');
                    assert(("\"xdsl\""@)[1] == 'x');
                    assert(false);
                },
                crate::model::ConnSpeedView::Other(r) => {
                    assert((("\"oc12\""@) + a)[0] == ("\"oc12\""@)[0]);
                    assert(("\"oc12\""@)[0] == '\"');
                    assert((("{\"other\":"@ + (jstr(r) + "}"@)) + b)[0] == ("{\"other\":"@ + (jstr(r) + "}"@))[0]);
                    assert(("{\"other\":"@ + (jstr(r) + "}"@))[0] == ("{\"other\":"@)[0]);
                    assert(("{\"other\":"@)[0] == '{');
                    assert(false);
                },
            }
        },
        crate::model::ConnSpeedView::Oc3 => {
            match d {
                crate::model::ConnSpeedView::Broadband => {
                    assert((("\"oc3\""@) + a)[1] == ("\"oc3\""@)[1]);
                    assert((("\"broadband\""@) + b)[1] == ("\"broadband\""@)[1]);
                    assert(("\"oc3\""@)[1] == 'o');
                    assert(("\"broadband\""@)[1] == 'b');
                    assert(false);
                },
                crate::model::ConnSpeedView::Cable => {
                    assert((("\"oc3\""@) + a)[1] == ("\"oc3\""@)[1]);
                    assert((("\"cable\""@) + b)[1] == ("\"cable\""@)[1]);
                    assert(("\"oc3\""@)[1] == 'o');
                    assert(("\"cable\""@)[1] == 'c');
                    assert(false);
                },
                crate::model::ConnSpeedView::Dialup => {
                    assert((("\"oc3\""@) + a)[1] == ("\"oc3\""@)[1]);
                    assert((("\"dialup\""@) + b)[1] == ("\"dialup\""@)[1]);
                    assert(("\"oc3\""@)[1] == 'o');
                    assert(("\"dialup\""@)[1] == 'd');
                    assert(false);
                },
                crate::model::ConnSpeedView::Mobile => {
                    assert((("\"oc3\""@) + a)[1] == ("\"oc3\""@)[1]);
                    assert((("\"mobile\""@) + b)[1] == ("\"mobile\""@)[1]);
                    assert(("\"oc3\""@)[1] == 'o');
                    assert(("\"mobile\""@)[1] == 'm');
                    assert(false);
                },
                crate::model::ConnSpeedView::Oc12 => {
                    assert((("\"oc3\""@) + a)[3] == ("\"oc3\""@)[3]);
                    assert((("\"oc12\""@) + b)[3] == ("\"oc12\""@)[3]);
                    assert(("\"oc3\""@)[3] == '3');
                    assert(("\"oc12\""@)[3] == '1');
                    assert(false);
                },
                crate::model::ConnSpeedView::Oc3 => {
                    lemma_peel("\"oc3\""@, a, b);
                },
                crate::model::ConnSpeedView::Satellite => {
                    assert((("\"oc3\""@) + a)[1] == ("\"oc3\""@)[1]);
                    assert((("\"satellite\""@) + b)[1] == ("\"satellite\""@)[1]);
                    assert(("\"oc3\""@)[1] == 'o');
                    assert(("\"satellite\""@)[1] == 's');
                    assert(false);
                },
                crate::model::ConnSpeedView::T1 => {
                    assert((("\"oc3\""@) + a)[1] == ("\"oc3\""@)[1]);
                    assert((("\"t1\""@) + b)[1] == ("\"t1\""@)[1]);
                    assert(("\"oc3\""@)[1] == 'o');
                    assert(("\"t1\""@)[1] == 't');
                    assert(false);
                },
                crate::model::ConnSpeedView::T3 => {
                    assert((("\"oc3\""@) + a)[1] == ("\"oc3\""@)[1]);
                    assert((("\"t3\""@) + b)[1] == ("\"t3\""@)[1]);
                    assert(("\"oc3\""@)[1] == 'o');
                    assert(("\"t3\""@)[1] == 't');
                    assert(false);
                },
                crate::model::ConnSpeedView::UltraBroadband => {
                    assert((("\"oc3\""@) + a)[1] == ("\"oc3\""@)[1]);
                    assert((("\"ultrabb\""@) + b)[1] == ("\"ultrabb\""@)[1]);
                    assert(("\"oc3\""@)[1] == 'o');
                    assert(("\"ultrabb\""@)[1] == 'u');
                    assert(false);
                },
                crate::model::ConnSpeedView::Wireless => {
                    assert((("\"oc3\""@) + a)[1] == ("\"oc3\""@)[1]);
                    assert((("\"wireless\""@) + b)[1] == ("\"wireless\""@)[1]);
                    assert(("\"oc3\""@)[1] == 'o');
                    assert(("\"wireless\""@)[1] == 'w');
                    assert(false);
                },
                crate::model::ConnSpeedView::Xdsl => {
                    assert((("\"oc3\""@) + a)[1] == ("\"oc3\""@)[1]);
                    assert((("\"xdsl\""@) + b)[1] == ("\"xdsl\""@)[1]);
                    assert(("\"oc3\""@)[1] == 'o');
                    assert(("\"xdsl\""@)[1] == 'x');
                    assert(false);
                },
                crate::model::ConnSpeedView::Other(r) => {
                    assert((("\"oc3\""@) + a)[0] == ("\"oc3\""@)[0]);
                    assert(("\"oc3\""@)[0] == '\"');
                    assert((("{\"other\":"@ + (jstr(r) + "}"@)) + b)[0] == ("{\"other\":"@ + (jstr(r) + "}"@))[0]);
                    assert(("{\"other\":"@ + (jstr(r) + "}"@))[0] == ("{\"other\":"@)[0]);
                    assert(("{\"other\":"@)[0] == '{');
                    assert(false);
                },
            }
        },
        crate::model::ConnSpeedView::Satellite => {
            match d {
                crate::model::ConnSpeedView::Broadband => {
                    assert((("\"satellite\""@) + a)[1] == ("\"satellite\""@)[1]);
                    assert((("\"broadband\""@) + b)[1] == ("\"broadband\""@)[1]);
                    assert(("\"satellite\""@)[1] == 's');
                    assert(("\"broadband\""@)[1] == 'b');
                    assert(false);
                },
                crate::model::ConnSpeedView::Cable => {
                    assert((("\"satellite\""@) + a)[1] == ("\"satellite\""@)[1]);
                    assert((("\"cable\""@) + b)[1] == ("\"cable\""@)[1]);
                    assert(("\"satellite\""@)[1] == 's');
                    assert(("\"cable\""@)[1] == 'c');
                    assert(false);
                },
                crate::model::ConnSpeedView::Dialup => {
                    assert((("\"satellite\""@) + a)[1] == ("\"satellite\""@)[1]);
                    assert((("\"dialup\""@) + b)[1] == ("\"dialup\""@)[1]);
                    assert(("\"satellite\""@)[1] == 's');
                    assert(("\"dialup\""@)[1] == 'd');
                    assert(false);
                },
                crate::model::ConnSpeedView::Mobile => {
                    assert((("\"satellite\""@) + a)[1] == ("\"satellite\""@)[1]);
                    assert((("\"mobile\""@) + b)[1] == ("\"mobile\""@)[1]);
                    assert(("\"satellite\""@)[1] == 's');
                    assert(("\"mobile\""@)[1] == 'm');
                    assert(false);
                },
                crate::model::ConnSpeedView::Oc12 => {
                    assert((("\"satellite\""@) + a)[1] == ("\"satellite\""@)[1]);
                    assert((("\"oc12\""@) + b)[1] == ("\"oc12\""@)[1]);
                    assert(("\"satellite\""@)[1] == 's');
                    assert(("\"oc12\""@)[1] == 'o');
                    assert(false);
                },
                crate::model::ConnSpeedView::Oc3 => {
                    assert((("\"satellite\""@) + a)[1] == ("\"satellite\""@)[1]);
                    assert((("\"oc3\""@) + b)[1] == ("\"oc3\""@)[1]);
                    assert(("\"satellite\""@)[1] == 's');
                    assert(("\"oc3\""@)[1] == 'o');
                    assert(false);
                },
                crate::model::ConnSpeedView::Satellite => {
                    lemma_peel("\"satellite\""@, a, b);
                },
                crate::model::ConnSpeedView::T1 => {
                    assert((("\"satellite\""@) + a)[1] == ("\"satellite\""@)[1]);
                    assert((("\"t1\""@) + b)[1] == ("\"t1\""@)[1]);
                    assert(("\"satellite\""@)[1] == 's');
                    assert(("\"t1\""@)[1] == 't');
                    assert(false);
                },
                crate::model::ConnSpeedView::T3 => {
                    assert((("\"satellite\""@) + a)[1] == ("\"satellite\""@)[1]);
                    assert((("\"t3\""@) + b)[1] == ("\"t3\""@)[1]);
                    assert(("\"satellite\""@)[1] == 's');
                    assert(("\"t3\""@)[1] == 't');
                    assert(false);
                },
                crate::model::ConnSpeedView::UltraBroadband => {
                    assert((("\"satellite\""@) + a)[1] == ("\"satellite\""@)[1]);
                    assert((("\"ultrabb\""@) + b)[1] == ("\"ultrabb\""@)[1]);
                    assert(("\"satellite\""@)[1] == 's');
                    assert(("\"ultrabb\""@)[1] == 'u');
                    assert(false);
                },
                crate::model::ConnSpeedView::Wireless => {
                    assert((("\"satellite\""@) + a)[1] == ("\"satellite\""@)[1]);
                    assert((("\"wireless\""@) + b)[1] == ("\"wireless\""@)[1]);
                    assert(("\"satellite\""@)[1] == 's');
                    assert(("\"wireless\""@)[1] == 'w');
                    assert(false);
                },
                crate::model::ConnSpeedView::Xdsl => {
                    assert((("\"satellite\""@) + a)[1] == ("\"satellite\""@)[1]);
                    assert((("\"xdsl\""@) + b)[1] == ("\"xdsl\""@)[1]);
                    assert(("\"satellite\""@)[1] == 's');
                    assert(("\"xdsl\""@)[1] == 'x');
                    assert(false);
                },
                crate::model::ConnSpeedView::Other(r) => {
                    assert((("\"satellite\""@) + a)[0] == ("\"satellite\""@)[0]);
                    assert(("\"satellite\""@)[0] == '\"');
                    assert((("{\"other\":"@ + (jstr(r) + "}"@)) + b)[0] == ("{\"other\":"@ + (jstr(r) + "}"@))[0]);
                    assert(("{\"other\":"@ + (jstr(r) + "}"@))[0] == ("{\"other\":"@)[0]);
                    assert(("{\"other\":"@)[0] == '{');
                    assert(false);
                },
            }
        },
        crate::model::ConnSpeedView::T1 => {
            match d {
                crate::model::ConnSpeedView::Broadband => {
                    assert((("\"t1\""@) + a)[1] == ("\"t1\""@)[1]);
                    assert((("\"broadband\""@) + b)[1] == ("\"broadband\""@)[1]);
                    assert(("\"t1\""@)[1] == 't');
                    assert(("\"broadband\""@)[1] == 'b');
                    assert(false);
                },
                crate::model::ConnSpeedView::Cable => {
                    assert((("\"t1\""@) + a)[1] == ("\"t1\""@)[1]);
                    assert((("\"cable\""@) + b)[1] == ("\"cable\""@)[1]);
                    assert(("\"t1\""@)[1] == 't');
                    assert(("\"cable\""@)[1] == 'c');
                    assert(false);
                },
                crate::model::ConnSpeedView::Dialup => {
                    assert((("\"t1\""@) + a)[1] == ("\"t1\""@)[1]);
                    assert((("\"dialup\""@) + b)[1] == ("\"dialup\""@)[1]);
                    assert(("\"t1\""@)[1] == 't');
                    assert(("\"dialup\""@)[1] == 'd');
                    assert(false);
                },
                crate::model::ConnSpeedView::Mobile => {
                    assert((("\"t1\""@) + a)[1] == ("\"t1\""@)[1]);
                    assert((("\"mobile\""@) + b)[1] == ("\"mobile\""@)[1]);
                    assert(("\"t1\""@)[1] == 't');
                    assert(("\"mobile\""@)[1] == 'm');
                    assert(false);
                },
                crate::model::ConnSpeedView::Oc12 => {
                    assert((("\"t1\""@) + a)[1] == ("\"t1\""@)[1]);
                    assert((("\"oc12\""@) + b)[1] == ("\"oc12\""@)[1]);
                    assert(("\"t1\""@)[1] == 't');
                    assert(("\"oc12\""@)[1] == 'o');
                    assert(false);
                },
                crate::model::ConnSpeedView::Oc3 => {
                    assert((("\"t1\""@) + a)[1] == ("\"t1\""@)[1]);
                    assert((("\"oc3\""@) + b)[1] == ("\"oc3\""@)[1]);
                    assert(("\"t1\""@)[1] == 't');
                    assert(("\"oc3\""@)[1] == 'o');
                    assert(false);
                },
                crate::model::ConnSpeedView::Satellite => {
                    assert((("\"t1\""@) + a)[1] == ("\"t1\""@)[1]);
                    assert((("\"satellite\""@) + b)[1] == ("\"satellite\""@)[1]);
                    assert(("\"t1\""@)[1] == 't');
                    assert(("\"satellite\""@)[1] == 's');
                    assert(false);
                },
                crate::model::ConnSpeedView::T1 => {
                    lemma_peel("\"t1\""@, a, b);
                },
                crate::model::ConnSpeedView::T3 => {
                    assert((("\"t1\""@) + a)[2] == ("\"t1\""@)[2]);
                    assert((("\"t3\""@) + b)[2] == ("\"t3\""@)[2]);
                    assert(("\"t1\""@)[2] == '1');
                    assert(("\"t3\""@)[2] == '3');
                    assert(false);
                },
                crate::model::ConnSpeedView::UltraBroadband => {
                    assert((("\"t1\""@) + a)[1] == ("\"t1\""@)[1]);
                    assert((("\"ultrabb\""@) + b)[1] == ("\"ultrabb\""@)[1]);
                    assert(("\"t1\""@)[1] == 't');
                    assert(("\"ultrabb\""@)[1] == 'u');
                    assert(false);
                },
                crate::model::ConnSpeedView::Wireless => {
                    assert((("\"t1\""@) + a)[1] == ("\"t1\""@)[1]);
                    assert((("\"wireless\""@) + b)[1] == ("\"wireless\""@)[1]);
                    assert(("\"t1\""@)[1] == 't');
                    assert(("\"wireless\""@)[1] == 'w');
                    assert(false);
                },
                crate::model::ConnSpeedView::Xdsl => {
                    assert((("\"t1\""@) + a)[1] == ("\"t1\""@)[1]);
                    assert((("\"xdsl\""@) + b)[1] == ("\"xdsl\""@)[1]);
                    assert(("\"t1\""@)[1] == 't');
                    assert(("\"xdsl\""@)[1] == 'x');
                    assert(false);
                },
                crate::model::ConnSpeedView::Other(r) => {
                    assert((("\"t1\""@) + a)[0] == ("\"t1\""@)[0]);
                    assert(("\"t1\""@)[0] == '\"');
                    assert((("{\"other\":"@ + (jstr(r) + "}"@)) + b)[0] == ("{\"other\":"@ + (jstr(r) + "}"@))[0]);
                    assert(("{\"other\":"@ + (jstr(r) + "}"@))[0] == ("{\"other\":"@)[0]);
                    assert(("{\"other\":"@)[0] == '{');
                    assert(false);
                },
            }
        },
        crate::model::ConnSpeedView::T3 => {
            match d {
                crate::model::ConnSpeedView::Broadband => {
                    assert((("\"t3\""@) + a)[1] == ("\"t3\""@)[1]);
                    assert((("\"broadband\""@) + b)[1] == ("\"broadband\""@)[1]);
                    assert(("\"t3\""@)[1] == 't');
                    assert(("\"broadband\""@)[1] == 'b');
                    assert(false);
                },
                crate::model::ConnSpeedView::Cable => {
                    assert((("\"t3\""@) + a)[1] == ("\"t3\""@)[1]);
                    assert((("\"cable\""@) + b)[1] == ("\"cable\""@)[1]);
                    assert(("\"t3\""@)[1] == 't');
                    assert(("\"cable\""@)[1] == 'c');
                    assert(false);
                },
                crate::model::ConnSpeedView::Dialup => {
                    assert((("\"t3\""@) + a)[1] == ("\"t3\""@)[1]);
                    assert((("\"dialup\""@) + b)[1] == ("\"dialup\""@)[1]);
                    assert(("\"t3\""@)[1] == 't');
                    assert(("\"dialup\""@)[1] == 'd');
                    assert(false);
                },
                crate::model::ConnSpeedView::Mobile => {
                    assert((("\"t3\""@) + a)[1] == ("\"t3\""@)[1]);
                    assert((("\"mobile\""@) + b)[1] == ("\"mobile\""@)[1]);
                    assert(("\"t3\""@)[1] == 't');
                    assert(("\"mobile\""@)[1] == 'm');
                    assert(false);
                },
                crate::model::ConnSpeedView::Oc12 => {
                    assert((("\"t3\""@) + a)[1] == ("\"t3\""@)[1]);
                    assert((("\"oc12\""@) + b)[1] == ("\"oc12\""@)[1]);
                    assert(("\"t3\""@)[1] == 't');
                    assert(("\"oc12\""@)[1] == 'o');
                    assert(false);
                },
                crate::model::ConnSpeedView::Oc3 => {
                    assert((("\"t3\""@) + a)[1] == ("\"t3\""@)[1]);
                    assert((("\"oc3\""@) + b)[1] == ("\"oc3\""@)[1]);
                    assert(("\"t3\""@)[1] == 't');
                    assert(("\"oc3\""@)[1] == 'o');
                    assert(false);
                },
                crate::model::ConnSpeedView::Satellite => {
                    assert((("\"t3\""@) + a)[1] == ("\"t3\""@)[1]);
                    assert((("\"satellite\""@) + b)[1] == ("\"satellite\""@)[1]);
                    assert(("\"t3\""@)[1] == 't');
                    assert(("\"satellite\""@)[1] == 's');
                    assert(false);
                },
                crate::model::ConnSpeedView::T1 => {
                    assert((("\"t3\""@) + a)[2] == ("\"t3\""@)[2]);
                    assert((("\"t1\""@) + b)[2] == ("\"t1\""@)[2]);
                    assert(("\"t3\""@)[2] == '3');
                    assert(("\"t1\""@)[2] == '1');
                    assert(false);
                },
                crate::model::ConnSpeedView::T3 => {
                    lemma_peel("\"t3\""@, a, b);
                },
                crate::model::ConnSpeedView::UltraBroadband => {
                    assert((("\"t3\""@) + a)[1] == ("\"t3\""@)[1]);
                    assert((("\"ultrabb\""@) + b)[1] == ("\"ultrabb\""@)[1]);
                    assert(("\"t3\""@)[1] == 't');
                    assert(("\"ultrabb\""@)[1] == 'u');
                    assert(false);
                },
                crate::model::ConnSpeedView::Wireless => {
                    assert((("\"t3\""@) + a)[1] == ("\"t3\""@)[1]);
                    assert((("\"wireless\""@) + b)[1] == ("\"wireless\""@)[1]);
                    assert(("\"t3\""@)[1] == 't');
                    assert(("\"wireless\""@)[1] == 'w');
                    assert(false);
                },
                crate::model::ConnSpeedView::Xdsl => {
                    assert((("\"t3\""@) + a)[1] == ("\"t3\""@)[1]);
                    assert((("\"xdsl\""@) + b)[1] == ("\"xdsl\""@)[1]);
                    assert(("\"t3\""@)[1] == 't');
                    assert(("\"xdsl\""@)[1] == 'x');
                    assert(false);
                },
                crate::model::ConnSpeedView::Other(r) => {
                    assert((("\"t3\""@) + a)[0] == ("\"t3\""@)[0]);
                    assert(("\"t3\""@)[0] == '\"');
                    assert((("{\"other\":"@ + (jstr(r) + "}"@)) + b)[0] == ("{\"other\":"@ + (jstr(r) + "}"@))[0]);
                    assert(("{\"other\":"@ + (jstr(r) + "}"@))[0] == ("{\"other\":"@)[0]);
                    assert(("{\"other\":"@)[0] == '{');
                    assert(false);
                },
            }
        },
        crate::model::ConnSpeedView::UltraBroadband => {
            match d {
                crate::model::ConnSpeedView::Broadband => {
                    assert((("\"ultrabb\""@) + a)[1] == ("\"ultrabb\""@)[1]);
                    assert((("\"broadband\""@) + b)[1] == ("\"broadband\""@)[1]);
                    assert(("\"ultrabb\""@)[1] == 'u');
                    assert(("\"broadband\""@)[1] == 'b');
                    assert(false);
                },
                crate::model::ConnSpeedView::Cable => {
                    assert((("\"ultrabb\""@) + a)[1] == ("\"ultrabb\""@)[1]);
                    assert((("\"cable\""@) + b)[1] == ("\"cable\""@)[1]);
                    assert(("\"ultrabb\""@)[1] == 'u');
                    assert(("\"cable\""@)[1] == 'c');
                    assert(false);
                },
                crate::model::ConnSpeedView::Dialup => {
                    assert((("\"ultrabb\""@) + a)[1] == ("\"ultrabb\""@)[1]);
                    assert((("\"dialup\""@) + b)[1] == ("\"dialup\""@)[1]);
                    assert(("\"ultrabb\""@)[1] == 'u');
                    assert(("\"dialup\""@)[1] == 'd');
                    assert(false);
                },
                crate::model::ConnSpeedView::Mobile => {
                    assert((("\"ultrabb\""@) + a)[1] == ("\"ultrabb\""@)[1]);
                    assert((("\"mobile\""@) + b)[1] == ("\"mobile\""@)[1]);
                    assert(("\"ultrabb\""@)[1] == 'u');
                    assert(("\"mobile\""@)[1] == 'm');
                    assert(false);
                },
                crate::model::ConnSpeedView::Oc12 => {
                    assert((("\"ultrabb\""@) + a)[1] == ("\"ultrabb\""@)[1]);
                    assert((("\"oc12\""@) + b)[1] == ("\"oc12\""@)[1]);
                    assert(("\"ultrabb\""@)[1] == 'u');
                    assert(("\"oc12\""@)[1] == 'o');
                    assert(false);
                },
                crate::model::ConnSpeedView::Oc3 => {
                    assert((("\"ultrabb\""@) + a)[1] == ("\"ultrabb\""@)[1]);
                    assert((("\"oc3\""@) + b)[1] == ("\"oc3\""@)[1]);
                    assert(("\"ultrabb\""@)[1] == 'u');
                    assert(("\"oc3\""@)[1] == 'o');
                    assert(false);
                },
                crate::model::ConnSpeedView::Satellite => {
                    assert((("\"ultrabb\""@) + a)[1] == ("\"ultrabb\""@)[1]);
                    assert((("\"satellite\""@) + b)[1] == ("\"satellite\""@)[1]);
                    assert(("\"ultrabb\""@)[1] == 'u');
                    assert(("\"satellite\""@)[1] == 's');
                    assert(false);
                },
                crate::model::ConnSpeedView::T1 => {
                    assert((("\"ultrabb\""@) + a)[1] == ("\"ultrabb\""@)[1]);
                    assert((("\"t1\""@) + b)[1] == ("\"t1\""@)[1]);
                    assert(("\"ultrabb\""@)[1] == 'u');
                    assert(("\"t1\""@)[1] == 't');
                    assert(false);
                },
                crate::model::ConnSpeedView::T3 => {
                    assert((("\"ultrabb\""@) + a)[1] == ("\"ultrabb\""@)[1]);
                    assert((("\"t3\""@) + b)[1] == ("\"t3\""@)[1]);
                    assert(("\"ultrabb\""@)[1] == 'u');
                    assert(("\"t3\""@)[1] == 't');
                    assert(false);
                },
                crate::model::ConnSpeedView::UltraBroadband => {
                    lemma_peel("\"ultrabb\""@, a, b);
                },
                crate::model::ConnSpeedView::Wireless => {
                    assert((("\"ultrabb\""@) + a)[1] == ("\"ultrabb\""@)[1]);
                    assert((("\"wireless\""@) + b)[1] == ("\"wireless\""@)[1]);
                    assert(("\"ultrabb\""@)[1] == 'u');
                    assert(("\"wireless\""@)[1] == 'w');
                    assert(false);
                },
                crate::model::ConnSpeedView::Xdsl => {
                    assert((("\"ultrabb\""@) + a)[1] == ("\"ultrabb\""@)[1]);
                    assert((("\"xdsl\""@) + b)[1] == ("\"xdsl\""@)[1]);
                    assert(("\"ultrabb\""@)[1] == 'u');
                    assert(("\"xdsl\""@)[1] == 'x');
                    assert(false);
                },
                crate::model::ConnSpeedView::Other(r) => {
                    assert((("\"ultrabb\""@) + a)[0] == ("\"ultrabb\""@)[0]);
                    assert(("\"ultrabb\""@)[0] == '\"');
                    assert((("{\"other\":"@ + (jstr(r) + "}"@)) + b)[0] == ("{\"other\":"@ + (jstr(r) + "}"@))[0]);
                    assert(("{\"other\":"@ + (jstr(r) + "}"@))[0] == ("{\"other\":"@)[0]);
                    assert(("{\"other\":"@)[0] == '{');
                    assert(false);
                },
            }
        },
        crate::model::ConnSpeedView::Wireless => {
            match d {
                crate::model::ConnSpeedView::Broadband => {
                    assert((("\"wireless\""@) + a)[1] == ("\"wireless\""@)[1]);
                    assert((("\"broadband\""@) + b)[1] == ("\"broadband\""@)[1]);
                    assert(("\"wireless\""@)[1] == 'w');
                    assert(("\"broadband\""@)[1] == 'b');
                    assert(false);
                },
                crate::model::ConnSpeedView::Cable => {
                    assert((("\"wireless\""@) + a)[1] == ("\"wireless\""@)[1]);
                    assert((("\"cable\""@) + b)[1] == ("\"cable\""@)[1]);
                    assert(("\"wireless\""@)[1] == 'w');
                    assert(("\"cable\""@)[1] == 'c');
                    assert(false);
                },
                crate::model::ConnSpeedView::Dialup => {
                    assert((("\"wireless\""@) + a)[1] == ("\"wireless\""@)[1]);
                    assert((("\"dialup\""@) + b)[1] == ("\"dialup\""@)[1]);
                    assert(("\"wireless\""@)[1] == 'w');
                    assert(("\"dialup\""@)[1] == 'd');
                    assert(false);
                },
                crate::model::ConnSpeedView::Mobile => {
                    assert((("\"wireless\""@) + a)[1] == ("\"wireless\""@)[1]);
                    assert((("\"mobile\""@) + b)[1] == ("\"mobile\""@)[1]);
                    assert(("\"wireless\""@)[1] == 'w');
                    assert(("\"mobile\""@)[1] == 'm');
                    assert(false);
                },
                crate::model::ConnSpeedView::Oc12 => {
                    assert((("\"wireless\""@) + a)[1] == ("\"wireless\""@)[1]);
                    assert((("\"oc12\""@) + b)[1] == ("\"oc12\""@)[1]);
                    assert(("\"wireless\""@)[1] == 'w');
                    assert(("\"oc12\""@)[1] == 'o');
                    assert(false);
                },
                crate::model::ConnSpeedView::Oc3 => {
                    assert((("\"wireless\""@) + a)[1] == ("\"wireless\""@)[1]);
                    assert((("\"oc3\""@) + b)[1] == ("\"oc3\""@)[1]);
                    assert(("\"wireless\""@)[1] == 'w');
                    assert(("\"oc3\""@)[1] == 'o');
                    assert(false);
                },
                crate::model::ConnSpeedView::Satellite => {
                    assert((("\"wireless\""@) + a)[1] == ("\"wireless\""@)[1]);
                    assert((("\"satellite\""@) + b)[1] == ("\"satellite\""@)[1]);
                    assert(("\"wireless\""@)[1] == 'w');
                    assert(("\"satellite\""@)[1] == 's');
                    assert(false);
                },
                crate::model::ConnSpeedView::T1 => {
                    assert((("\"wireless\""@) + a)[1] == ("\"wireless\""@)[1]);
                    assert((("\"t1\""@) + b)[1] == ("\"t1\""@)[1]);
                    assert(("\"wireless\""@)[1] == 'w');
                    assert(("\"t1\""@)[1] == 't');
                    assert(false);
                },
                crate::model::ConnSpeedView::T3 => {
                    assert((("\"wireless\""@) + a)[1] == ("\"wireless\""@)[1]);
                    assert((("\"t3\""@) + b)[1] == ("\"t3\""@)[1]);
                    assert(("\"wireless\""@)[1] == 'w');
                    assert(("\"t3\""@)[1] == 't');
                    assert(false);
                },
                crate::model::ConnSpeedView::UltraBroadband => {
                    assert((("\"wireless\""@) + a)[1] == ("\"wireless\""@)[1]);
                    assert((("\"ultrabb\""@) + b)[1] == ("\"ultrabb\""@)[1]);
                    assert(("\"wireless\""@)[1] == 'w');
                    assert(("\"ultrabb\""@)[1] == 'u');
                    assert(false);
                },
                crate::model::ConnSpeedView::Wireless => {
                    lemma_peel("\"wireless\""@, a, b);
                },
                crate::model::ConnSpeedView::Xdsl => {
                    assert((("\"wireless\""@) + a)[1] == ("\"wireless\""@)[1]);
                    assert((("\"xdsl\""@) + b)[1] == ("\"xdsl\""@)[1]);
                    assert(("\"wireless\""@)[1] == 'w');
                    assert(("\"xdsl\""@)[1] == 'x');
                    assert(false);
                },
                crate::model::ConnSpeedView::Other(r) => {
                    assert((("\"wireless\""@) + a)[0] == ("\"wireless\""@)[0]);
                    assert(("\"wireless\""@)[0] == '\"');
                    assert((("{\"other\":"@ + (jstr(r) + "}"@)) + b)[0] == ("{\"other\":"@ + (jstr(r) + "}"@))[0]);
                    assert(("{\"other\":"@ + (jstr(r) + "}"@))[0] == ("{\"other\":"@)[0]);
                    assert(("{\"other\":"@)[0] == '{');
                    assert(false);
                },
            }
        },
        crate::model::ConnSpeedView::Xdsl => {
            match d {
                crate::model::ConnSpeedView::Broadband => {
                    assert((("\"xdsl\""@) + a)[1] == ("\"xdsl\""@)[1]);
                    assert((("\"broadband\""@) + b)[1] == ("\"broadband\""@)[1]);
                    assert(("\"xdsl\""@)[1] == 'x');
                    assert(("\"broadband\""@)[1] == 'b');
                    assert(false);
                },
                crate::model::ConnSpeedView::Cable => {
                    assert((("\"xdsl\""@) + a)[1] == ("\"xdsl\""@)[1]);
                    assert((("\"cable\""@) + b)[1] == ("\"cable\""@)[1]);
                    assert(("\"xdsl\""@)[1] == 'x');
                    assert(("\"cable\""@)[1] == 'c');
                    assert(false);
                },
                crate::model::ConnSpeedView::Dialup => {
                    assert((("\"xdsl\""@) + a)[1] == ("\"xdsl\""@)[1]);
                    assert((("\"dialup\""@) + b)[1] == ("\"dialup\""@)[1]);
                    assert(("\"xdsl\""@)[1] == 'x');
                    assert(("\"dialup\""@)[1] == 'd');
                    assert(false);
                },
                crate::model::ConnSpeedView::Mobile => {
                    assert((("\"xdsl\""@) + a)[1] == ("\"xdsl\""@)[1]);
                    assert((("\"mobile\""@) + b)[1] == ("\"mobile\""@)[1]);
                    assert(("\"xdsl\""@)[1] == 'x');
                    assert(("\"mobile\""@)[1] == 'm');
                    assert(false);
                },
                crate::model::ConnSpeedView::Oc12 => {
                    assert((("\"xdsl\""@) + a)[1] == ("\"xdsl\""@)[1]);
                    assert((("\"oc12\""@) + b)[1] == ("\"oc12\""@)[1]);
                    assert(("\"xdsl\""@)[1] == 'x');
                    assert(("\"oc12\""@)[1] == 'o');
                    assert(false);
                },
                crate::model::ConnSpeedView::Oc3 => {
                    assert((("\"xdsl\""@) + a)[1] == ("\"xdsl\""@)[1]);
                    assert((("\"oc3\""@) + b)[1] == ("\"oc3\""@)[1]);
                    assert(("\"xdsl\""@)[1] == 'x');
                    assert(("\"oc3\""@)[1] == 'o');
                    assert(false);
                },
                crate::model::ConnSpeedView::Satellite => {
                    assert((("\"xdsl\""@) + a)[1] == ("\"xdsl\""@)[1]);
                    assert((("\"satellite\""@) + b)[1] == ("\"satellite\""@)[1]);
                    assert(("\"xdsl\""@)[1] == 'x');
                    assert(("\"satellite\""@)[1] == 's');
                    assert(false);
                },
                crate::model::ConnSpeedView::T1 => {
                    assert((("\"xdsl\""@) + a)[1] == ("\"xdsl\""@)[1]);
                    assert((("\"t1\""@) + b)[1] == ("\"t1\""@)[1]);
                    assert(("\"xdsl\""@)[1] == 'x');
                    assert(("\"t1\""@)[1] == 't');
                    assert(false);
                },
                crate::model::ConnSpeedView::T3 => {
                    assert((("\"xdsl\""@) + a)[1] == ("\"xdsl\""@)[1]);
                    assert((("\"t3\""@) + b)[1] == ("\"t3\""@)[1]);
                    assert(("\"xdsl\""@)[1] == 'x');
                    assert(("\"t3\""@)[1] == 't');
                    assert(false);
                },
                crate::model::ConnSpeedView::UltraBroadband => {
                    assert((("\"xdsl\""@) + a)[1] == ("\"xdsl\""@)[1]);
                    assert((("\"ultrabb\""@) + b)[1] == ("\"ultrabb\""@)[1]);
                    assert(("\"xdsl\""@)[1] == 'x');
                    assert(("\"ultrabb\""@)[1] == 'u');
                    assert(false);
                },
                crate::model::ConnSpeedView::Wireless => {
                    assert((("\"xdsl\""@) + a)[1] == ("\"xdsl\""@)[1]);
                    assert((("\"wireless\""@) + b)[1] == ("\"wireless\""@)[1]);
                    assert(("\"xdsl\""@)[1] == 'x');
                    assert(("\"wireless\""@)[1] == 'w');
                    assert(false);
                },
                crate::model::ConnSpeedView::Xdsl => {
                    lemma_peel("\"xdsl\""@, a, b);
                },
                crate::model::ConnSpeedView::Other(r) => {
                    assert((("\"xdsl\""@) + a)[0] == ("\"xdsl\""@)[0]);
                    assert(("\"xdsl\""@)[0] == '\"');
                    assert((("{\"other\":"@ + (jstr(r) + "}"@)) + b)[0] == ("{\"other\":"@ + (jstr(r) + "}"@))[0]);
                    assert(("{\"other\":"@ + (jstr(r) + "}"@))[0] == ("{\"other\":"@)[0]);
                    assert(("{\"other\":"@)[0] == '{');
                    assert(false);
                },
            }
        },
        crate::model::ConnSpeedView::Other(s) => {
            match d {
                crate::model::ConnSpeedView::Broadband => {
                    assert((("\"broadband\""@) + b)[0] == ("\"broadband\""@)[0]);
                    assert(("\"broadband\""@)[0] == '\"');
                    assert((("{\"other\":"@ + (jstr(s) + "}"@)) + a)[0] == ("{\"other\":"@ + (jstr(s) + "}"@))[0]);
                    assert(("{\"other\":"@ + (jstr(s) + "}"@))[0] == ("{\"other\":"@)[0]);
                    assert(("{\"other\":"@)[0] == '{');
                    assert(false);
                },
                crate::model::ConnSpeedView::Cable => {
                    assert((("\"cable\""@) + b)[0] == ("\"cable\""@)[0]);
                    assert(("\"cable\""@)[0] == '\"');
                    assert((("{\"other\":"@ + (jstr(s) + "}"@)) + a)[0] == ("{\"other\":"@ + (jstr(s) + "}"@))[0]);
                    assert(("{\"other\":"@ + (jstr(s) + "}"@))[0] == ("{\"other\":"@)[0]);
                    assert(("{\"other\":"@)[0] == '{');
                    assert(false);
                },
                crate::model::ConnSpeedView::Dialup => {
                    assert((("\"dialup\""@) + b)[0] == ("\"dialup\""@)[0]);
                    assert(("\"dialup\""@)[0] == '\"');
                    assert((("{\"other\":"@ + (jstr(s) + "}"@)) + a)[0] == ("{\"other\":"@ + (jstr(s) + "}"@))[0]);
                    assert(("{\"other\":"@ + (jstr(s) + "}"@))[0] == ("{\"other\":"@)[0]);
                    assert(("{\"other\":"@)[0] == '{');
                    assert(false);
                },
                crate::model::ConnSpeedView::Mobile => {
                    assert((("\"mobile\""@) + b)[0] == ("\"mobile\""@)[0]);
                    assert(("\"mobile\""@)[0] == '\"');
                    assert((("{\"other\":"@ + (jstr(s) + "}"@)) + a)[0] == ("{\"other\":"@ + (jstr(s) + "}"@))[0]);
                    assert(("{\"other\":"@ + (jstr(s) + "}"@))[0] == ("{\"other\":"@)[0]);
                    assert(("{\"other\":"@)[0] == '{');
                    assert(false);
                },
                crate::model::ConnSpeedView::Oc12 => {
                    assert((("\"oc12\""@) + b)[0] == ("\"oc12\""@)[0]);
                    assert(("\"oc12\""@)[0] == '\"');
                    assert((("{\"other\":"@ + (jstr(s) + "}"@)) + a)[0] == ("{\"other\":"@ + (jstr(s) + "}"@))[0]);
                    assert(("{\"other\":"@ + (jstr(s) + "}"@))[0] == ("{\"other\":"@)[0]);
                    assert(("{\"other\":"@)[0] == '{');
                    assert(false);
                },
                crate::model::ConnSpeedView::Oc3 => {
                    assert((("\"oc3\""@) + b)[0] == ("\"oc3\""@)[0]);
                    assert(("\"oc3\""@)[0] == '\"');
                    assert((("{\"other\":"@ + (jstr(s) + "}"@)) + a)[0] == ("{\"other\":"@ + (jstr(s) + "}"@))[0]);
                    assert(("{\"other\":"@ + (jstr(s) + "}"@))[0] == ("{\"other\":"@)[0]);
                    assert(("{\"other\":"@)[0] == '{');
                    assert(false);
                },
                crate::model::ConnSpeedView::Satellite => {
                    assert((("\"satellite\""@) + b)[0] == ("\"satellite\""@)[0]);
                    assert(("\"satellite\""@)[0] == '\"');
                    assert((("{\"other\":"@ + (jstr(s) + "}"@)) + a)[0] == ("{\"other\":"@ + (jstr(s) + "}"@))[0]);
                    assert(("{\"other\":"@ + (jstr(s) + "}"@))[0] == ("{\"other\":"@)[0]);
                    assert(("{\"other\":"@)[0] == '{');
                    assert(false);
                },
                crate::model::ConnSpeedView::T1 => {
                    assert((("\"t1\""@) + b)[0] == ("\"t1\""@)[0]);
                    assert(("\"t1\""@)[0] == '\"');
                    assert((("{\"other\":"@ + (jstr(s) + "}"@)) + a)[0] == ("{\"other\":"@ + (jstr(s) + "}"@))[0]);
                    assert(("{\"other\":"@ + (jstr(s) + "}"@))[0] == ("{\"other\":"@)[0]);
                    assert(("{\"other\":"@)[0] == '{');
                    assert(false);
                },
                crate::model::ConnSpeedView::T3 => {
                    assert((("\"t3\""@) + b)[0] == ("\"t3\""@)[0]);
                    assert(("\"t3\""@)[0] == '\"');
                    assert((("{\"other\":"@ + (jstr(s) + "}"@)) + a)[0] == ("{\"other\":"@ + (jstr(s) + "}"@))[0]);
                    assert(("{\"other\":"@ + (jstr(s) + "}"@))[0] == ("{\"other\":"@)[0]);
                    assert(("{\"other\":"@)[0] == '{');
                    assert(false);
                },
                crate::model::ConnSpeedView::UltraBroadband => {
                    assert((("\"ultrabb\""@) + b)[0] == ("\"ultrabb\""@)[0]);
                    assert(("\"ultrabb\""@)[0] == '\"');
                    assert((("{\"other\":"@ + (jstr(s) + "}"@)) + a)[0] == ("{\"other\":"@ + (jstr(s) + "}"@))[0]);
                    assert(("{\"other\":"@ + (jstr(s) + "}"@))[0] == ("{\"other\":"@)[0]);
                    assert(("{\"other\":"@)[0] == '{');
                    assert(false);
                },
                crate::model::ConnSpeedView::Wireless => {
                    assert((("\"wireless\""@) + b)[0] == ("\"wireless\""@)[0]);
                    assert(("\"wireless\""@)[0] == '\"');
                    assert((("{\"other\":"@ + (jstr(s) + "}"@)) + a)[0] == ("{\"other\":"@ + (jstr(s) + "}"@))[0]);
                    assert(("{\"other\":"@ + (jstr(s) + "}"@))[0] == ("{\"other\":"@)[0]);
                    assert(("{\"other\":"@)[0] == '{');
                    assert(false);
                },
                crate::model::ConnSpeedView::Xdsl => {
                    assert((("\"xdsl\""@) + b)[0] == ("\"xdsl\""@)[0]);
                    assert(("\"xdsl\""@)[0] == '\"');
                    assert((("{\"other\":"@ + (jstr(s) + "}"@)) + a)[0] == ("{\"other\":"@ + (jstr(s) + "}"@))[0]);
                    assert(("{\"other\":"@ + (jstr(s) + "}"@))[0] == ("{\"other\":"@)[0]);
                    assert(("{\"other\":"@)[0] == '{');
                    assert(false);
                },
                crate::model::ConnSpeedView::Other(r) => {
                    assert(("{\"other\":"@ + (jstr(s) + "}"@)) + a =~= "{\"other\":"@ + (jstr(s) + ("}"@ + a)));
                    assert(("{\"other\":"@ + (jstr(r) + "}"@)) + b =~= "{\"other\":"@ + (jstr(r) + ("}"@ + b)));
                    lemma_peel("{\"other\":"@, jstr(s) + ("}"@ + a), jstr(r) + ("}"@ + b));
                    lemma_jstr_det(s, r, "}"@ + a, "}"@ + b);
                    lemma_peel("}"@, a, b);
                },
            }
        },
    }
}

/// A conn type fragment determines its value and the text after it.
#[verifier::rlimit(100)]
pub proof fn lemma_conn_type_det(c: crate::model::ConnTypeView, d: crate::model::ConnTypeView, a: Seq<char>, b: Seq<char>)
    requires
        (conn_type_json(c) + a) == (conn_type_json(d) + b),
    ensures
        c == d,
        a == b,
{
    reveal_strlit("\"wired\"");
    reveal_strlit("\"wifi\"");
    reveal_strlit("\"mobile\"");
    reveal_strlit("\"dialup\"");
    reveal_strlit("\"satellite\"");
    reveal_strlit("\"?\"");
    reveal_strlit("{\"other\":");
    match c {
        crate::model::ConnTypeView::Wired => {
            match d {
                crate::model::ConnTypeView::Wired => {
                    lemma_peel("\"wired\""@, a, b);
                },
                crate::model::ConnTypeView::Wifi => {
                    assert((("\"wired\""@) + a)[3] == ("\"wired\""@)[3]);
                    assert((("\"wifi\""@) + b)[3] == ("\"wifi\""@)[3]);
                    assert(("\"wired\""@)[3] == 'r');
                    assert(("\"wifi\""@)[3] == 'f');
                    assert(false);
                },
                crate::model::ConnTypeView::Mobile => {
                    assert((("\"wired\""@) + a)[1] == ("\"wired\""@)[1]);
                    assert((("\"mobile\""@) + b)[1] == ("\"mobile\""@)[1]);
                    assert(("\"wired\""@)[1] == 'w');
                    assert(("\"mobile\""@)[1] == 'm');
                    assert(false);
                },
                crate::model::ConnTypeView::Dialup => {
                    assert((("\"wired\""@) + a)[1] == ("\"wired\""@)[1]);
                    assert((("\"dialup\""@) + b)[1] == ("\"dialup\""@)[1]);
                    assert(("\"wired\""@)[1] == 'w');
                    assert(("\"dialup\""@)[1] == 'd');
                    assert(false);
                },
                crate::model::ConnTypeView::Satellite => {
                    assert((("\"wired\""@) + a)[1] == ("\"wired\""@)[1]);
                    assert((("\"satellite\""@) + b)[1] == ("\"satellite\""@)[1]);
                    assert(("\"wired\""@)[1] == 'w');
                    assert(("\"satellite\""@)[1] == 's');
                    assert(false);
                },
                crate::model::ConnTypeView::Unknown => {
                    assert((("\"wired\""@) + a)[1] == ("\"wired\""@)[1]);
                    assert((("\"?\""@) + b)[1] == ("\"?\""@)[1]);
                    assert(("\"wired\""@)[1] == 'w');
                    assert(("\"?\""@)[1] == '?');
                    assert(false);
                },
                crate::model::ConnTypeView::Other(r) => {
                    assert((("\"wired\""@) + a)[0] == ("\"wired\""@)[0]);
                    assert(("\"wired\""@)[0] == '\"');
                    assert((("{\"other\":"@ + (jstr(r) + "}"@)) + b)[0] == ("{\"other\":"@ + (jstr(r) + "}"@))[0]);
                    assert(("{\"other\":"@ + (jstr(r) + "}"@))[0] == ("{\"other\":"@)[0]);
                    assert(("{\"other\":"@)[0] == '{');
                    assert(false);
                },
            }
        },
        crate::model::ConnTypeView::Wifi => {
            match d {
                crate::model::ConnTypeView::Wired => {
                    assert((("\"wifi\""@) + a)[3] == ("\"wifi\""@)[3]);
                    assert((("\"wired\""@) + b)[3] == ("\"wired\""@)[3]);
                    assert(("\"wifi\""@)[3] == 'f');
                    assert(("\"wired\""@)[3] == 'r');
                    assert(false);
                },
                crate::model::ConnTypeView::Wifi => {
                    lemma_peel("\"wifi\""@, a, b);
                },
                crate::model::ConnTypeView::Mobile => {
                    assert((("\"wifi\""@) + a)[1] == ("\"wifi\""@)[1]);
                    assert((("\"mobile\""@) + b)[1] == ("\"mobile\""@)[1]);
                    assert(("\"wifi\""@)[1] == 'w');
                    assert(("\"mobile\""@)[1] == 'm');
                    assert(false);
                },
                crate::model::ConnTypeView::Dialup => {
                    assert((("\"wifi\""@) + a)[1] == ("\"wifi\""@)[1]);
                    assert((("\"dialup\""@) + b)[1] == ("\"dialup\""@)[1]);
                    assert(("\"wifi\""@)[1] == 'w');
                    assert(("\"dialup\""@)[1] == 'd');
                    assert(false);
                },
                crate::model::ConnTypeView::Satellite => {
                    assert((("\"wifi\""@) + a)[1] == ("\"wifi\""@)[1]);
                    assert((("\"satellite\""@) + b)[1] == ("\"satellite\""@)[1]);
                    assert(("\"wifi\""@)[1] == 'w');
                    assert(("\"satellite\""@)[1] == 's');
                    assert(false);
                },
                crate::model::ConnTypeView::Unknown => {
                    assert((("\"wifi\""@) + a)[1] == ("\"wifi\""@)[1]);
                    assert((("\"?\""@) + b)[1] == ("\"?\""@)[1]);
                    assert(("\"wifi\""@)[1] == 'w');
                    assert(("\"?\""@)[1] == '?');
                    assert(false);
                },
                crate::model::ConnTypeView::Other(r) => {
                    assert((("\"wifi\""@) + a)[0] == ("\"wifi\""@)[0]);
                    assert(("\"wifi\""@)[0] == '\"');
                    assert((("{\"other\":"@ + (jstr(r) + "}"@)) + b)[0] == ("{\"other\":"@ + (jstr(r) + "}"@))[0]);
                    assert(("{\"other\":"@ + (jstr(r) + "}"@))[0] == ("{\"other\":"@)[0]);
                    assert(("{\"other\":"@)[0] == '{');
                    assert(false);
                },
            }
        },
        crate::model::ConnTypeView::Mobile => {
            match d {
                crate::model::ConnTypeView::Wired => {
                    assert((("\"mobile\""@) + a)[1] == ("\"mobile\""@)[1]);
                    assert((("\"wired\""@) + b)[1] == ("\"wired\""@)[1]);
                    assert(("\"mobile\""@)[1] == 'm');
                    assert(("\"wired\""@)[1] == 'w');
                    assert(false);
                },
                crate::model::ConnTypeView::Wifi => {
                    assert((("\"mobile\""@) + a)[1] == ("\"mobile\""@)[1]);
                    assert((("\"wifi\""@) + b)[1] == ("\"wifi\""@)[1]);
                    assert(("\"mobile\""@)[1] == 'm');
                    assert(("\"wifi\""@)[1] == 'w');
                    assert(false);
                },
                crate::model::ConnTypeView::Mobile => {
                    lemma_peel("\"mobile\""@, a, b);
                },
                crate::model::ConnTypeView::Dialup => {
                    assert((("\"mobile\""@) + a)[1] == ("\"mobile\""@)[1]);
                    assert((("\"dialup\""@) + b)[1] == ("\"dialup\""@)[1]);
                    assert(("\"mobile\""@)[1] == 'm');
                    assert(("\"dialup\""@)[1] == 'd');
                    assert(false);
                },
                crate::model::ConnTypeView::Satellite => {
                    assert((("\"mobile\""@) + a)[1] == ("\"mobile\""@)[1]);
                    assert((("\"satellite\""@) + b)[1] == ("\"satellite\""@)[1]);
                    assert(("\"mobile\""@)[1] == 'm');
                    assert(("\"satellite\""@)[1] == 's');
                    assert(false);
                },
                crate::model::ConnTypeView::Unknown => {
                    assert((("\"mobile\""@) + a)[1] == ("\"mobile\""@)[1]);
                    assert((("\"?\""@) + b)[1] == ("\"?\""@)[1]);
                    assert(("\"mobile\""@)[1] == 'm');
                    assert(("\"?\""@)[1] == '?');
                    assert(false);
                },
                crate::model::ConnTypeView::Other(r) => {
                    assert((("\"mobile\""@) + a)[0] == ("\"mobile\""@)[0]);
                    assert(("\"mobile\""@)[0] == '\"');
                    assert((("{\"other\":"@ + (jstr(r) + "}"@)) + b)[0] == ("{\"other\":"@ + (jstr(r) + "}"@))[0]);
                    assert(("{\"other\":"@ + (jstr(r) + "}"@))[0] == ("{\"other\":"@)[0]);
                    assert(("{\"other\":"@)[0] == '{');
                    assert(false);
                },
            }
        },
        crate::model::ConnTypeView::Dialup => {
            match d {
                crate::model::ConnTypeView::Wired => {
                    assert((("\"dialup\""@) + a)[1] == ("\"dialup\""@)[1]);
                    assert((("\"wired\""@) + b)[1] == ("\"wired\""@)[1]);
                    assert(("\"dialup\""@)[1] == 'd');
                    assert(("\"wired\""@)[1] == 'w');
                    assert(false);
                },
                crate::model::ConnTypeView::Wifi => {
                    assert((("\"dialup\""@) + a)[1] == ("\"dialup\""@)[1]);
                    assert((("\"wifi\""@) + b)[1] == ("\"wifi\""@)[1]);
                    assert(("\"dialup\""@)[1] == 'd');
                    assert(("\"wifi\""@)[1] == 'w');
                    assert(false);
                },
                crate::model::ConnTypeView::Mobile => {
                    assert((("\"dialup\""@) + a)[1] == ("\"dialup\""@)[1]);
                    assert((("\"mobile\""@) + b)[1] == ("\"mobile\""@)[1]);
                    assert(("\"dialup\""@)[1] == 'd');
                    assert(("\"mobile\""@)[1] == 'm');
                    assert(false);
                },
                crate::model::ConnTypeView::Dialup => {
                    lemma_peel("\"dialup\""@, a, b);
                },
                crate::model::ConnTypeView::Satellite => {
                    assert((("\"dialup\""@) + a)[1] == ("\"dialup\""@)[1]);
                    assert((("\"satellite\""@) + b)[1] == ("\"satellite\""@)[1]);
                    assert(("\"dialup\""@)[1] == 'd');
                    assert(("\"satellite\""@)[1] == 's');
                    assert(false);
                },
                crate::model::ConnTypeView::Unknown => {
                    assert((("\"dialup\""@) + a)[1] == ("\"dialup\""@)[1]);
                    assert((("\"?\""@) + b)[1] == ("\"?\""@)[1]);
                    assert(("\"dialup\""@)[1] == 'd');
                    assert(("\"?\""@)[1] == '?');
                    assert(false);
                },
                crate::model::ConnTypeView::Other(r) => {
                    assert((("\"dialup\""@) + a)[0] == ("\"dialup\""@)[0]);
                    assert(("\"dialup\""@)[0] == '\"');
                    assert((("{\"other\":"@ + (jstr(r) + "}"@)) + b)[0] == ("{\"other\":"@ + (jstr(r) + "}"@))[0]);
                    assert(("{\"other\":"@ + (jstr(r) + "}"@))[0] == ("{\"other\":"@)[0]);
                    assert(("{\"other\":"@)[0] == '{');
                    assert(false);
                },
            }
        },
        crate::model::ConnTypeView::Satellite => {
            match d {
                crate::model::ConnTypeView::Wired => {
                    assert((("\"satellite\""@) + a)[1] == ("\"satellite\""@)[1]);
                    assert((("\"wired\""@) + b)[1] == ("\"wired\""@)[1]);
                    assert(("\"satellite\""@)[1] == 's');
                    assert(("\"wired\""@)[1] == 'w');
                    assert(false);
                },
                crate::model::ConnTypeView::Wifi => {
                    assert((("\"satellite\""@) + a)[1] == ("\"satellite\""@)[1]);
                    assert((("\"wifi\""@) + b)[1] == ("\"wifi\""@)[1]);
                    assert(("\"satellite\""@)[1] == 's');
                    assert(("\"wifi\""@)[1] == 'w');
                    assert(false);
                },
                crate::model::ConnTypeView::Mobile => {
                    assert((("\"satellite\""@) + a)[1] == ("\"satellite\""@)[1]);
                    assert((("\"mobile\""@) + b)[1] == ("\"mobile\""@)[1]);
                    assert(("\"satellite\""@)[1] == 's');
                    assert(("\"mobile\""@)[1] == 'm');
                    assert(false);
                },
                crate::model::ConnTypeView::Dialup => {
                    assert((("\"satellite\""@) + a)[1] == ("\"satellite\""@)[1]);
                    assert((("\"dialup\""@) + b)[1] == ("\"dialup\""@)[1]);
                    assert(("\"satellite\""@)[1] == 's');
                    assert(("\"dialup\""@)[1] == 'd');
                    assert(false);
                },
                crate::model::ConnTypeView::Satellite => {
                    lemma_peel("\"satellite\""@, a, b);
                },
                crate::model::ConnTypeView::Unknown => {
                    assert((("\"satellite\""@) + a)[1] == ("\"satellite\""@)[1]);
                    assert((("\"?\""@) + b)[1] == ("\"?\""@)[1]);
                    assert(("\"satellite\""@)[1] == 's');
                    assert(("\"?\""@)[1] == '?');
                    assert(false);
                },
                crate::model::ConnTypeView::Other(r) => {
                    assert((("\"satellite\""@) + a)[0] == ("\"satellite\""@)[0]);
                    assert(("\"satellite\""@)[0] == '\"');
                    assert((("{\"other\":"@ + (jstr(r) + "}"@)) + b)[0] == ("{\"other\":"@ + (jstr(r) + "}"@))[0]);
                    assert(("{\"other\":"@ + (jstr(r) + "}"@))[0] == ("{\"other\":"@)[0]);
                    assert(("{\"other\":"@)[0] == '{');
                    assert(false);
                },
            }
        },
        crate::model::ConnTypeView::Unknown => {
            match d {
                crate::model::ConnTypeView::Wired => {
                    assert((("\"?\""@) + a)[1] == ("\"?\""@)[1]);
                    assert((("\"wired\""@) + b)[1] == ("\"wired\""@)[1]);
                    assert(("\"?\""@)[1] == '?');
                    assert(("\"wired\""@)[1] == 'w');
                    assert(false);
                },
                crate::model::ConnTypeView::Wifi => {
                    assert((("\"?\""@) + a)[1] == ("\"?\""@)[1]);
                    assert((("\"wifi\""@) + b)[1] == ("\"wifi\""@)[1]);
                    assert(("\"?\""@)[1] == '?');
                    assert(("\"wifi\""@)[1] == 'w');
                    assert(false);
                },
                crate::model::ConnTypeView::Mobile => {
                    assert((("\"?\""@) + a)[1] == ("\"?\""@)[1]);
                    assert((("\"mobile\""@) + b)[1] == ("\"mobile\""@)[1]);
                    assert(("\"?\""@)[1] == '?');
                    assert(("\"mobile\""@)[1] == 'm');
                    assert(false);
                },
                crate::model::ConnTypeView::Dialup => {
                    assert((("\"?\""@) + a)[1] == ("\"?\""@)[1]);
                    assert((("\"dialup\""@) + b)[1] == ("\"dialup\""@)[1]);
                    assert(("\"?\""@)[1] == '?');
                    assert(("\"dialup\""@)[1] == 'd');
                    assert(false);
                },
                crate::model::ConnTypeView::Satellite => {
                    assert((("\"?\""@) + a)[1] == ("\"?\""@)[1]);
                    assert((("\"satellite\""@) + b)[1] == ("\"satellite\""@)[1]);
                    assert(("\"?\""@)[1] == '?');
                    assert(("\"satellite\""@)[1] == 's');
                    assert(false);
                },
                crate::model::ConnTypeView::Unknown => {
                    lemma_peel("\"?\""@, a, b);
                },
                crate::model::ConnTypeView::Other(r) => {
                    assert((("\"?\""@) + a)[0] == ("\"?\""@)[0]);
                    assert(("\"?\""@)[0] == '\"');
                    assert((("{\"other\":"@ + (jstr(r) + "}"@)) + b)[0] == ("{\"other\":"@ + (jstr(r) + "}"@))[0]);
                    assert(("{\"other\":"@ + (jstr(r) + "}"@))[0] == ("{\"other\":"@)[0]);
                    assert(("{\"other\":"@)[0] == '{');
                    assert(false);
                },
            }
        },
        crate::model::ConnTypeView::Other(s) => {
            match d {
                crate::model::ConnTypeView::Wired => {
                    assert((("\"wired\""@) + b)[0] == ("\"wired\""@)[0]);
                    assert(("\"wired\""@)[0] == '\"');
                    assert((("{\"other\":"@ + (jstr(s) + "}"@)) + a)[0] == ("{\"other\":"@ + (jstr(s) + "}"@))[0]);
                    assert(("{\"other\":"@ + (jstr(s) + "}"@))[0] == ("{\"other\":"@)[0]);
                    assert(("{\"other\":"@)[0] == '{');
                    assert(false);
                },
                crate::model::ConnTypeView::Wifi => {
                    assert((("\"wifi\""@) + b)[0] == ("\"wifi\""@)[0]);
                    assert(("\"wifi\""@)[0] == '\"');
                    assert((("{\"other\":"@ + (jstr(s) + "}"@)) + a)[0] == ("{\"other\":"@ + (jstr(s) + "}"@))[0]);
                    assert(("{\"other\":"@ + (jstr(s) + "}"@))[0] == ("{\"other\":"@)[0]);
                    assert(("{\"other\":"@)[0] == '{');
                    assert(false);
                },
                crate::model::ConnTypeView::Mobile => {
                    assert((("\"mobile\""@) + b)[0] == ("\"mobile\""@)[0]);
                    assert(("\"mobile\""@)[0] == '\"');
                    assert((("{\"other\":"@ + (jstr(s) + "}"@)) + a)[0] == ("{\"other\":"@ + (jstr(s) + "}"@))[0]);
                    assert(("{\"other\":"@ + (jstr(s) + "}"@))[0] == ("{\"other\":"@)[0]);
                    assert(("{\"other\":"@)[0] == '{');
                    assert(false);
                },
                crate::model::ConnTypeView::Dialup => {
                    assert((("\"dialup\""@) + b)[0] == ("\"dialup\""@)[0]);
                    assert(("\"dialup\""@)[0] == '\"');
                    assert((("{\"other\":"@ + (jstr(s) + "}"@)) + a)[0] == ("{\"other\":"@ + (jstr(s) + "}"@))[0]);
                    assert(("{\"other\":"@ + (jstr(s) + "}"@))[0] == ("{\"other\":"@)[0]);
                    assert(("{\"other\":"@)[0] == '{');
                    assert(false);
                },
                crate::model::ConnTypeView::Satellite => {
                    assert((("\"satellite\""@) + b)[0] == ("\"satellite\""@)[0]);
                    assert(("\"satellite\""@)[0] == '\"');
                    assert((("{\"other\":"@ + (jstr(s) + "}"@)) + a)[0] == ("{\"other\":"@ + (jstr(s) + "}"@))[0]);
                    assert(("{\"other\":"@ + (jstr(s) + "}"@))[0] == ("{\"other\":"@)[0]);
                    assert(("{\"other\":"@)[0] == '{');
                    assert(false);
                },
                crate::model::ConnTypeView::Unknown => {
                    assert((("\"?\""@) + b)[0] == ("\"?\""@)[0]);
                    assert(("\"?\""@)[0] == '\"');
                    assert((("{\"other\":"@ + (jstr(s) + "}"@)) + a)[0] == ("{\"other\":"@ + (jstr(s) + "}"@))[0]);
                    assert(("{\"other\":"@ + (jstr(s) + "}"@))[0] == ("{\"other\":"@)[0]);
                    assert(("{\"other\":"@)[0] == '{');
                    assert(false);
                },
                crate::model::ConnTypeView::Other(r) => {
                    assert(("{\"other\":"@ + (jstr(s) + "}"@)) + a =~= "{\"other\":"@ + (jstr(s) + ("}"@ + a)));
                    assert(("{\"other\":"@ + (jstr(r) + "}"@)) + b =~= "{\"other\":"@ + (jstr(r) + ("}"@ + b)));
                    lemma_peel("{\"other\":"@, jstr(s) + ("}"@ + a), jstr(r) + ("}"@ + b));
                    lemma_jstr_det(s, r, "}"@ + a, "}"@ + b);
                    lemma_peel("}"@, a, b);
                },
            }
        },
    }
}

/// A proxy type fragment determines its value and the text after it.
#[verifier::rlimit(100)]
pub proof fn lemma_proxy_type_det(c: crate::model::ProxyTypeView, d: crate::model::ProxyTypeView, a: Seq<char>, b: Seq<char>)
    requires
        (proxy_type_json(c) + a) == (proxy_type_json(d) + b),
    ensures
        c == d,
        a == b,
{
    reveal_strlit("\"anonymous\"");
    reveal_strlit("\"aol\"");
    reveal_strlit("\"blackberry\"");
    reveal_strlit("\"corporate\"");
    reveal_strlit("\"edu\"");
    reveal_strlit("\"hosting\"");
    reveal_strlit("\"public\"");
    reveal_strlit("\"transparent\"");
    reveal_strlit("\"?\"");
    reveal_strlit("{\"other\":");
    match c {
        crate::model::ProxyTypeView::Anonymous => {
            match d {
                crate::model::ProxyTypeView::Anonymous => {
                    lemma_peel("\"anonymous\""@, a, b);
                },
                crate::model::ProxyTypeView::Aol => {
                    assert((("\"anonymous\""@) + a)[2] == ("\"anonymous\""@)[2]);
                    assert((("\"aol\""@) + b)[2] == ("\"aol\""@)[2]);
                    assert(("\"anonymous\""@)[2] == 'n');
                    assert(("\"aol\""@)[2] == 'o');
                    assert(false);
                },
                crate::model::ProxyTypeView::Blackberry => {
                    assert((("\"anonymous\""@) + a)[1] == ("\"anonymous\""@)[1]);
                    assert((("\"blackberry\""@) + b)[1] == ("\"blackberry\""@)[1]);
                    assert(("\"anonymous\""@)[1] == 'a');
                    assert(("\"blackberry\""@)[1] == 'b');
                    assert(false);
                },
                crate::model::ProxyTypeView::Corporate => {
                    assert((("\"anonymous\""@) + a)[1] == ("\"anonymous\""@)[1]);
                    assert((("\"corporate\""@) + b)[1] == ("\"corporate\""@)[1]);
                    assert(("\"anonymous\""@)[1] == 'a');
                    assert(("\"corporate\""@)[1] == 'c');
                    assert(false);
                },
                crate::model::ProxyTypeView::Edu => {
                    assert((("\"anonymous\""@) + a)[1] == ("\"anonymous\""@)[1]);
                    assert((("\"edu\""@) + b)[1] == ("\"edu\""@)[1]);
                    assert(("\"anonymous\""@)[1] == 'a');
                    assert(("\"edu\""@)[1] == 'e');
                    assert(false);
                },
                crate::model::ProxyTypeView::Hosting => {
                    assert((("\"anonymous\""@) + a)[1] == ("\"anonymous\""@)[1]);
                    assert((("\"hosting\""@) + b)[1] == ("\"hosting\""@)[1]);
                    assert(("\"anonymous\""@)[1] == 'a');
                    assert(("\"hosting\""@)[1] == 'h');
                    assert(false);
                },
                crate::model::ProxyTypeView::Public => {
                    assert((("\"anonymous\""@) + a)[1] == ("\"anonymous\""@)[1]);
                    assert((("\"public\""@) + b)[1] == ("\"public\""@)[1]);
                    assert(("\"anonymous\""@)[1] == 'a');
                    assert(("\"public\""@)[1] == 'p');
                    assert(false);
                },
                crate::model::ProxyTypeView::Transparent => {
                    assert((("\"anonymous\""@) + a)[1] == ("\"anonymous\""@)[1]);
                    assert((("\"transparent\""@) + b)[1] == ("\"transparent\""@)[1]);
                    assert(("\"anonymous\""@)[1] == 'a');
                    assert(("\"transparent\""@)[1] == 't');
                    assert(false);
                },
                crate::model::ProxyTypeView::Unknown => {
                    assert((("\"anonymous\""@) + a)[1] == ("\"anonymous\""@)[1]);
                    assert((("\"?\""@) + b)[1] == ("\"?\""@)[1]);
                    assert(("\"anonymous\""@)[1] == 'a');
                    assert(("\"?\""@)[1] == '?');
                    assert(false);
                },
                crate::model::ProxyTypeView::Other(r) => {
                    assert((("\"anonymous\""@) + a)[0] == ("\"anonymous\""@)[0]);
                    assert(("\"anonymous\""@)[0] == '\"');
                    assert((("{\"other\":"@ + (jstr(r) + "}"@)) + b)[0] == ("{\"other\":"@ + (jstr(r) + "}"@))[0]);
                    assert(("{\"other\":"@ + (jstr(r) + "}"@))[0] == ("{\"other\":"@)[0]);
                    assert(("{\"other\":"@)[0] == '{');
                    assert(false);
                },
            }
        },
        crate::model::ProxyTypeView::Aol => {
            match d {
                crate::model::ProxyTypeView::Anonymous => {
                    assert((("\"aol\""@) + a)[2] == ("\"aol\""@)[2]);
                    assert((("\"anonymous\""@) + b)[2] == ("\"anonymous\""@)[2]);
                    assert(("\"aol\""@)[2] == 'o');
                    assert(("\"anonymous\""@)[2] == 'n');
                    assert(false);
                },
                crate::model::ProxyTypeView::Aol => {
                    lemma_peel("\"aol\""@, a, b);
                },
                crate::model::ProxyTypeView::Blackberry => {
                    assert((("\"aol\""@) + a)[1] == ("\"aol\""@)[1]);
                    assert((("\"blackberry\""@) + b)[1] == ("\"blackberry\""@)[1]);
                    assert(("\"aol\""@)[1] == 'a');
                    assert(("\"blackberry\""@)[1] == 'b');
                    assert(false);
                },
                crate::model::ProxyTypeView::Corporate => {
                    assert((("\"aol\""@) + a)[1] == ("\"aol\""@)[1]);
                    assert((("\"corporate\""@) + b)[1] == ("\"corporate\""@)[1]);
                    assert(("\"aol\""@)[1] == 'a');
                    assert(("\"corporate\""@)[1] == 'c');
                    assert(false);
                },
                crate::model::ProxyTypeView::Edu => {
                    assert((("\"aol\""@) + a)[1] == ("\"aol\""@)[1]);
                    assert((("\"edu\""@) + b)[1] == ("\"edu\""@)[1]);
                    assert(("\"aol\""@)[1] == 'a');
                    assert(("\"edu\""@)[1] == 'e');
                    assert(false);
                },
                crate::model::ProxyTypeView::Hosting => {
                    assert((("\"aol\""@) + a)[1] == ("\"aol\""@)[1]);
                    assert((("\"hosting\""@) + b)[1] == ("\"hosting\""@)[1]);
                    assert(("\"aol\""@)[1] == 'a');
                    assert(("\"hosting\""@)[1] == 'h');
                    assert(false);
                },
                crate::model::ProxyTypeView::Public => {
                    assert((("\"aol\""@) + a)[1] == ("\"aol\""@)[1]);
                    assert((("\"public\""@) + b)[1] == ("\"public\""@)[1]);
                    assert(("\"aol\""@)[1] == 'a');
                    assert(("\"public\""@)[1] == 'p');
                    assert(false);
                },
                crate::model::ProxyTypeView::Transparent => {
                    assert((("\"aol\""@) + a)[1] == ("\"aol\""@)[1]);
                    assert((("\"transparent\""@) + b)[1] == ("\"transparent\""@)[1]);
                    assert(("\"aol\""@)[1] == 'a');
                    assert(("\"transparent\""@)[1] == 't');
                    assert(false);
                },
                crate::model::ProxyTypeView::Unknown => {
                    assert((("\"aol\""@) + a)[1] == ("\"aol\""@)[1]);
                    assert((("\"?\""@) + b)[1] == ("\"?\""@)[1]);
                    assert(("\"aol\""@)[1] == 'a');
                    assert(("\"?\""@)[1] == '?');
                    assert(false);
                },
                crate::model::ProxyTypeView::Other(r) => {
                    assert((("\"aol\""@) + a)[0] == ("\"aol\""@)[0]);
                    assert(("\"aol\""@)[0] == '\"');
                    assert((("{\"other\":"@ + (jstr(r) + "}"@)) + b)[0] == ("{\"other\":"@ + (jstr(r) + "}"@))[0]);
                    assert(("{\"other\":"@ + (jstr(r) + "}"@))[0] == ("{\"other\":"@)[0]);
                    assert(("{\"other\":"@)[0] == '{');
                    assert(false);
                },
            }
        },
        crate::model::ProxyTypeView::Blackberry => {
            match d {
                crate::model::ProxyTypeView::Anonymous => {
                    assert((("\"blackberry\""@) + a)[1] == ("\"blackberry\""@)[1]);
                    assert((("\"anonymous\""@) + b)[1] == ("\"anonymous\""@)[1]);
                    assert(("\"blackberry\""@)[1] == 'b');
                    assert(("\"anonymous\""@)[1] == 'a');
                    assert(false);
                },
                crate::model::ProxyTypeView::Aol => {
                    assert((("\"blackberry\""@) + a)[1] == ("\"blackberry\""@)[1]);
                    assert((("\"aol\""@) + b)[1] == ("\"aol\""@)[1]);
                    assert(("\"blackberry\""@)[1] == 'b');
                    assert(("\"aol\""@)[1] == 'a');
                    assert(false);
                },
                crate::model::ProxyTypeView::Blackberry => {
                    lemma_peel("\"blackberry\""@, a, b);
                },
                crate::model::ProxyTypeView::Corporate => {
                    assert((("\"blackberry\""@) + a)[1] == ("\"blackberry\""@)[1]);
                    assert((("\"corporate\""@) + b)[1] == ("\"corporate\""@)[1]);
                    assert(("\"blackberry\""@)[1] == 'b');
                    assert(("\"corporate\""@)[1] == 'c');
                    assert(false);
                },
                crate::model::ProxyTypeView::Edu => {
                    assert((("\"blackberry\""@) + a)[1] == ("\"blackberry\""@)[1]);
                    assert((("\"edu\""@) + b)[1] == ("\"edu\""@)[1]);
                    assert(("\"blackberry\""@)[1] == 'b');
                    assert(("\"edu\""@)[1] == 'e');
                    assert(false);
                },
                crate::model::ProxyTypeView::Hosting => {
                    assert((("\"blackberry\""@) + a)[1] == ("\"blackberry\""@)[1]);
                    assert((("\"hosting\""@) + b)[1] == ("\"hosting\""@)[1]);
                    assert(("\"blackberry\""@)[1] == 'b');
                    assert(("\"hosting\""@)[1] == 'h');
                    assert(false);
                },
                crate::model::ProxyTypeView::Public => {
                    assert((("\"blackberry\""@) + a)[1] == ("\"blackberry\""@)[1]);
                    assert((("\"public\""@) + b)[1] == ("\"public\""@)[1]);
                    assert(("\"blackberry\""@)[1] == 'b');
                    assert(("\"public\""@)[1] == 'p');
                    assert(false);
                },
                crate::model::ProxyTypeView::Transparent => {
                    assert((("\"blackberry\""@) + a)[1] == ("\"blackberry\""@)[1]);
                    assert((("\"transparent\""@) + b)[1] == ("\"transparent\""@)[1]);
                    assert(("\"blackberry\""@)[1] == 'b');
                    assert(("\"transparent\""@)[1] == 't');
                    assert(false);
                },
                crate::model::ProxyTypeView::Unknown => {
                    assert((("\"blackberry\""@) + a)[1] == ("\"blackberry\""@)[1]);
                    assert((("\"?\""@) + b)[1] == ("\"?\""@)[1]);
                    assert(("\"blackberry\""@)[1] == 'b');
                    assert(("\"?\""@)[1] == '?');
                    assert(false);
                },
                crate::model::ProxyTypeView::Other(r) => {
                    assert((("\"blackberry\""@) + a)[0] == ("\"blackberry\""@)[0]);
                    assert(("\"blackberry\""@)[0] == '\"');
                    assert((("{\"other\":"@ + (jstr(r) + "}"@)) + b)[0] == ("{\"other\":"@ + (jstr(r) + "}"@))[0]);
                    assert(("{\"other\":"@ + (jstr(r) + "}"@))[0] == ("{\"other\":"@)[0]);
                    assert(("{\"other\":"@)[0] == '{');
                    assert(false);
                },
            }
        },
        crate::model::ProxyTypeView::Corporate => {
            match d {
                crate::model::ProxyTypeView::Anonymous => {
                    assert((("\"corporate\""@) + a)[1] == ("\"corporate\""@)[1]);
                    assert((("\"anonymous\""@) + b)[1] == ("\"anonymous\""@)[1]);
                    assert(("\"corporate\""@)[1] == 'c');
                    assert(("\"anonymous\""@)[1] == 'a');
                    assert(false);
                },
                crate::model::ProxyTypeView::Aol => {
                    assert((("\"corporate\""@) + a)[1] == ("\"corporate\""@)[1]);
                    assert((("\"aol\""@) + b)[1] == ("\"aol\""@)[1]);
                    assert(("\"corporate\""@)[1] == 'c');
                    assert(("\"aol\""@)[1] == 'a');
                    assert(false);
                },
                crate::model::ProxyTypeView::Blackberry => {
                    assert((("\"corporate\""@) + a)[1] == ("\"corporate\""@)[1]);
                    assert((("\"blackberry\""@) + b)[1] == ("\"blackberry\""@)[1]);
                    assert(("\"corporate\""@)[1] == 'c');
                    assert(("\"blackberry\""@)[1] == 'b');
                    assert(false);
                },
                crate::model::ProxyTypeView::Corporate => {
                    lemma_peel("\"corporate\""@, a, b);
                },
                crate::model::ProxyTypeView::Edu => {
                    assert((("\"corporate\""@) + a)[1] == ("\"corporate\""@)[1]);
                    assert((("\"edu\""@) + b)[1] == ("\"edu\""@)[1]);
                    assert(("\"corporate\""@)[1] == 'c');
                    assert(("\"edu\""@)[1] == 'e');
                    assert(false);
                },
                crate::model::ProxyTypeView::Hosting => {
                    assert((("\"corporate\""@) + a)[1] == ("\"corporate\""@)[1]);
                    assert((("\"hosting\""@) + b)[1] == ("\"hosting\""@)[1]);
                    assert(("\"corporate\""@)[1] == 'c');
                    assert(("\"hosting\""@)[1] == 'h');
                    assert(false);
                },
                crate::model::ProxyTypeView::Public => {
                    assert((("\"corporate\""@) + a)[1] == ("\"corporate\""@)[1]);
                    assert((("\"public\""@) + b)[1] == ("\"public\""@)[1]);
                    assert(("\"corporate\""@)[1] == 'c');
                    assert(("\"public\""@)[1] == 'p');
                    assert(false);
                },
                crate::model::ProxyTypeView::Transparent => {
                    assert((("\"corporate\""@) + a)[1] == ("\"corporate\""@)[1]);
                    assert((("\"transparent\""@) + b)[1] == ("\"transparent\""@)[1]);
                    assert(("\"corporate\""@)[1] == 'c');
                    assert(("\"transparent\""@)[1] == 't');
                    assert(false);
                },
                crate::model::ProxyTypeView::Unknown => {
                    assert((("\"corporate\""@) + a)[1] == ("\"corporate\""@)[1]);
                    assert((("\"?\""@) + b)[1] == ("\"?\""@)[1]);
                    assert(("\"corporate\""@)[1] == 'c');
                    assert(("\"?\""@)[1] == '?');
                    assert(false);
                },
                crate::model::ProxyTypeView::Other(r) => {
                    assert((("\"corporate\""@) + a)[0] == ("\"corporate\""@)[0]);
                    assert(("\"corporate\""@)[0] == '\"');
                    assert((("{\"other\":"@ + (jstr(r) + "}"@)) + b)[0] == ("{\"other\":"@ + (jstr(r) + "}"@))[0]);
                    assert(("{\"other\":"@ + (jstr(r) + "}"@))[0] == ("{\"other\":"@)[0]);
                    assert(("{\"other\":"@)[0] == '{');
                    assert(false);
                },
            }
        },
        crate::model::ProxyTypeView::Edu => {
            match d {
                crate::model::ProxyTypeView::Anonymous => {
                    assert((("\"edu\""@) + a)[1] == ("\"edu\""@)[1]);
                    assert((("\"anonymous\""@) + b)[1] == ("\"anonymous\""@)[1]);
                    assert(("\"edu\""@)[1] == 'e');
                    assert(("\"anonymous\""@)[1] == 'a');
                    assert(false);
                },
                crate::model::ProxyTypeView::Aol => {
                    assert((("\"edu\""@) + a)[1] == ("\"edu\""@)[1]);
                    assert((("\"aol\""@) + b)[1] == ("\"aol\""@)[1]);
                    assert(("\"edu\""@)[1] == 'e');
                    assert(("\"aol\""@)[1] == 'a');
                    assert(false);
                },
                crate::model::ProxyTypeView::Blackberry => {
                    assert((("\"edu\""@) + a)[1] == ("\"edu\""@)[1]);
                    assert((("\"blackberry\""@) + b)[1] == ("\"blackberry\""@)[1]);
                    assert(("\"edu\""@)[1] == 'e');
                    assert(("\"blackberry\""@)[1] == 'b');
                    assert(false);
                },
                crate::model::ProxyTypeView::Corporate => {
                    assert((("\"edu\""@) + a)[1] == ("\"edu\""@)[1]);
                    assert((("\"corporate\""@) + b)[1] == ("\"corporate\""@)[1]);
                    assert(("\"edu\""@)[1] == 'e');
                    assert(("\"corporate\""@)[1] == 'c');
                    assert(false);
                },
                crate::model::ProxyTypeView::Edu => {
                    lemma_peel("\"edu\""@, a, b);
                },
                crate::model::ProxyTypeView::Hosting => {
                    assert((("\"edu\""@) + a)[1] == ("\"edu\""@)[1]);
                    assert((("\"hosting\""@) + b)[1] == ("\"hosting\""@)[1]);
                    assert(("\"edu\""@)[1] == 'e');
                    assert(("\"hosting\""@)[1] == 'h');
                    assert(false);
                },
                crate::model::ProxyTypeView::Public => {
                    assert((("\"edu\""@) + a)[1] == ("\"edu\""@)[1]);
                    assert((("\"public\""@) + b)[1] == ("\"public\""@)[1]);
                    assert(("\"edu\""@)[1] == 'e');
                    assert(("\"public\""@)[1] == 'p');
                    assert(false);
                },
                crate::model::ProxyTypeView::Transparent => {
                    assert((("\"edu\""@) + a)[1] == ("\"edu\""@)[1]);
                    assert((("\"transparent\""@) + b)[1] == ("\"transparent\""@)[1]);
                    assert(("\"edu\""@)[1] == 'e');
                    assert(("\"transparent\""@)[1] == 't');
                    assert(false);
                },
                crate::model::ProxyTypeView::Unknown => {
                    assert((("\"edu\""@) + a)[1] == ("\"edu\""@)[1]);
                    assert((("\"?\""@) + b)[1] == ("\"?\""@)[1]);
                    assert(("\"edu\""@)[1] == 'e');
                    assert(("\"?\""@)[1] == '?');
                    assert(false);
                },
                crate::model::ProxyTypeView::Other(r) => {
                    assert((("\"edu\""@) + a)[0] == ("\"edu\""@)[0]);
                    assert(("\"edu\""@)[0] == '\"');
                    assert((("{\"other\":"@ + (jstr(r) + "}"@)) + b)[0] == ("{\"other\":"@ + (jstr(r) + "}"@))[0]);
                    assert(("{\"other\":"@ + (jstr(r) + "}"@))[0] == ("{\"other\":"@)[0]);
                    assert(("{\"other\":"@)[0] == '{');
                    assert(false);
                },
            }
        },
        crate::model::ProxyTypeView::Hosting => {
            match d {
                crate::model::ProxyTypeView::Anonymous => {
                    assert((("\"hosting\""@) + a)[1] == ("\"hosting\""@)[1]);
                    assert((("\"anonymous\""@) + b)[1] == ("\"anonymous\""@)[1]);
                    assert(("\"hosting\""@)[1] == 'h');
                    assert(("\"anonymous\""@)[1] == 'a');
                    assert(false);
                },
                crate::model::ProxyTypeView::Aol => {
                    assert((("\"hosting\""@) + a)[1] == ("\"hosting\""@)[1]);
                    assert((("\"aol\""@) + b)[1] == ("\"aol\""@)[1]);
                    assert(("\"hosting\""@)[1] == 'h');
                    assert(("\"aol\""@)[1] == 'a');
                    assert(false);
                },
                crate::model::ProxyTypeView::Blackberry => {
                    assert((("\"hosting\""@) + a)[1] == ("\"hosting\""@)[1]);
                    assert((("\"blackberry\""@) + b)[1] == ("\"blackberry\""@)[1]);
                    assert(("\"hosting\""@)[1] == 'h');
                    assert(("\"blackberry\""@)[1] == 'b');
                    assert(false);
                },
                crate::model::ProxyTypeView::Corporate => {
                    assert((("\"hosting\""@) + a)[1] == ("\"hosting\""@)[1]);
                    assert((("\"corporate\""@) + b)[1] == ("\"corporate\""@)[1]);
                    assert(("\"hosting\""@)[1] == 'h');
                    assert(("\"corporate\""@)[1] == 'c');
                    assert(false);
                },
                crate::model::ProxyTypeView::Edu => {
                    assert((("\"hosting\""@) + a)[1] == ("\"hosting\""@)[1]);
                    assert((("\"edu\""@) + b)[1] == ("\"edu\""@)[1]);
                    assert(("\"hosting\""@)[1] == 'h');
                    assert(("\"edu\""@)[1] == 'e');
                    assert(false);
                },
                crate::model::ProxyTypeView::Hosting => {
                    lemma_peel("\"hosting\""@, a, b);
                },
                crate::model::ProxyTypeView::Public => {
                    assert((("\"hosting\""@) + a)[1] == ("\"hosting\""@)[1]);
                    assert((("\"public\""@) + b)[1] == ("\"public\""@)[1]);
                    assert(("\"hosting\""@)[1] == 'h');
                    assert(("\"public\""@)[1] == 'p');
                    assert(false);
                },
                crate::model::ProxyTypeView::Transparent => {
                    assert((("\"hosting\""@) + a)[1] == ("\"hosting\""@)[1]);
                    assert((("\"transparent\""@) + b)[1] == ("\"transparent\""@)[1]);
                    assert(("\"hosting\""@)[1] == 'h');
                    assert(("\"transparent\""@)[1] == 't');
                    assert(false);
                },
                crate::model::ProxyTypeView::Unknown => {
                    assert((("\"hosting\""@) + a)[1] == ("\"hosting\""@)[1]);
                    assert((("\"?\""@) + b)[1] == ("\"?\""@)[1]);
                    assert(("\"hosting\""@)[1] == 'h');
                    assert(("\"?\""@)[1] == '?');
                    assert(false);
                },
                crate::model::ProxyTypeView::Other(r) => {
                    assert((("\"hosting\""@) + a)[0] == ("\"hosting\""@)[0]);
                    assert(("\"hosting\""@)[0] == '\"');
                    assert((("{\"other\":"@ + (jstr(r) + "}"@)) + b)[0] == ("{\"other\":"@ + (jstr(r) + "}"@))[0]);
                    assert(("{\"other\":"@ + (jstr(r) + "}"@))[0] == ("{\"other\":"@)[0]);
                    assert(("{\"other\":"@)[0] == '{');
                    assert(false);
                },
            }
        },
        crate::model::ProxyTypeView::Public => {
            match d {
                crate::model::ProxyTypeView::Anonymous => {
                    assert((("\"public\""@) + a)[1] == ("\"public\""@)[1]);
                    assert((("\"anonymous\""@) + b)[1] == ("\"anonymous\""@)[1]);
                    assert(("\"public\""@)[1] == 'p');
                    assert(("\"anonymous\""@)[1] == 'a');
                    assert(false);
                },
                crate::model::ProxyTypeView::Aol => {
                    assert((("\"public\""@) + a)[1] == ("\"public\""@)[1]);
                    assert((("\"aol\""@) + b)[1] == ("\"aol\""@)[1]);
                    assert(("\"public\""@)[1] == 'p');
                    assert(("\"aol\""@)[1] == 'a');
                    assert(false);
                },
                crate::model::ProxyTypeView::Blackberry => {
                    assert((("\"public\""@) + a)[1] == ("\"public\""@)[1]);
                    assert((("\"blackberry\""@) + b)[1] == ("\"blackberry\""@)[1]);
                    assert(("\"public\""@)[1] == 'p');
                    assert(("\"blackberry\""@)[1] == 'b');
                    assert(false);
                },
                crate::model::ProxyTypeView::Corporate => {
                    assert((("\"public\""@) + a)[1] == ("\"public\""@)[1]);
                    assert((("\"corporate\""@) + b)[1] == ("\"corporate\""@)[1]);
                    assert(("\"public\""@)[1] == 'p');
                    assert(("\"corporate\""@)[1] == 'c');
                    assert(false);
                },
                crate::model::ProxyTypeView::Edu => {
                    assert((("\"public\""@) + a)[1] == ("\"public\""@)[1]);
                    assert((("\"edu\""@) + b)[1] == ("\"edu\""@)[1]);
                    assert(("\"public\""@)[1] == 'p');
                    assert(("\"edu\""@)[1] == 'e');
                    assert(false);
                },
                crate::model::ProxyTypeView::Hosting => {
                    assert((("\"public\""@) + a)[1] == ("\"public\""@)[1]);
                    assert((("\"hosting\""@) + b)[1] == ("\"hosting\""@)[1]);
                    assert(("\"public\""@)[1] == 'p');
                    assert(("\"hosting\""@)[1] == 'h');
                    assert(false);
                },
                crate::model::ProxyTypeView::Public => {
                    lemma_peel("\"public\""@, a, b);
                },
                crate::model::ProxyTypeView::Transparent => {
                    assert((("\"public\""@) + a)[1] == ("\"public\""@)[1]);
                    assert((("\"transparent\""@) + b)[1] == ("\"transparent\""@)[1]);
                    assert(("\"public\""@)[1] == 'p');
                    assert(("\"transparent\""@)[1] == 't');
                    assert(false);
                },
                crate::model::ProxyTypeView::Unknown => {
                    assert((("\"public\""@) + a)[1] == ("\"public\""@)[1]);
                    assert((("\"?\""@) + b)[1] == ("\"?\""@)[1]);
                    assert(("\"public\""@)[1] == 'p');
                    assert(("\"?\""@)[1] == '?');
                    assert(false);
                },
                crate::model::ProxyTypeView::Other(r) => {
                    assert((("\"public\""@) + a)[0] == ("\"public\""@)[0]);
                    assert(("\"public\""@)[0] == '\"');
                    assert((("{\"other\":"@ + (jstr(r) + "}"@)) + b)[0] == ("{\"other\":"@ + (jstr(r) + "}"@))[0]);
                    assert(("{\"other\":"@ + (jstr(r) + "}"@))[0] == ("{\"other\":"@)[0]);
                    assert(("{\"other\":"@)[0] == '{');
                    assert(false);
                },
            }
        },
        crate::model::ProxyTypeView::Transparent => {
            match d {
                crate::model::ProxyTypeView::Anonymous => {
                    assert((("\"transparent\""@) + a)[1] == ("\"transparent\""@)[1]);
                    assert((("\"anonymous\""@) + b)[1] == ("\"anonymous\""@)[1]);
                    assert(("\"transparent\""@)[1] == 't');
                    assert(("\"anonymous\""@)[1] == 'a');
                    assert(false);
                },
                crate::model::ProxyTypeView::Aol => {
                    assert((("\"transparent\""@) + a)[1] == ("\"transparent\""@)[1]);
                    assert((("\"aol\""@) + b)[1] == ("\"aol\""@)[1]);
                    assert(("\"transparent\""@)[1] == 't');
                    assert(("\"aol\""@)[1] == 'a');
                    assert(false);
                },
                crate::model::ProxyTypeView::Blackberry => {
                    assert((("\"transparent\""@) + a)[1] == ("\"transparent\""@)[1]);
                    assert((("\"blackberry\""@) + b)[1] == ("\"blackberry\""@)[1]);
                    assert(("\"transparent\""@)[1] == 't');
                    assert(("\"blackberry\""@)[1] == 'b');
                    assert(false);
                },
                crate::model::ProxyTypeView::Corporate => {
                    assert((("\"transparent\""@) + a)[1] == ("\"transparent\""@)[1]);
                    assert((("\"corporate\""@) + b)[1] == ("\"corporate\""@)[1]);
                    assert(("\"transparent\""@)[1] == 't');
                    assert(("\"corporate\""@)[1] == 'c');
                    assert(false);
                },
                crate::model::ProxyTypeView::Edu => {
                    assert((("\"transparent\""@) + a)[1] == ("\"transparent\""@)[1]);
                    assert((("\"edu\""@) + b)[1] == ("\"edu\""@)[1]);
                    assert(("\"transparent\""@)[1] == 't');
                    assert(("\"edu\""@)[1] == 'e');
                    assert(false);
                },
                crate::model::ProxyTypeView::Hosting => {
                    assert((("\"transparent\""@) + a)[1] == ("\"transparent\""@)[1]);
                    assert((("\"hosting\""@) + b)[1] == ("\"hosting\""@)[1]);
                    assert(("\"transparent\""@)[1] == 't');
                    assert(("\"hosting\""@)[1] == 'h');
                    assert(false);
                },
                crate::model::ProxyTypeView::Public => {
                    assert((("\"transparent\""@) + a)[1] == ("\"transparent\""@)[1]);
                    assert((("\"public\""@) + b)[1] == ("\"public\""@)[1]);
                    assert(("\"transparent\""@)[1] == 't');
                    assert(("\"public\""@)[1] == 'p');
                    assert(false);
                },
                crate::model::ProxyTypeView::Transparent => {
                    lemma_peel("\"transparent\""@, a, b);
                },
                crate::model::ProxyTypeView::Unknown => {
                    assert((("\"transparent\""@) + a)[1] == ("\"transparent\""@)[1]);
                    assert((("\"?\""@) + b)[1] == ("\"?\""@)[1]);
                    assert(("\"transparent\""@)[1] == 't');
                    assert(("\"?\""@)[1] == '?');
                    assert(false);
                },
                crate::model::ProxyTypeView::Other(r) => {
                    assert((("\"transparent\""@) + a)[0] == ("\"transparent\""@)[0]);
                    assert(("\"transparent\""@)[0] == '\"');
                    assert((("{\"other\":"@ + (jstr(r) + "}"@)) + b)[0] == ("{\"other\":"@ + (jstr(r) + "}"@))[0]);
                    assert(("{\"other\":"@ + (jstr(r) + "}"@))[0] == ("{\"other\":"@)[0]);
                    assert(("{\"other\":"@)[0] == '{');
                    assert(false);
                },
            }
        },
        crate::model::ProxyTypeView::Unknown => {
            match d {
                crate::model::ProxyTypeView::Anonymous => {
                    assert((("\"?\""@) + a)[1] == ("\"?\""@)[1]);
                    assert((("\"anonymous\""@) + b)[1] == ("\"anonymous\""@)[1]);
                    assert(("\"?\""@)[1] == '?');
                    assert(("\"anonymous\""@)[1] == 'a');
                    assert(false);
                },
                crate::model::ProxyTypeView::Aol => {
                    assert((("\"?\""@) + a)[1] == ("\"?\""@)[1]);
                    assert((("\"aol\""@) + b)[1] == ("\"aol\""@)[1]);
                    assert(("\"?\""@)[1] == '?');
                    assert(("\"aol\""@)[1] == 'a');
                    assert(false);
                },
                crate::model::ProxyTypeView::Blackberry => {
                    assert((("\"?\""@) + a)[1] == ("\"?\""@)[1]);
                    assert((("\"blackberry\""@) + b)[1] == ("\"blackberry\""@)[1]);
                    assert(("\"?\""@)[1] == '?');
                    assert(("\"blackberry\""@)[1] == 'b');
                    assert(false);
                },
                crate::model::ProxyTypeView::Corporate => {
                    assert((("\"?\""@) + a)[1] == ("\"?\""@)[1]);
                    assert((("\"corporate\""@) + b)[1] == ("\"corporate\""@)[1]);
                    assert(("\"?\""@)[1] == '?');
                    assert(("\"corporate\""@)[1] == 'c');
                    assert(false);
                },
                crate::model::ProxyTypeView::Edu => {
                    assert((("\"?\""@) + a)[1] == ("\"?\""@)[1]);
                    assert((("\"edu\""@) + b)[1] == ("\"edu\""@)[1]);
                    assert(("\"?\""@)[1] == '?');
                    assert(("\"edu\""@)[1] == 'e');
                    assert(false);
                },
                crate::model::ProxyTypeView::Hosting => {
                    assert((("\"?\""@) + a)[1] == ("\"?\""@)[1]);
                    assert((("\"hosting\""@) + b)[1] == ("\"hosting\""@)[1]);
                    assert(("\"?\""@)[1] == '?');
                    assert(("\"hosting\""@)[1] == 'h');
                    assert(false);
                },
                crate::model::ProxyTypeView::Public => {
                    assert((("\"?\""@) + a)[1] == ("\"?\""@)[1]);
                    assert((("\"public\""@) + b)[1] == ("\"public\""@)[1]);
                    assert(("\"?\""@)[1] == '?');
                    assert(("\"public\""@)[1] == 'p');
                    assert(false);
                },
                crate::model::ProxyTypeView::Transparent => {
                    assert((("\"?\""@) + a)[1] == ("\"?\""@)[1]);
                    assert((("\"transparent\""@) + b)[1] == ("\"transparent\""@)[1]);
                    assert(("\"?\""@)[1] == '?');
                    assert(("\"transparent\""@)[1] == 't');
                    assert(false);
                },
                crate::model::ProxyTypeView::Unknown => {
                    lemma_peel("\"?\""@, a, b);
                },
                crate::model::ProxyTypeView::Other(r) => {
                    assert((("\"?\""@) + a)[0] == ("\"?\""@)[0]);
                    assert(("\"?\""@)[0] == '\"');
                    assert((("{\"other\":"@ + (jstr(r) + "}"@)) + b)[0] == ("{\"other\":"@ + (jstr(r) + "}"@))[0]);
                    assert(("{\"other\":"@ + (jstr(r) + "}"@))[0] == ("{\"other\":"@)[0]);
                    assert(("{\"other\":"@)[0] == '{');
                    assert(false);
                },
            }
        },
        crate::model::ProxyTypeView::Other(s) => {
            match d {
                crate::model::ProxyTypeView::Anonymous => {
                    assert((("\"anonymous\""@) + b)[0] == ("\"anonymous\""@)[0]);
                    assert(("\"anonymous\""@)[0] == '\"');
                    assert((("{\"other\":"@ + (jstr(s) + "}"@)) + a)[0] == ("{\"other\":"@ + (jstr(s) + "}"@))[0]);
                    assert(("{\"other\":"@ + (jstr(s) + "}"@))[0] == ("{\"other\":"@)[0]);
                    assert(("{\"other\":"@)[0] == '{');
                    assert(false);
                },
                crate::model::ProxyTypeView::Aol => {
                    assert((("\"aol\""@) + b)[0] == ("\"aol\""@)[0]);
                    assert(("\"aol\""@)[0] == '\"');
                    assert((("{\"other\":"@ + (jstr(s) + "}"@)) + a)[0] == ("{\"other\":"@ + (jstr(s) + "}"@))[0]);
                    assert(("{\"other\":"@ + (jstr(s) + "}"@))[0] == ("{\"other\":"@)[0]);
                    assert(("{\"other\":"@)[0] == '{');
                    assert(false);
                },
                crate::model::ProxyTypeView::Blackberry => {
                    assert((("\"blackberry\""@) + b)[0] == ("\"blackberry\""@)[0]);
                    assert(("\"blackberry\""@)[0] == '\"');
                    assert((("{\"other\":"@ + (jstr(s) + "}"@)) + a)[0] == ("{\"other\":"@ + (jstr(s) + "}"@))[0]);
                    assert(("{\"other\":"@ + (jstr(s) + "}"@))[0] == ("{\"other\":"@)[0]);
                    assert(("{\"other\":"@)[0] == '{');
                    assert(false);
                },
                crate::model::ProxyTypeView::Corporate => {
                    assert((("\"corporate\""@) + b)[0] == ("\"corporate\""@)[0]);
                    assert(("\"corporate\""@)[0] == '\"');
                    assert((("{\"other\":"@ + (jstr(s) + "}"@)) + a)[0] == ("{\"other\":"@ + (jstr(s) + "}"@))[0]);
                    assert(("{\"other\":"@ + (jstr(s) + "}"@))[0] == ("{\"other\":"@)[0]);
                    assert(("{\"other\":"@)[0] == '{');
                    assert(false);
                },
                crate::model::ProxyTypeView::Edu => {
                    assert((("\"edu\""@) + b)[0] == ("\"edu\""@)[0]);
                    assert(("\"edu\""@)[0] == '\"');
                    assert((("{\"other\":"@ + (jstr(s) + "}"@)) + a)[0] == ("{\"other\":"@ + (jstr(s) + "}"@))[0]);
                    assert(("{\"other\":"@ + (jstr(s) + "}"@))[0] == ("{\"other\":"@)[0]);
                    assert(("{\"other\":"@)[0] == '{');
                    assert(false);
                },
                crate::model::ProxyTypeView::Hosting => {
                    assert((("\"hosting\""@) + b)[0] == ("\"hosting\""@)[0]);
                    assert(("\"hosting\""@)[0] == '\"');
                    assert((("{\"other\":"@ + (jstr(s) + "}"@)) + a)[0] == ("{\"other\":"@ + (jstr(s) + "}"@))[0]);
                    assert(("{\"other\":"@ + (jstr(s) + "}"@))[0] == ("{\"other\":"@)[0]);
                    assert(("{\"other\":"@)[0] == '{');
                    assert(false);
                },
                crate::model::ProxyTypeView::Public => {
                    assert((("\"public\""@) + b)[0] == ("\"public\""@)[0]);
                    assert(("\"public\""@)[0] == '\"');
                    assert((("{\"other\":"@ + (jstr(s) + "}"@)) + a)[0] == ("{\"other\":"@ + (jstr(s) + "}"@))[0]);
                    assert(("{\"other\":"@ + (jstr(s) + "}"@))[0] == ("{\"other\":"@)[0]);
                    assert(("{\"other\":"@)[0] == '{');
                    assert(false);
                },
                crate::model::ProxyTypeView::Transparent => {
                    assert((("\"transparent\""@) + b)[0] == ("\"transparent\""@)[0]);
                    assert(("\"transparent\""@)[0] == '\"');
                    assert((("{\"other\":"@ + (jstr(s) + "}"@)) + a)[0] == ("{\"other\":"@ + (jstr(s) + "}"@))[0]);
                    assert(("{\"other\":"@ + (jstr(s) + "}"@))[0] == ("{\"other\":"@)[0]);
                    assert(("{\"other\":"@)[0] == '{');
                    assert(false);
                },
                crate::model::ProxyTypeView::Unknown => {
                    assert((("\"?\""@) + b)[0] == ("\"?\""@)[0]);
                    assert(("\"?\""@)[0] == '\"');
                    assert((("{\"other\":"@ + (jstr(s) + "}"@)) + a)[0] == ("{\"other\":"@ + (jstr(s) + "}"@))[0]);
                    assert(("{\"other\":"@ + (jstr(s) + "}"@))[0] == ("{\"other\":"@)[0]);
                    assert(("{\"other\":"@)[0] == '{');
                    assert(false);
                },
                crate::model::ProxyTypeView::Other(r) => {
                    assert(("{\"other\":"@ + (jstr(s) + "}"@)) + a =~= "{\"other\":"@ + (jstr(s) + ("}"@ + a)));
                    assert(("{\"other\":"@ + (jstr(r) + "}"@)) + b =~= "{\"other\":"@ + (jstr(r) + ("}"@ + b)));
                    lemma_peel("{\"other\":"@, jstr(s) + ("}"@ + a), jstr(r) + ("}"@ + b));
                    lemma_jstr_det(s, r, "}"@ + a, "}"@ + b);
                    lemma_peel("}"@, a, b);
                },
            }
        },
    }
}

/// A proxy description fragment determines its value and the text after it.
#[verifier::rlimit(100)]
pub proof fn lemma_proxy_description_det(c: crate::model::ProxyDescriptionView, d: crate::model::ProxyDescriptionView, a: Seq<char>, b: Seq<char>)
    requires
        (proxy_description_json(c) + a) == (proxy_description_json(d) + b),
    ensures
        c == d,
        a == b,
{
    reveal_strlit("\"cloud\"");
    reveal_strlit("\"cloud-security\"");
    reveal_strlit("\"dns\"");
    reveal_strlit("\"tor-exit\"");
    reveal_strlit("\"tor-relay\"");
    reveal_strlit("\"vpn\"");
    reveal_strlit("\"web-browser\"");
    reveal_strlit("\"?\"");
    reveal_strlit("{\"other\":");
    match c {
        crate::model::ProxyDescriptionView::Cloud => {
            match d {
                crate::model::ProxyDescriptionView::Cloud => {
                    lemma_peel("\"cloud\""@, a, b);
                },
                crate::model::ProxyDescriptionView::CloudSecurity => {
                    assert((("\"cloud\""@) + a)[6] == ("\"cloud\""@)[6]);
                    assert((("\"cloud-security\""@) + b)[6] == ("\"cloud-security\""@)[6]);
                    assert(("\"cloud\""@)[6] == '\"');
                    assert(("\"cloud-security\""@)[6] == '-');
                    assert(false);
                },
                crate::model::ProxyDescriptionView::Dns => {
                    assert((("\"cloud\""@) + a)[1] == ("\"cloud\""@)[1]);
                    assert((("\"dns\""@) + b)[1] == ("\"dns\""@)[1]);
                    assert(("\"cloud\""@)[1] == 'c');
                    assert(("\"dns\""@)[1] == 'd');
                    assert(false);
                },
                crate::model::ProxyDescriptionView::TorExit => {
                    assert((("\"cloud\""@) + a)[1] == ("\"cloud\""@)[1]);
                    assert((("\"tor-exit\""@) + b)[1] == ("\"tor-exit\""@)[1]);
                    assert(("\"cloud\""@)[1] == 'c');
                    assert(("\"tor-exit\""@)[1] == 't');
                    assert(false);
                },
                crate::model::ProxyDescriptionView::TorRelay => {
                    assert((("\"cloud\""@) + a)[1] == ("\"cloud\""@)[1]);
                    assert((("\"tor-relay\""@) + b)[1] == ("\"tor-relay\""@)[1]);
                    assert(("\"cloud\""@)[1] == 'c');
                    assert(("\"tor-relay\""@)[1] == 't');
                    assert(false);
                },
                crate::model::ProxyDescriptionView::Vpn => {
                    assert((("\"cloud\""@) + a)[1] == ("\"cloud\""@)[1]);
                    assert((("\"vpn\""@) + b)[1] == ("\"vpn\""@)[1]);
                    assert(("\"cloud\""@)[1] == 'c');
                    assert(("\"vpn\""@)[1] == 'v');
                    assert(false);
                },
                crate::model::ProxyDescriptionView::WebBrowser => {
                    assert((("\"cloud\""@) + a)[1] == ("\"cloud\""@)[1]);
                    assert((("\"web-browser\""@) + b)[1] == ("\"web-browser\""@)[1]);
                    assert(("\"cloud\""@)[1] == 'c');
                    assert(("\"web-browser\""@)[1] == 'w');
                    assert(false);
                },
                crate::model::ProxyDescriptionView::Unknown => {
                    assert((("\"cloud\""@) + a)[1] == ("\"cloud\""@)[1]);
                    assert((("\"?\""@) + b)[1] == ("\"?\""@)[1]);
                    assert(("\"cloud\""@)[1] == 'c');
                    assert(("\"?\""@)[1] == '?');
                    assert(false);
                },
                crate::model::ProxyDescriptionView::Other(r) => {
                    assert((("\"cloud\""@) + a)[0] == ("\"cloud\""@)[0]);
                    assert(("\"cloud\""@)[0] == '\"');
                    assert((("{\"other\":"@ + (jstr(r) + "}"@)) + b)[0] == ("{\"other\":"@ + (jstr(r) + "}"@))[0]);
                    assert(("{\"other\":"@ + (jstr(r) + "}"@))[0] == ("{\"other\":"@)[0]);
                    assert(("{\"other\":"@)[0] == '{');
                    assert(false);
                },
            }
        },
        crate::model::ProxyDescriptionView::CloudSecurity => {
            match d {
                crate::model::ProxyDescriptionView::Cloud => {
                    assert((("\"cloud-security\""@) + a)[6] == ("\"cloud-security\""@)[6]);
                    assert((("\"cloud\""@) + b)[6] == ("\"cloud\""@)[6]);
                    assert(("\"cloud-security\""@)[6] == '-');
                    assert(("\"cloud\""@)[6] == '\"');
                    assert(false);
                },
                crate::model::ProxyDescriptionView::CloudSecurity => {
                    lemma_peel("\"cloud-security\""@, a, b);
                },
                crate::model::ProxyDescriptionView::Dns => {
                    assert((("\"cloud-security\""@) + a)[1] == ("\"cloud-security\""@)[1]);
                    assert((("\"dns\""@) + b)[1] == ("\"dns\""@)[1]);
                    assert(("\"cloud-security\""@)[1] == 'c');
                    assert(("\"dns\""@)[1] == 'd');
                    assert(false);
                },
                crate::model::ProxyDescriptionView::TorExit => {
                    assert((("\"cloud-security\""@) + a)[1] == ("\"cloud-security\""@)[1]);
                    assert((("\"tor-exit\""@) + b)[1] == ("\"tor-exit\""@)[1]);
                    assert(("\"cloud-security\""@)[1] == 'c');
                    assert(("\"tor-exit\""@)[1] == 't');
                    assert(false);
                },
                crate::model::ProxyDescriptionView::TorRelay => {
                    assert((("\"cloud-security\""@) + a)[1] == ("\"cloud-security\""@)[1]);
                    assert((("\"tor-relay\""@) + b)[1] == ("\"tor-relay\""@)[1]);
                    assert(("\"cloud-security\""@)[1] == 'c');
                    assert(("\"tor-relay\""@)[1] == 't');
                    assert(false);
                },
                crate::model::ProxyDescriptionView::Vpn => {
                    assert((("\"cloud-security\""@) + a)[1] == ("\"cloud-security\""@)[1]);
                    assert((("\"vpn\""@) + b)[1] == ("\"vpn\""@)[1]);
                    assert(("\"cloud-security\""@)[1] == 'c');
                    assert(("\"vpn\""@)[1] == 'v');
                    assert(false);
                },
                crate::model::ProxyDescriptionView::WebBrowser => {
                    assert((("\"cloud-security\""@) + a)[1] == ("\"cloud-security\""@)[1]);
                    assert((("\"web-browser\""@) + b)[1] == ("\"web-browser\""@)[1]);
                    assert(("\"cloud-security\""@)[1] == 'c');
                    assert(("\"web-browser\""@)[1] == 'w');
                    assert(false);
                },
                crate::model::ProxyDescriptionView::Unknown => {
                    assert((("\"cloud-security\""@) + a)[1] == ("\"cloud-security\""@)[1]);
                    assert((("\"?\""@) + b)[1] == ("\"?\""@)[1]);
                    assert(("\"cloud-security\""@)[1] == 'c');
                    assert(("\"?\""@)[1] == '?');
                    assert(false);
                },
                crate::model::ProxyDescriptionView::Other(r) => {
                    assert((("\"cloud-security\""@) + a)[0] == ("\"cloud-security\""@)[0]);
                    assert(("\"cloud-security\""@)[0] == '\"');
                    assert((("{\"other\":"@ + (jstr(r) + "}"@)) + b)[0] == ("{\"other\":"@ + (jstr(r) + "}"@))[0]);
                    assert(("{\"other\":"@ + (jstr(r) + "}"@))[0] == ("{\"other\":"@)[0]);
                    assert(("{\"other\":"@)[0] == '{');
                    assert(false);
                },
            }
        },
        crate::model::ProxyDescriptionView::Dns => {
            match d {
                crate::model::ProxyDescriptionView::Cloud => {
                    assert((("\"dns\""@) + a)[1] == ("\"dns\""@)[1]);
                    assert((("\"cloud\""@) + b)[1] == ("\"cloud\""@)[1]);
                    assert(("\"dns\""@)[1] == 'd');
                    assert(("\"cloud\""@)[1] == 'c');
                    assert(false);
                },
                crate::model::ProxyDescriptionView::CloudSecurity => {
                    assert((("\"dns\""@) + a)[1] == ("\"dns\""@)[1]);
                    assert((("\"cloud-security\""@) + b)[1] == ("\"cloud-security\""@)[1]);
                    assert(("\"dns\""@)[1] == 'd');
                    assert(("\"cloud-security\""@)[1] == 'c');
                    assert(false);
                },
                crate::model::ProxyDescriptionView::Dns => {
                    lemma_peel("\"dns\""@, a, b);
                },
                crate::model::ProxyDescriptionView::TorExit => {
                    assert((("\"dns\""@) + a)[1] == ("\"dns\""@)[1]);
                    assert((("\"tor-exit\""@) + b)[1] == ("\"tor-exit\""@)[1]);
                    assert(("\"dns\""@)[1] == 'd');
                    assert(("\"tor-exit\""@)[1] == 't');
                    assert(false);
                },
                crate::model::ProxyDescriptionView::TorRelay => {
                    assert((("\"dns\""@) + a)[1] == ("\"dns\""@)[1]);
                    assert((("\"tor-relay\""@) + b)[1] == ("\"tor-relay\""@)[1]);
                    assert(("\"dns\""@)[1] == 'd');
                    assert(("\"tor-relay\""@)[1] == 't');
                    assert(false);
                },
                crate::model::ProxyDescriptionView::Vpn => {
                    assert((("\"dns\""@) + a)[1] == ("\"dns\""@)[1]);
                    assert((("\"vpn\""@) + b)[1] == ("\"vpn\""@)[1]);
                    assert(("\"dns\""@)[1] == 'd');
                    assert(("\"vpn\""@)[1] == 'v');
                    assert(false);
                },
                crate::model::ProxyDescriptionView::WebBrowser => {
                    assert((("\"dns\""@) + a)[1] == ("\"dns\""@)[1]);
                    assert((("\"web-browser\""@) + b)[1] == ("\"web-browser\""@)[1]);
                    assert(("\"dns\""@)[1] == 'd');
                    assert(("\"web-browser\""@)[1] == 'w');
                    assert(false);
                },
                crate::model::ProxyDescriptionView::Unknown => {
                    assert((("\"dns\""@) + a)[1] == ("\"dns\""@)[1]);
                    assert((("\"?\""@) + b)[1] == ("\"?\""@)[1]);
                    assert(("\"dns\""@)[1] == 'd');
                    assert(("\"?\""@)[1] == '?');
                    assert(false);
                },
                crate::model::ProxyDescriptionView::Other(r) => {
                    assert((("\"dns\""@) + a)[0] == ("\"dns\""@)[0]);
                    assert(("\"dns\""@)[0] == '\"');
                    assert((("{\"other\":"@ + (jstr(r) + "}"@)) + b)[0] == ("{\"other\":"@ + (jstr(r) + "}"@))[0]);
                    assert(("{\"other\":"@ + (jstr(r) + "}"@))[0] == ("{\"other\":"@)[0]);
                    assert(("{\"other\":"@)[0] == '{');
                    assert(false);
                },
            }
        },
        crate::model::ProxyDescriptionView::TorExit => {
            match d {
                crate::model::ProxyDescriptionView::Cloud => {
                    assert((("\"tor-exit\""@) + a)[1] == ("\"tor-exit\""@)[1]);
                    assert((("\"cloud\""@) + b)[1] == ("\"cloud\""@)[1]);
                    assert(("\"tor-exit\""@)[1] == 't');
                    assert(("\"cloud\""@)[1] == 'c');
                    assert(false);
                },
                crate::model::ProxyDescriptionView::CloudSecurity => {
                    assert((("\"tor-exit\""@) + a)[1] == ("\"tor-exit\""@)[1]);
                    assert((("\"cloud-security\""@) + b)[1] == ("\"cloud-security\""@)[1]);
                    assert(("\"tor-exit\""@)[1] == 't');
                    assert(("\"cloud-security\""@)[1] == 'c');
                    assert(false);
                },
                crate::model::ProxyDescriptionView::Dns => {
                    assert((("\"tor-exit\""@) + a)[1] == ("\"tor-exit\""@)[1]);
                    assert((("\"dns\""@) + b)[1] == ("\"dns\""@)[1]);
                    assert(("\"tor-exit\""@)[1] == 't');
                    assert(("\"dns\""@)[1] == 'd');
                    assert(false);
                },
                crate::model::ProxyDescriptionView::TorExit => {
                    lemma_peel("\"tor-exit\""@, a, b);
                },
                crate::model::ProxyDescriptionView::TorRelay => {
                    assert((("\"tor-exit\""@) + a)[5] == ("\"tor-exit\""@)[5]);
                    assert((("\"tor-relay\""@) + b)[5] == ("\"tor-relay\""@)[5]);
                    assert(("\"tor-exit\""@)[5] == 'e');
                    assert(("\"tor-relay\""@)[5] == 'r');
                    assert(false);
                },
                crate::model::ProxyDescriptionView::Vpn => {
                    assert((("\"tor-exit\""@) + a)[1] == ("\"tor-exit\""@)[1]);
                    assert((("\"vpn\""@) + b)[1] == ("\"vpn\""@)[1]);
                    assert(("\"tor-exit\""@)[1] == 't');
                    assert(("\"vpn\""@)[1] == 'v');
                    assert(false);
                },
                crate::model::ProxyDescriptionView::WebBrowser => {
                    assert((("\"tor-exit\""@) + a)[1] == ("\"tor-exit\""@)[1]);
                    assert((("\"web-browser\""@) + b)[1] == ("\"web-browser\""@)[1]);
                    assert(("\"tor-exit\""@)[1] == 't');
                    assert(("\"web-browser\""@)[1] == 'w');
                    assert(false);
                },
                crate::model::ProxyDescriptionView::Unknown => {
                    assert((("\"tor-exit\""@) + a)[1] == ("\"tor-exit\""@)[1]);
                    assert((("\"?\""@) + b)[1] == ("\"?\""@)[1]);
                    assert(("\"tor-exit\""@)[1] == 't');
                    assert(("\"?\""@)[1] == '?');
                    assert(false);
                },
                crate::model::ProxyDescriptionView::Other(r) => {
                    assert((("\"tor-exit\""@) + a)[0] == ("\"tor-exit\""@)[0]);
                    assert(("\"tor-exit\""@)[0] == '\"');
                    assert((("{\"other\":"@ + (jstr(r) + "}"@)) + b)[0] == ("{\"other\":"@ + (jstr(r) + "}"@))[0]);
                    assert(("{\"other\":"@ + (jstr(r) + "}"@))[0] == ("{\"other\":"@)[0]);
                    assert(("{\"other\":"@)[0] == '{');
                    assert(false);
                },
            }
        },
        crate::model::ProxyDescriptionView::TorRelay => {
            match d {
                crate::model::ProxyDescriptionView::Cloud => {
                    assert((("\"tor-relay\""@) + a)[1] == ("\"tor-relay\""@)[1]);
                    assert((("\"cloud\""@) + b)[1] == ("\"cloud\""@)[1]);
                    assert(("\"tor-relay\""@)[1] == 't');
                    assert(("\"cloud\""@)[1] == 'c');
                    assert(false);
                },
                crate::model::ProxyDescriptionView::CloudSecurity => {
                    assert((("\"tor-relay\""@) + a)[1] == ("\"tor-relay\""@)[1]);
                    assert((("\"cloud-security\""@) + b)[1] == ("\"cloud-security\""@)[1]);
                    assert(("\"tor-relay\""@)[1] == 't');
                    assert(("\"cloud-security\""@)[1] == 'c');
                    assert(false);
                },
                crate::model::ProxyDescriptionView::Dns => {
                    assert((("\"tor-relay\""@) + a)[1] == ("\"tor-relay\""@)[1]);
                    assert((("\"dns\""@) + b)[1] == ("\"dns\""@)[1]);
                    assert(("\"tor-relay\""@)[1] == 't');
                    assert(("\"dns\""@)[1] == 'd');
                    assert(false);
                },
                crate::model::ProxyDescriptionView::TorExit => {
                    assert((("\"tor-relay\""@) + a)[5] == ("\"tor-relay\""@)[5]);
                    assert((("\"tor-exit\""@) + b)[5] == ("\"tor-exit\""@)[5]);
                    assert(("\"tor-relay\""@)[5] == 'r');
                    assert(("\"tor-exit\""@)[5] == 'e');
                    assert(false);
                },
                crate::model::ProxyDescriptionView::TorRelay => {
                    lemma_peel("\"tor-relay\""@, a, b);
                },
                crate::model::ProxyDescriptionView::Vpn => {
                    assert((("\"tor-relay\""@) + a)[1] == ("\"tor-relay\""@)[1]);
                    assert((("\"vpn\""@) + b)[1] == ("\"vpn\""@)[1]);
                    assert(("\"tor-relay\""@)[1] == 't');
                    assert(("\"vpn\""@)[1] == 'v');
                    assert(false);
                },
                crate::model::ProxyDescriptionView::WebBrowser => {
                    assert((("\"tor-relay\""@) + a)[1] == ("\"tor-relay\""@)[1]);
                    assert((("\"web-browser\""@) + b)[1] == ("\"web-browser\""@)[1]);
                    assert(("\"tor-relay\""@)[1] == 't');
                    assert(("\"web-browser\""@)[1] == 'w');
                    assert(false);
                },
                crate::model::ProxyDescriptionView::Unknown => {
                    assert((("\"tor-relay\""@) + a)[1] == ("\"tor-relay\""@)[1]);
                    assert((("\"?\""@) + b)[1] == ("\"?\""@)[1]);
                    assert(("\"tor-relay\""@)[1] == 't');
                    assert(("\"?\""@)[1] == '?');
                    assert(false);
                },
                crate::model::ProxyDescriptionView::Other(r) => {
                    assert((("\"tor-relay\""@) + a)[0] == ("\"tor-relay\""@)[0]);
                    assert(("\"tor-relay\""@)[0] == '\"');
                    assert((("{\"other\":"@ + (jstr(r) + "}"@)) + b)[0] == ("{\"other\":"@ + (jstr(r) + "}"@))[0]);
                    assert(("{\"other\":"@ + (jstr(r) + "}"@))[0] == ("{\"other\":"@)[0]);
                    assert(("{\"other\":"@)[0] == '{');
                    assert(false);
                },
            }
        },
        crate::model::ProxyDescriptionView::Vpn => {
            match d {
                crate::model::ProxyDescriptionView::Cloud => {
                    assert((("\"vpn\""@) + a)[1] == ("\"vpn\""@)[1]);
                    assert((("\"cloud\""@) + b)[1] == ("\"cloud\""@)[1]);
                    assert(("\"vpn\""@)[1] == 'v');
                    assert(("\"cloud\""@)[1] == 'c');
                    assert(false);
                },
                crate::model::ProxyDescriptionView::CloudSecurity => {
                    assert((("\"vpn\""@) + a)[1] == ("\"vpn\""@)[1]);
                    assert((("\"cloud-security\""@) + b)[1] == ("\"cloud-security\""@)[1]);
                    assert(("\"vpn\""@)[1] == 'v');
                    assert(("\"cloud-security\""@)[1] == 'c');
                    assert(false);
                },
                crate::model::ProxyDescriptionView::Dns => {
                    assert((("\"vpn\""@) + a)[1] == ("\"vpn\""@)[1]);
                    assert((("\"dns\""@) + b)[1] == ("\"dns\""@)[1]);
                    assert(("\"vpn\""@)[1] == 'v');
                    assert(("\"dns\""@)[1] == 'd');
                    assert(false);
                },
                crate::model::ProxyDescriptionView::TorExit => {
                    assert((("\"vpn\""@) + a)[1] == ("\"vpn\""@)[1]);
                    assert((("\"tor-exit\""@) + b)[1] == ("\"tor-exit\""@)[1]);
                    assert(("\"vpn\""@)[1] == 'v');
                    assert(("\"tor-exit\""@)[1] == 't');
                    assert(false);
                },
                crate::model::ProxyDescriptionView::TorRelay => {
                    assert((("\"vpn\""@) + a)[1] == ("\"vpn\""@)[1]);
                    assert((("\"tor-relay\""@) + b)[1] == ("\"tor-relay\""@)[1]);
                    assert(("\"vpn\""@)[1] == 'v');
                    assert(("\"tor-relay\""@)[1] == 't');
                    assert(false);
                },
                crate::model::ProxyDescriptionView::Vpn => {
                    lemma_peel("\"vpn\""@, a, b);
                },
                crate::model::ProxyDescriptionView::WebBrowser => {
                    assert((("\"vpn\""@) + a)[1] == ("\"vpn\""@)[1]);
                    assert((("\"web-browser\""@) + b)[1] == ("\"web-browser\""@)[1]);
                    assert(("\"vpn\""@)[1] == 'v');
                    assert(("\"web-browser\""@)[1] == 'w');
                    assert(false);
                },
                crate::model::ProxyDescriptionView::Unknown => {
                    assert((("\"vpn\""@) + a)[1] == ("\"vpn\""@)[1]);
                    assert((("\"?\""@) + b)[1] == ("\"?\""@)[1]);
                    assert(("\"vpn\""@)[1] == 'v');
                    assert(("\"?\""@)[1] == '?');
                    assert(false);
                },
                crate::model::ProxyDescriptionView::Other(r) => {
                    assert((("\"vpn\""@) + a)[0] == ("\"vpn\""@)[0]);
                    assert(("\"vpn\""@)[0] == '\"');
                    assert((("{\"other\":"@ + (jstr(r) + "}"@)) + b)[0] == ("{\"other\":"@ + (jstr(r) + "}"@))[0]);
                    assert(("{\"other\":"@ + (jstr(r) + "}"@))[0] == ("{\"other\":"@)[0]);
                    assert(("{\"other\":"@)[0] == '{');
                    assert(false);
                },
            }
        },
        crate::model::ProxyDescriptionView::WebBrowser => {
            match d {
                crate::model::ProxyDescriptionView::Cloud => {
                    assert((("\"web-browser\""@) + a)[1] == ("\"web-browser\""@)[1]);
                    assert((("\"cloud\""@) + b)[1] == ("\"cloud\""@)[1]);
                    assert(("\"web-browser\""@)[1] == 'w');
                    assert(("\"cloud\""@)[1] == 'c');
                    assert(false);
                },
                crate::model::ProxyDescriptionView::CloudSecurity => {
                    assert((("\"web-browser\""@) + a)[1] == ("\"web-browser\""@)[1]);
                    assert((("\"cloud-security\""@) + b)[1] == ("\"cloud-security\""@)[1]);
                    assert(("\"web-browser\""@)[1] == 'w');
                    assert(("\"cloud-security\""@)[1] == 'c');
                    assert(false);
                },
                crate::model::ProxyDescriptionView::Dns => {
                    assert((("\"web-browser\""@) + a)[1] == ("\"web-browser\""@)[1]);
                    assert((("\"dns\""@) + b)[1] == ("\"dns\""@)[1]);
                    assert(("\"web-browser\""@)[1] == 'w');
                    assert(("\"dns\""@)[1] == 'd');
                    assert(false);
                },
                crate::model::ProxyDescriptionView::TorExit => {
                    assert((("\"web-browser\""@) + a)[1] == ("\"web-browser\""@)[1]);
                    assert((("\"tor-exit\""@) + b)[1] == ("\"tor-exit\""@)[1]);
                    assert(("\"web-browser\""@)[1] == 'w');
                    assert(("\"tor-exit\""@)[1] == 't');
                    assert(false);
                },
                crate::model::ProxyDescriptionView::TorRelay => {
                    assert((("\"web-browser\""@) + a)[1] == ("\"web-browser\""@)[1]);
                    assert((("\"tor-relay\""@) + b)[1] == ("\"tor-relay\""@)[1]);
                    assert(("\"web-browser\""@)[1] == 'w');
                    assert(("\"tor-relay\""@)[1] == 't');
                    assert(false);
                },
                crate::model::ProxyDescriptionView::Vpn => {
                    assert((("\"web-browser\""@) + a)[1] == ("\"web-browser\""@)[1]);
                    assert((("\"vpn\""@) + b)[1] == ("\"vpn\""@)[1]);
                    assert(("\"web-browser\""@)[1] == 'w');
                    assert(("\"vpn\""@)[1] == 'v');
                    assert(false);
                },
                crate::model::ProxyDescriptionView::WebBrowser => {
                    lemma_peel("\"web-browser\""@, a, b);
                },
                crate::model::ProxyDescriptionView::Unknown => {
                    assert((("\"web-browser\""@) + a)[1] == ("\"web-browser\""@)[1]);
                    assert((("\"?\""@) + b)[1] == ("\"?\""@)[1]);
                    assert(("\"web-browser\""@)[1] == 'w');
                    assert(("\"?\""@)[1] == '?');
                    assert(false);
                },
                crate::model::ProxyDescriptionView::Other(r) => {
                    assert((("\"web-browser\""@) + a)[0] == ("\"web-browser\""@)[0]);
                    assert(("\"web-browser\""@)[0] == '\"');
                    assert((("{\"other\":"@ + (jstr(r) + "}"@)) + b)[0] == ("{\"other\":"@ + (jstr(r) + "}"@))[0]);
                    assert(("{\"other\":"@ + (jstr(r) + "}"@))[0] == ("{\"other\":"@)[0]);
                    assert(("{\"other\":"@)[0] == '{');
                    assert(false);
                },
            }
        },
        crate::model::ProxyDescriptionView::Unknown => {
            match d {
                crate::model::ProxyDescriptionView::Cloud => {
                    assert((("\"?\""@) + a)[1] == ("\"?\""@)[1]);
                    assert((("\"cloud\""@) + b)[1] == ("\"cloud\""@)[1]);
                    assert(("\"?\""@)[1] == '?');
                    assert(("\"cloud\""@)[1] == 'c');
                    assert(false);
                },
                crate::model::ProxyDescriptionView::CloudSecurity => {
                    assert((("\"?\""@) + a)[1] == ("\"?\""@)[1]);
                    assert((("\"cloud-security\""@) + b)[1] == ("\"cloud-security\""@)[1]);
                    assert(("\"?\""@)[1] == '?');
                    assert(("\"cloud-security\""@)[1] == 'c');
                    assert(false);
                },
                crate::model::ProxyDescriptionView::Dns => {
                    assert((("\"?\""@) + a)[1] == ("\"?\""@)[1]);
                    assert((("\"dns\""@) + b)[1] == ("\"dns\""@)[1]);
                    assert(("\"?\""@)[1] == '?');
                    assert(("\"dns\""@)[1] == 'd');
                    assert(false);
                },
                crate::model::ProxyDescriptionView::TorExit => {
                    assert((("\"?\""@) + a)[1] == ("\"?\""@)[1]);
                    assert((("\"tor-exit\""@) + b)[1] == ("\"tor-exit\""@)[1]);
                    assert(("\"?\""@)[1] == '?');
                    assert(("\"tor-exit\""@)[1] == 't');
                    assert(false);
                },
                crate::model::ProxyDescriptionView::TorRelay => {
                    assert((("\"?\""@) + a)[1] == ("\"?\""@)[1]);
                    assert((("\"tor-relay\""@) + b)[1] == ("\"tor-relay\""@)[1]);
                    assert(("\"?\""@)[1] == '?');
                    assert(("\"tor-relay\""@)[1] == 't');
                    assert(false);
                },
                crate::model::ProxyDescriptionView::Vpn => {
                    assert((("\"?\""@) + a)[1] == ("\"?\""@)[1]);
                    assert((("\"vpn\""@) + b)[1] == ("\"vpn\""@)[1]);
                    assert(("\"?\""@)[1] == '?');
                    assert(("\"vpn\""@)[1] == 'v');
                    assert(false);
                },
                crate::model::ProxyDescriptionView::WebBrowser => {
                    assert((("\"?\""@) + a)[1] == ("\"?\""@)[1]);
                    assert((("\"web-browser\""@) + b)[1] == ("\"web-browser\""@)[1]);
                    assert(("\"?\""@)[1] == '?');
                    assert(("\"web-browser\""@)[1] == 'w');
                    assert(false);
                },
                crate::model::ProxyDescriptionView::Unknown => {
                    lemma_peel("\"?\""@, a, b);
                },
                crate::model::ProxyDescriptionView::Other(r) => {
                    assert((("\"?\""@) + a)[0] == ("\"?\""@)[0]);
                    assert(("\"?\""@)[0] == '\"');
                    assert((("{\"other\":"@ + (jstr(r) + "}"@)) + b)[0] == ("{\"other\":"@ + (jstr(r) + "}"@))[0]);
                    assert(("{\"other\":"@ + (jstr(r) + "}"@))[0] == ("{\"other\":"@)[0]);
                    assert(("{\"other\":"@)[0] == '{');
                    assert(false);
                },
            }
        },
        crate::model::ProxyDescriptionView::Other(s) => {
            match d {
                crate::model::ProxyDescriptionView::Cloud => {
                    assert((("\"cloud\""@) + b)[0] == ("\"cloud\""@)[0]);
                    assert(("\"cloud\""@)[0] == '\"');
                    assert((("{\"other\":"@ + (jstr(s) + "}"@)) + a)[0] == ("{\"other\":"@ + (jstr(s) + "}"@))[0]);
                    assert(("{\"other\":"@ + (jstr(s) + "}"@))[0] == ("{\"other\":"@)[0]);
                    assert(("{\"other\":"@)[0] == '{');
                    assert(false);
                },
                crate::model::ProxyDescriptionView::CloudSecurity => {
                    assert((("\"cloud-security\""@) + b)[0] == ("\"cloud-security\""@)[0]);
                    assert(("\"cloud-security\""@)[0] == '\"');
                    assert((("{\"other\":"@ + (jstr(s) + "}"@)) + a)[0] == ("{\"other\":"@ + (jstr(s) + "}"@))[0]);
                    assert(("{\"other\":"@ + (jstr(s) + "}"@))[0] == ("{\"other\":"@)[0]);
                    assert(("{\"other\":"@)[0] == '{');
                    assert(false);
                },
                crate::model::ProxyDescriptionView::Dns => {
                    assert((("\"dns\""@) + b)[0] == ("\"dns\""@)[0]);
                    assert(("\"dns\""@)[0] == '\"');
                    assert((("{\"other\":"@ + (jstr(s) + "}"@)) + a)[0] == ("{\"other\":"@ + (jstr(s) + "}"@))[0]);
                    assert(("{\"other\":"@ + (jstr(s) + "}"@))[0] == ("{\"other\":"@)[0]);
                    assert(("{\"other\":"@)[0] == '{');
                    assert(false);
                },
                crate::model::ProxyDescriptionView::TorExit => {
                    assert((("\"tor-exit\""@) + b)[0] == ("\"tor-exit\""@)[0]);
                    assert(("\"tor-exit\""@)[0] == '\"');
                    assert((("{\"other\":"@ + (jstr(s) + "}"@)) + a)[0] == ("{\"other\":"@ + (jstr(s) + "}"@))[0]);
                    assert(("{\"other\":"@ + (jstr(s) + "}"@))[0] == ("{\"other\":"@)[0]);
                    assert(("{\"other\":"@)[0] == '{');
                    assert(false);
                },
                crate::model::ProxyDescriptionView::TorRelay => {
                    assert((("\"tor-relay\""@) + b)[0] == ("\"tor-relay\""@)[0]);
                    assert(("\"tor-relay\""@)[0] == '\"');
                    assert((("{\"other\":"@ + (jstr(s) + "}"@)) + a)[0] == ("{\"other\":"@ + (jstr(s) + "}"@))[0]);
                    assert(("{\"other\":"@ + (jstr(s) + "}"@))[0] == ("{\"other\":"@)[0]);
                    assert(("{\"other\":"@)[0] == '{');
                    assert(false);
                },
                crate::model::ProxyDescriptionView::Vpn => {
                    assert((("\"vpn\""@) + b)[0] == ("\"vpn\""@)[0]);
                    assert(("\"vpn\""@)[0] == '\"');
                    assert((("{\"other\":"@ + (jstr(s) + "}"@)) + a)[0] == ("{\"other\":"@ + (jstr(s) + "}"@))[0]);
                    assert(("{\"other\":"@ + (jstr(s) + "}"@))[0] == ("{\"other\":"@)[0]);
                    assert(("{\"other\":"@)[0] == '{');
                    assert(false);
                },
                crate::model::ProxyDescriptionView::WebBrowser => {
                    assert((("\"web-browser\""@) + b)[0] == ("\"web-browser\""@)[0]);
                    assert(("\"web-browser\""@)[0] == '\"');
                    assert((("{\"other\":"@ + (jstr(s) + "}"@)) + a)[0] == ("{\"other\":"@ + (jstr(s) + "}"@))[0]);
                    assert(("{\"other\":"@ + (jstr(s) + "}"@))[0] == ("{\"other\":"@)[0]);
                    assert(("{\"other\":"@)[0] == '{');
                    assert(false);
                },
                crate::model::ProxyDescriptionView::Unknown => {
                    assert((("\"?\""@) + b)[0] == ("\"?\""@)[0]);
                    assert(("\"?\""@)[0] == '\"');
                    assert((("{\"other\":"@ + (jstr(s) + "}"@)) + a)[0] == ("{\"other\":"@ + (jstr(s) + "}"@))[0]);
                    assert(("{\"other\":"@ + (jstr(s) + "}"@))[0] == ("{\"other\":"@)[0]);
                    assert(("{\"other\":"@)[0] == '{');
                    assert(false);
                },
                crate::model::ProxyDescriptionView::Other(r) => {
                    assert(("{\"other\":"@ + (jstr(s) + "}"@)) + a =~= "{\"other\":"@ + (jstr(s) + ("}"@ + a)));
                    assert(("{\"other\":"@ + (jstr(r) + "}"@)) + b =~= "{\"other\":"@ + (jstr(r) + ("}"@ + b)));
                    lemma_peel("{\"other\":"@, jstr(s) + ("}"@ + a), jstr(r) + ("}"@ + b));
                    lemma_jstr_det(s, r, "}"@ + a, "}"@ + b);
                    lemma_peel("}"@, a, b);
                },
            }
        },
    }
}



/// The ISP object fragment determines the ISP facts and the text
/// after it.
#[verifier::rlimit(100)]
proof fn lemma_stitch_isp(
    g: crate::model::GeoIPISPInfoView,
    h: crate::model::GeoIPISPInfoView,
    cv: Seq<char>,
    cw: Seq<char>,
)
    requires
        (crate::json::isp_json(g) + cv) == (crate::json::isp_json(h) + cw),
    ensures
        g == h,
        cv == cw,
{
    reveal_strlit("}");
    assert(crate::json::isp_json(g) + cv =~= "{\"isp_name\":"@ + (jstr(g.isp_name)
        + (",\"isp_asn\":"@ + (spec_udec(g.isp_asn as nat) + ("}"@ + cv)))));
    assert(crate::json::isp_json(h) + cw =~= "{\"isp_name\":"@ + (jstr(h.isp_name)
        + (",\"isp_asn\":"@ + (spec_udec(h.isp_asn as nat) + ("}"@ + cw)))));
    lemma_peel(
        "{\"isp_name\":"@,
        jstr(g.isp_name) + (",\"isp_asn\":"@ + (spec_udec(g.isp_asn as nat) + ("}"@ + cv))),
        jstr(h.isp_name) + (",\"isp_asn\":"@ + (spec_udec(h.isp_asn as nat) + ("}"@ + cw))),
    );
    lemma_jstr_det(
        g.isp_name,
        h.isp_name,
        ",\"isp_asn\":"@ + (spec_udec(g.isp_asn as nat) + ("}"@ + cv)),
        ",\"isp_asn\":"@ + (spec_udec(h.isp_asn as nat) + ("}"@ + cw)),
    );
    lemma_peel(
        ",\"isp_asn\":"@,
        spec_udec(g.isp_asn as nat) + ("}"@ + cv),
        spec_udec(h.isp_asn as nat) + ("}"@ + cw),
    );
    assert((("}"@) + cv)[0] == ("}"@)[0]);
    assert((("}"@) + cw)[0] == ("}"@)[0]);
    assert(("}"@)[0] == '}');
    lemma_udec_det(g.isp_asn as nat, h.isp_asn as nat, "}"@ + cv, "}"@ + cw);
    lemma_peel("}"@, cv, cw);
    assert(g =~= h);
}

/// The geographic object fragment determines the geographic facts and
/// the text after it.
#[verifier::rlimit(100)]
proof fn lemma_stitch_geo(
    g: crate::model::GeoIPGeographicInfoView,
    h: crate::model::GeoIPGeographicInfoView,
    cv: Seq<char>,
    cw: Seq<char>,
)
    requires
        (crate::json::geographic_json(g) + cv) == (crate::json::geographic_json(h) + cw),
    ensures
        g == h,
        cv == cw,
{
    let tgv = jstr(g.city) + (",\"country\":"@ + (jstr(g.country) + (",\"continent\":"@
        + (continent_json(g.continent) + (",\"postal_code\":"@ + (jstr(g.postal_code)
        + (",\"latitude\":"@ + (crate::text::spec_coord(g.latitude as int) + (",\"longitude\":"@
        + (crate::text::spec_coord(g.longitude as int) + ("}"@ + cv)))))))))));
    let tgw = jstr(h.city) + (",\"country\":"@ + (jstr(h.country) + (",\"continent\":"@
        + (continent_json(h.continent) + (",\"postal_code\":"@ + (jstr(h.postal_code)
        + (",\"latitude\":"@ + (crate::text::spec_coord(h.latitude as int) + (",\"longitude\":"@
        + (crate::text::spec_coord(h.longitude as int) + ("}"@ + cw)))))))))));
    assert(crate::json::geographic_json(g) + cv =~= "{\"city\":"@ + tgv);
    assert(crate::json::geographic_json(h) + cw =~= "{\"city\":"@ + tgw);
    lemma_peel("{\"city\":"@, tgv, tgw);
    lemma_jstr_det(
        g.city,
        h.city,
        ",\"country\":"@ + (jstr(g.country) + (",\"continent\":"@ + (continent_json(g.continent)
            + (",\"postal_code\":"@ + (jstr(g.postal_code) + (",\"latitude\":"@
            + (crate::text::spec_coord(g.latitude as int) + (",\"longitude\":"@
            + (crate::text::spec_coord(g.longitude as int) + ("}"@ + cv)))))))))),
        ",\"country\":"@ + (jstr(h.country) + (",\"continent\":"@ + (continent_json(h.continent)
            + (",\"postal_code\":"@ + (jstr(h.postal_code) + (",\"latitude\":"@
            + (crate::text::spec_coord(h.latitude as int) + (",\"longitude\":"@
            + (crate::text::spec_coord(h.longitude as int) + ("}"@ + cw)))))))))),
    );
    lemma_peel(
        ",\"country\":"@,
        jstr(g.country) + (",\"continent\":"@ + (continent_json(g.continent)
            + (",\"postal_code\":"@ + (jstr(g.postal_code) + (",\"latitude\":"@
            + (crate::text::spec_coord(g.latitude as int) + (",\"longitude\":"@
            + (crate::text::spec_coord(g.longitude as int) + ("}"@ + cv))))))))),
        jstr(h.country) + (",\"continent\":"@ + (continent_json(h.continent)
            + (",\"postal_code\":"@ + (jstr(h.postal_code) + (",\"latitude\":"@
            + (crate::text::spec_coord(h.latitude as int) + (",\"longitude\":"@
            + (crate::text::spec_coord(h.longitude as int) + ("}"@ + cw))))))))),
    );
    lemma_jstr_det(
        g.country,
        h.country,
        ",\"continent\":"@ + (continent_json(g.continent) + (",\"postal_code\":"@
            + (jstr(g.postal_code) + (",\"latitude\":"@ + (crate::text::spec_coord(
            g.latitude as int,
        ) + (",\"longitude\":"@ + (crate::text::spec_coord(g.longitude as int) + ("}"@ + cv)))))))),
        ",\"continent\":"@ + (continent_json(h.continent) + (",\"postal_code\":"@
            + (jstr(h.postal_code) + (",\"latitude\":"@ + (crate::text::spec_coord(
            h.latitude as int,
        ) + (",\"longitude\":"@ + (crate::text::spec_coord(h.longitude as int) + ("}"@ + cw)))))))),
    );
    lemma_peel(
        ",\"continent\":"@,
        continent_json(g.continent) + (",\"postal_code\":"@ + (jstr(g.postal_code)
            + (",\"latitude\":"@ + (crate::text::spec_coord(g.latitude as int)
            + (",\"longitude\":"@ + (crate::text::spec_coord(g.longitude as int) + ("}"@
            + cv))))))),
        continent_json(h.continent) + (",\"postal_code\":"@ + (jstr(h.postal_code)
            + (",\"latitude\":"@ + (crate::text::spec_coord(h.latitude as int)
            + (",\"longitude\":"@ + (crate::text::spec_coord(h.longitude as int) + ("}"@
            + cw))))))),
    );
    lemma_continent_det(
        g.continent,
        h.continent,
        ",\"postal_code\":"@ + (jstr(g.postal_code) + (",\"latitude\":"@
            + (crate::text::spec_coord(g.latitude as int) + (",\"longitude\":"@
            + (crate::text::spec_coord(g.longitude as int) + ("}"@ + cv)))))),
        ",\"postal_code\":"@ + (jstr(h.postal_code) + (",\"latitude\":"@
            + (crate::text::spec_coord(h.latitude as int) + (",\"longitude\":"@
            + (crate::text::spec_coord(h.longitude as int) + ("}"@ + cw)))))),
    );
    lemma_peel(
        ",\"postal_code\":"@,
        jstr(g.postal_code) + (",\"latitude\":"@ + (crate::text::spec_coord(g.latitude as int)
            + (",\"longitude\":"@ + (crate::text::spec_coord(g.longitude as int) + ("}"@ + cv))))),
        jstr(h.postal_code) + (",\"latitude\":"@ + (crate::text::spec_coord(h.latitude as int)
            + (",\"longitude\":"@ + (crate::text::spec_coord(h.longitude as int) + ("}"@ + cw))))),
    );
    lemma_jstr_det(
        g.postal_code,
        h.postal_code,
        ",\"latitude\":"@ + (crate::text::spec_coord(g.latitude as int) + (",\"longitude\":"@
            + (crate::text::spec_coord(g.longitude as int) + ("}"@ + cv)))),
        ",\"latitude\":"@ + (crate::text::spec_coord(h.latitude as int) + (",\"longitude\":"@
            + (crate::text::spec_coord(h.longitude as int) + ("}"@ + cw)))),
    );
    lemma_peel(
        ",\"latitude\":"@,
        crate::text::spec_coord(g.latitude as int) + (",\"longitude\":"@
            + (crate::text::spec_coord(g.longitude as int) + ("}"@ + cv))),
        crate::text::spec_coord(h.latitude as int) + (",\"longitude\":"@
            + (crate::text::spec_coord(h.longitude as int) + ("}"@ + cw))),
    );
    lemma_coord_det(
        g.latitude as int,
        h.latitude as int,
        ",\"longitude\":"@ + (crate::text::spec_coord(g.longitude as int) + ("}"@ + cv)),
        ",\"longitude\":"@ + (crate::text::spec_coord(h.longitude as int) + ("}"@ + cw)),
    );
    lemma_peel(
        ",\"longitude\":"@,
        crate::text::spec_coord(g.longitude as int) + ("}"@ + cv),
        crate::text::spec_coord(h.longitude as int) + ("}"@ + cw),
    );
    lemma_coord_det(g.longitude as int, h.longitude as int, "}"@ + cv, "}"@ + cw);
    lemma_peel("}"@, cv, cw);
    assert(g =~= h);
}

/// The connection object fragment determines the connection facts and
/// the text after it.
#[verifier::rlimit(100)]
proof fn lemma_stitch_conn(
    g: crate::model::GeoIPConnectionInfoView,
    h: crate::model::GeoIPConnectionInfoView,
    cv: Seq<char>,
    cw: Seq<char>,
)
    requires
        (crate::json::connection_json(g) + cv) == (crate::json::connection_json(h) + cw),
    ensures
        g == h,
        cv == cw,
{
    assert(crate::json::connection_json(g) + cv =~= "{\"connection_speed\":"@ + (conn_speed_json(
        g.connection_speed,
    ) + (",\"connection_type\":"@ + (conn_type_json(g.connection_type) + ("}"@ + cv)))));
    assert(crate::json::connection_json(h) + cw =~= "{\"connection_speed\":"@ + (conn_speed_json(
        h.connection_speed,
    ) + (",\"connection_type\":"@ + (conn_type_json(h.connection_type) + ("}"@ + cw)))));
    lemma_peel(
        "{\"connection_speed\":"@,
        conn_speed_json(g.connection_speed) + (",\"connection_type\":"@ + (conn_type_json(
            g.connection_type,
        ) + ("}"@ + cv))),
        conn_speed_json(h.connection_speed) + (",\"connection_type\":"@ + (conn_type_json(
            h.connection_type,
        ) + ("}"@ + cw))),
    );
    lemma_conn_speed_det(
        g.connection_speed,
        h.connection_speed,
        ",\"connection_type\":"@ + (conn_type_json(g.connection_type) + ("}"@ + cv)),
        ",\"connection_type\":"@ + (conn_type_json(h.connection_type) + ("}"@ + cw)),
    );
    lemma_peel(
        ",\"connection_type\":"@,
        conn_type_json(g.connection_type) + ("}"@ + cv),
        conn_type_json(h.connection_type) + ("}"@ + cw),
    );
    lemma_conn_type_det(g.connection_type, h.connection_type, "}"@ + cv, "}"@ + cw);
    lemma_peel("}"@, cv, cw);
    assert(g =~= h);
}

/// The proxy object fragment determines the proxy facts and the text
/// after it.
#[verifier::rlimit(100)]
proof fn lemma_stitch_proxy(
    g: crate::model::GeoIPProxyInfoView,
    h: crate::model::GeoIPProxyInfoView,
    cv: Seq<char>,
    cw: Seq<char>,
)
    requires
        (crate::json::proxy_json(g) + cv) == (crate::json::proxy_json(h) + cw),
    ensures
        g == h,
        cv == cw,
{
    assert(crate::json::proxy_json(g) + cv =~= "{\"proxy_type\":"@ + (proxy_type_json(
        g.proxy_type,
    ) + (",\"proxy_description\":"@ + (proxy_description_json(g.proxy_description) + ("}"@
        + cv)))));
    assert(crate::json::proxy_json(h) + cw =~= "{\"proxy_type\":"@ + (proxy_type_json(
        h.proxy_type,
    ) + (",\"proxy_description\":"@ + (proxy_description_json(h.proxy_description) + ("}"@
        + cw)))));
    lemma_peel(
        "{\"proxy_type\":"@,
        proxy_type_json(g.proxy_type) + (",\"proxy_description\":"@ + (proxy_description_json(
            g.proxy_description,
        ) + ("}"@ + cv))),
        proxy_type_json(h.proxy_type) + (",\"proxy_description\":"@ + (proxy_description_json(
            h.proxy_description,
        ) + ("}"@ + cw))),
    );
    lemma_proxy_type_det(
        g.proxy_type,
        h.proxy_type,
        ",\"proxy_description\":"@ + (proxy_description_json(g.proxy_description) + ("}"@ + cv)),
        ",\"proxy_description\":"@ + (proxy_description_json(h.proxy_description) + ("}"@ + cw)),
    );
    lemma_peel(
        ",\"proxy_description\":"@,
        proxy_description_json(g.proxy_description) + ("}"@ + cv),
        proxy_description_json(h.proxy_description) + ("}"@ + cw),
    );
    lemma_proxy_description_det(g.proxy_description, h.proxy_description, "}"@ + cv, "}"@ + cw);
    lemma_peel("}"@, cv, cw);
    assert(g =~= h);
}

/// The canonical document determines the record: two reports with the
/// same JSON rendering are structurally equal, so parsing the
/// renderer's output can only recover the record it came from.
#[verifier::rlimit(100)]
pub proof fn lemma_json_injective(v: crate::model::GeoIPResponseView, w: crate::model::GeoIPResponseView)
    requires
        crate::json::spec_json(v) == crate::json::spec_json(w),
    ensures
        v == w,
{
    let pv = ",\"proxy\":"@ + (crate::json::proxy_json(v.proxy) + "}"@);
    let pw = ",\"proxy\":"@ + (crate::json::proxy_json(w.proxy) + "}"@);
    let cv = ",\"connection\":"@ + (crate::json::connection_json(v.connection) + pv);
    let cw = ",\"connection\":"@ + (crate::json::connection_json(w.connection) + pw);
    let gv = ",\"geographic\":"@ + (crate::json::geographic_json(v.geographic) + cv);
    let gw = ",\"geographic\":"@ + (crate::json::geographic_json(w.geographic) + cw);
    let iv = ",\"isp\":"@ + (crate::json::isp_json(v.isp) + gv);
    let iw = ",\"isp\":"@ + (crate::json::isp_json(w.isp) + gw);
    let tv = jstr(crate::text::spec_ip_text(v.ip)) + iv;
    let tw = jstr(crate::text::spec_ip_text(w.ip)) + iw;
    assert(crate::json::spec_json(v) == "{\"ip\":"@ + tv);
    assert(crate::json::spec_json(w) == "{\"ip\":"@ + tw);
    lemma_peel("{\"ip\":"@, tv, tw);
    lemma_jstr_det(crate::text::spec_ip_text(v.ip), crate::text::spec_ip_text(w.ip), iv, iw);
    lemma_ip_text_inj(v.ip, w.ip);
    lemma_peel(
        ",\"isp\":"@,
        crate::json::isp_json(v.isp) + gv,
        crate::json::isp_json(w.isp) + gw,
    );
    lemma_stitch_isp(v.isp, w.isp, gv, gw);
    lemma_peel(
        ",\"geographic\":"@,
        crate::json::geographic_json(v.geographic) + cv,
        crate::json::geographic_json(w.geographic) + cw,
    );
    lemma_stitch_geo(v.geographic, w.geographic, cv, cw);
    lemma_peel(
        ",\"connection\":"@,
        crate::json::connection_json(v.connection) + pv,
        crate::json::connection_json(w.connection) + pw,
    );
    lemma_stitch_conn(v.connection, w.connection, pv, pw);
    lemma_peel(
        ",\"proxy\":"@,
        crate::json::proxy_json(v.proxy) + "}"@,
        crate::json::proxy_json(w.proxy) + "}"@,
    );
    lemma_stitch_proxy(v.proxy, w.proxy, "}"@, "}"@);
    assert(v =~= w);
}


/// The value of a run of digits is never negative.
pub(crate) proof fn lemma_dec_val_nonneg(s: Seq<char>)
    requires
        forall|m: int| 0 <= m < s.len() ==> is_dec_char(#[trigger] s[m]),
    ensures
        dec_val(s) >= 0,
    decreases s.len(),
{
    if s.len() == 0 {
    } else {
        assert forall|m: int| 0 <= m < s.drop_last().len() implies is_dec_char(
            #[trigger] s.drop_last()[m],
        ) by {
            assert(s.drop_last()[m] == s[m]);
        }
        lemma_dec_val_nonneg(s.drop_last());
        assert(is_dec_char(s.last()));
        assert(dec_char_val(s.last()) >= 0);
        assert(dec_val(s.drop_last()) * 10 >= 0) by (nonlinear_arith)
            requires
                dec_val(s.drop_last()) >= 0,
        ;
    }
}

/// Splitting a digit run splits its value by the right power of ten.
pub(crate) proof fn lemma_dec_val_concat(a: Seq<char>, b: Seq<char>)
    ensures
        dec_val(a + b) == dec_val(a) * pow10(b.len()) + dec_val(b),
    decreases b.len(),
{
    if b.len() == 0 {
        assert(a + b =~= a);
        assert(pow10(0) == 1);
    } else {
        lemma_dec_val_concat(a, b.drop_last());
        assert((a + b).len() > 0);
        assert((a + b).drop_last() =~= a + b.drop_last());
        assert((a + b).last() == b.last());
        let p = pow10((b.len() - 1) as nat);
        assert(pow10(b.len()) == 10 * p);
        assert(dec_val(a + b) == (dec_val(a) * p + dec_val(b.drop_last())) * 10 + dec_char_val(
            b.last(),
        ));
        assert((dec_val(a) * p + dec_val(b.drop_last())) * 10 == dec_val(a) * (10 * p) + dec_val(
            b.drop_last(),
        ) * 10) by (nonlinear_arith);
        assert(dec_val(b) == dec_val(b.drop_last()) * 10 + dec_char_val(b.last()));
    }
}

/// The value of a run of hexadecimal digits is never negative.
pub(crate) proof fn lemma_hex_val_nonneg(s: Seq<char>)
    requires
        forall|m: int| 0 <= m < s.len() ==> is_hex_char(#[trigger] s[m]),
    ensures
        hex_val(s) >= 0,
    decreases s.len(),
{
    if s.len() == 0 {
    } else {
        assert forall|m: int| 0 <= m < s.drop_last().len() implies is_hex_char(
            #[trigger] s.drop_last()[m],
        ) by {
            assert(s.drop_last()[m] == s[m]);
        }
        lemma_hex_val_nonneg(s.drop_last());
        assert(is_hex_char(s.last()));
        assert(hex_char_val(s.last()) >= 0);
        assert(hex_val(s.drop_last()) * 16 >= 0) by (nonlinear_arith)
            requires
                hex_val(s.drop_last()) >= 0,
        ;
    }
}

/// Sixteen to the `w`.
pub open spec fn pow16(w: nat) -> nat
    decreases w,
{
    if w == 0 {
        1
    } else {
        16 * pow16((w - 1) as nat)
    }
}

/// Powers of sixteen are positive.
pub(crate) proof fn lemma_pow16_pos(w: nat)
    ensures
        pow16(w) >= 1,
    decreases w,
{
    if w == 0 {
    } else {
        lemma_pow16_pos((w - 1) as nat);
    }
}

/// Splitting a hexadecimal run splits its value by the right power of
/// sixteen.
pub(crate) proof fn lemma_hex_val_concat(a: Seq<char>, b: Seq<char>)
    ensures
        hex_val(a + b) == hex_val(a) * pow16(b.len()) + hex_val(b),
    decreases b.len(),
{
    if b.len() == 0 {
        assert(a + b =~= a);
        assert(pow16(0) == 1);
    } else {
        lemma_hex_val_concat(a, b.drop_last());
        assert((a + b).len() > 0);
        assert((a + b).drop_last() =~= a + b.drop_last());
        assert((a + b).last() == b.last());
        let p = pow16((b.len() - 1) as nat);
        assert(pow16(b.len()) == 16 * p);
        assert(hex_val(a + b) == (hex_val(a) * p + hex_val(b.drop_last())) * 16 + hex_char_val(
            b.last(),
        ));
        assert((hex_val(a) * p + hex_val(b.drop_last())) * 16 == hex_val(a) * (16 * p) + hex_val(
            b.drop_last(),
        ) * 16) by (nonlinear_arith);
        assert(hex_val(b) == hex_val(b.drop_last()) * 16 + hex_char_val(b.last()));
    }
}


/// Every character of a fixed-width numeral is a decimal digit.
pub(crate) proof fn lemma_fixed_all_dec(n: nat, w: nat)
    ensures
        forall|i: int|
            0 <= i < spec_fixed_dec(n, w).len() ==> is_dec_char(#[trigger] spec_fixed_dec(n, w)[i]),
    decreases w,
{
    if w == 0 {
    } else {
        lemma_fixed_all_dec(n / 10, (w - 1) as nat);
        let head = spec_fixed_dec(n / 10, (w - 1) as nat);
        assert(spec_fixed_dec(n, w) == head + seq![dec_digit(n % 10)]);
        assert forall|i: int| 0 <= i < spec_fixed_dec(n, w).len() implies is_dec_char(
            #[trigger] spec_fixed_dec(n, w)[i],
        ) by {
            if i < head.len() {
                assert(spec_fixed_dec(n, w)[i] == head[i]);
            } else {
                assert(spec_fixed_dec(n, w)[i] == dec_digit(n % 10));
                assert(is_dec_char(dec_digit(n % 10)));
            }
        }
    }
}

} // verus!
