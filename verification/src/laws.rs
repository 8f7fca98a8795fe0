//! The library's cross-cutting guarantees, stated and proved over the
//! same specification functions the executable contracts use.

use vstd::prelude::*;

use crate::html::conn_speed_label;
use crate::html::conn_type_label;
use crate::html::continent_label;
use crate::html::hesc_char;
use crate::html::proxy_description_label;
use crate::html::proxy_type_label;
use crate::html::spec_escape_html;
use crate::html::spec_html;
use crate::json::spec_json;
use crate::model::GeoIPResponseView;
use crate::text::spec_coord;
use crate::text::spec_ip_text;
use crate::text::spec_udec;

verus! {

/// `x` occurs in `h` as a contiguous run.
pub open spec fn contains_seq(h: Seq<char>, x: Seq<char>) -> bool {
    exists|k: int|
        0 <= k && k + x.len() <= h.len() && #[trigger] h.subrange(k, k + x.len() as int) == x
}

/// A concatenation contains its right part.
proof fn lemma_contains_suffix(h: Seq<char>, x: Seq<char>)
    ensures
        contains_seq(h + x, x),
{
    let k = h.len() as int;
    assert((h + x).subrange(k, k + x.len() as int) =~= x);
}

/// Containment survives appending more text.
proof fn lemma_contains_extend(h: Seq<char>, t: Seq<char>, x: Seq<char>)
    requires
        contains_seq(h, x),
    ensures
        contains_seq(h + t, x),
{
    let k = choose|k: int|
        0 <= k && k + x.len() <= h.len() && #[trigger] h.subrange(k, k + x.len() as int) == x;
    assert((h + t).subrange(k, k + x.len() as int) =~= h.subrange(k, k + x.len() as int));
}

/// Rendering is deterministic: the JSON document is a function of the
/// record alone, so two renderings of the same record are
/// byte-identical.
pub proof fn lemma_json_deterministic(v: GeoIPResponseView, a: Seq<char>, b: Seq<char>)
    requires
        a == spec_json(v),
        b == spec_json(v),
    ensures
        a == b,
{
}

/// Rendering is deterministic: the HTML document is a function of the
/// record alone, so two renderings of the same record are
/// byte-identical.
pub proof fn lemma_html_deterministic(v: GeoIPResponseView, a: Seq<char>, b: Seq<char>)
    requires
        a == spec_html(v),
        b == spec_html(v),
    ensures
        a == b,
{
}

/// Escaping changes nothing in text free of the five HTML-special
/// characters.
pub open spec fn html_clean(s: Seq<char>) -> bool {
    forall|i: int|
        0 <= i < s.len() ==> s[i] != '&' && s[i] != '<' && s[i] != '>' && s[i] != '"' && s[i]
            != '\''
}

/// On clean text the HTML escape is the identity, so such a value
/// appears in the page verbatim.
pub proof fn lemma_escape_html_identity(s: Seq<char>)
    requires
        html_clean(s),
    ensures
        spec_escape_html(s) == s,
    decreases s.len(),
{
    if s.len() == 0 {
        assert(spec_escape_html(s) =~= s);
    } else {
        lemma_escape_html_identity(s.drop_last());
        assert(hesc_char(s.last()) == seq![s.last()]);
        assert(spec_escape_html(s) =~= s);
    }
}

/// Every field of the record appears in the HTML page: the address and
/// the numerals verbatim, the free-text and label values in their
/// escaped form.
#[verifier::rlimit(100)]
pub proof fn lemma_html_contains_every_field(v: GeoIPResponseView)
    ensures
        contains_seq(spec_html(v), spec_ip_text(v.ip)),
        contains_seq(spec_html(v), spec_escape_html(v.isp.isp_name)),
        contains_seq(spec_html(v), spec_udec(v.isp.isp_asn as nat)),
        contains_seq(spec_html(v), spec_escape_html(v.geographic.city)),
        contains_seq(spec_html(v), spec_escape_html(v.geographic.country)),
        contains_seq(spec_html(v), spec_escape_html(continent_label(v.geographic.continent))),
        contains_seq(spec_html(v), spec_escape_html(v.geographic.postal_code)),
        contains_seq(spec_html(v), spec_coord(v.geographic.latitude as int)),
        contains_seq(spec_html(v), spec_coord(v.geographic.longitude as int)),
        contains_seq(spec_html(v), spec_escape_html(conn_speed_label(v.connection.connection_speed))),
        contains_seq(spec_html(v), spec_escape_html(conn_type_label(v.connection.connection_type))),
        contains_seq(spec_html(v), spec_escape_html(proxy_type_label(v.proxy.proxy_type))),
        contains_seq(spec_html(v), spec_escape_html(proxy_description_label(v.proxy.proxy_description))),
{
    let l0: Seq<char> = "<!DOCTYPE html><html><head><title>GeoIP Information</title></head><body><h1>GeoIP Information</h1><table><tr><th>IP Address</th><td>"@;
    let x0: Seq<char> = spec_ip_text(v.ip);
    let l1: Seq<char> = "</td></tr><tr><th>ISP Name</th><td>"@;
    let x1: Seq<char> = spec_escape_html(v.isp.isp_name);
    let l2: Seq<char> = "</td></tr><tr><th>ISP ASN</th><td>"@;
    let x2: Seq<char> = spec_udec(v.isp.isp_asn as nat);
    let l3: Seq<char> = "</td></tr><tr><th>City</th><td>"@;
    let x3: Seq<char> = spec_escape_html(v.geographic.city);
    let l4: Seq<char> = "</td></tr><tr><th>Country</th><td>"@;
    let x4: Seq<char> = spec_escape_html(v.geographic.country);
    let l5: Seq<char> = "</td></tr><tr><th>Continent</th><td>"@;
    let x5: Seq<char> = spec_escape_html(continent_label(v.geographic.continent));
    let l6: Seq<char> = "</td></tr><tr><th>Postal Code</th><td>"@;
    let x6: Seq<char> = spec_escape_html(v.geographic.postal_code);
    let l7: Seq<char> = "</td></tr><tr><th>Latitude</th><td>"@;
    let x7: Seq<char> = spec_coord(v.geographic.latitude as int);
    let l8: Seq<char> = "</td></tr><tr><th>Longitude</th><td>"@;
    let x8: Seq<char> = spec_coord(v.geographic.longitude as int);
    let l9: Seq<char> = "</td></tr><tr><th>Connection Speed</th><td>"@;
    let x9: Seq<char> = spec_escape_html(conn_speed_label(v.connection.connection_speed));
    let l10: Seq<char> = "</td></tr><tr><th>Connection Type</th><td>"@;
    let x10: Seq<char> = spec_escape_html(conn_type_label(v.connection.connection_type));
    let l11: Seq<char> = "</td></tr><tr><th>Proxy Type</th><td>"@;
    let x11: Seq<char> = spec_escape_html(proxy_type_label(v.proxy.proxy_type));
    let l12: Seq<char> = "</td></tr><tr><th>Proxy Description</th><td>"@;
    let x12: Seq<char> = spec_escape_html(proxy_description_label(v.proxy.proxy_description));
    let l13: Seq<char> = "</td></tr></table></body></html>"@;
    let p0: Seq<char> = l0;
    let p1: Seq<char> = p0 + x0;
    let p2: Seq<char> = p1 + l1;
    let p3: Seq<char> = p2 + x1;
    let p4: Seq<char> = p3 + l2;
    let p5: Seq<char> = p4 + x2;
    let p6: Seq<char> = p5 + l3;
    let p7: Seq<char> = p6 + x3;
    let p8: Seq<char> = p7 + l4;
    let p9: Seq<char> = p8 + x4;
    let p10: Seq<char> = p9 + l5;
    let p11: Seq<char> = p10 + x5;
    let p12: Seq<char> = p11 + l6;
    let p13: Seq<char> = p12 + x6;
    let p14: Seq<char> = p13 + l7;
    let p15: Seq<char> = p14 + x7;
    let p16: Seq<char> = p15 + l8;
    let p17: Seq<char> = p16 + x8;
    let p18: Seq<char> = p17 + l9;
    let p19: Seq<char> = p18 + x9;
    let p20: Seq<char> = p19 + l10;
    let p21: Seq<char> = p20 + x10;
    let p22: Seq<char> = p21 + l11;
    let p23: Seq<char> = p22 + x11;
    let p24: Seq<char> = p23 + l12;
    let p25: Seq<char> = p24 + x12;
    let p26: Seq<char> = p25 + l13;

    lemma_contains_suffix(p0, x0);
    lemma_contains_extend(p1, l1, x0);
    lemma_contains_extend(p2, x1, x0);
    lemma_contains_extend(p3, l2, x0);
    lemma_contains_extend(p4, x2, x0);
    lemma_contains_extend(p5, l3, x0);
    lemma_contains_extend(p6, x3, x0);
    lemma_contains_extend(p7, l4, x0);
    lemma_contains_extend(p8, x4, x0);
    lemma_contains_extend(p9, l5, x0);
    lemma_contains_extend(p10, x5, x0);
    lemma_contains_extend(p11, l6, x0);
    lemma_contains_extend(p12, x6, x0);
    lemma_contains_extend(p13, l7, x0);
    lemma_contains_extend(p14, x7, x0);
    lemma_contains_extend(p15, l8, x0);
    lemma_contains_extend(p16, x8, x0);
    lemma_contains_extend(p17, l9, x0);
    lemma_contains_extend(p18, x9, x0);
    lemma_contains_extend(p19, l10, x0);
    lemma_contains_extend(p20, x10, x0);
    lemma_contains_extend(p21, l11, x0);
    lemma_contains_extend(p22, x11, x0);
    lemma_contains_extend(p23, l12, x0);
    lemma_contains_extend(p24, x12, x0);
    lemma_contains_extend(p25, l13, x0);
    lemma_contains_suffix(p2, x1);
    lemma_contains_extend(p3, l2, x1);
    lemma_contains_extend(p4, x2, x1);
    lemma_contains_extend(p5, l3, x1);
    lemma_contains_extend(p6, x3, x1);
    lemma_contains_extend(p7, l4, x1);
    lemma_contains_extend(p8, x4, x1);
    lemma_contains_extend(p9, l5, x1);
    lemma_contains_extend(p10, x5, x1);
    lemma_contains_extend(p11, l6, x1);
    lemma_contains_extend(p12, x6, x1);
    lemma_contains_extend(p13, l7, x1);
    lemma_contains_extend(p14, x7, x1);
    lemma_contains_extend(p15, l8, x1);
    lemma_contains_extend(p16, x8, x1);
    lemma_contains_extend(p17, l9, x1);
    lemma_contains_extend(p18, x9, x1);
    lemma_contains_extend(p19, l10, x1);
    lemma_contains_extend(p20, x10, x1);
    lemma_contains_extend(p21, l11, x1);
    lemma_contains_extend(p22, x11, x1);
    lemma_contains_extend(p23, l12, x1);
    lemma_contains_extend(p24, x12, x1);
    lemma_contains_extend(p25, l13, x1);
    lemma_contains_suffix(p4, x2);
    lemma_contains_extend(p5, l3, x2);
    lemma_contains_extend(p6, x3, x2);
    lemma_contains_extend(p7, l4, x2);
    lemma_contains_extend(p8, x4, x2);
    lemma_contains_extend(p9, l5, x2);
    lemma_contains_extend(p10, x5, x2);
    lemma_contains_extend(p11, l6, x2);
    lemma_contains_extend(p12, x6, x2);
    lemma_contains_extend(p13, l7, x2);
    lemma_contains_extend(p14, x7, x2);
    lemma_contains_extend(p15, l8, x2);
    lemma_contains_extend(p16, x8, x2);
    lemma_contains_extend(p17, l9, x2);
    lemma_contains_extend(p18, x9, x2);
    lemma_contains_extend(p19, l10, x2);
    lemma_contains_extend(p20, x10, x2);
    lemma_contains_extend(p21, l11, x2);
    lemma_contains_extend(p22, x11, x2);
    lemma_contains_extend(p23, l12, x2);
    lemma_contains_extend(p24, x12, x2);
    lemma_contains_extend(p25, l13, x2);
    lemma_contains_suffix(p6, x3);
    lemma_contains_extend(p7, l4, x3);
    lemma_contains_extend(p8, x4, x3);
    lemma_contains_extend(p9, l5, x3);
    lemma_contains_extend(p10, x5, x3);
    lemma_contains_extend(p11, l6, x3);
    lemma_contains_extend(p12, x6, x3);
    lemma_contains_extend(p13, l7, x3);
    lemma_contains_extend(p14, x7, x3);
    lemma_contains_extend(p15, l8, x3);
    lemma_contains_extend(p16, x8, x3);
    lemma_contains_extend(p17, l9, x3);
    lemma_contains_extend(p18, x9, x3);
    lemma_contains_extend(p19, l10, x3);
    lemma_contains_extend(p20, x10, x3);
    lemma_contains_extend(p21, l11, x3);
    lemma_contains_extend(p22, x11, x3);
    lemma_contains_extend(p23, l12, x3);
    lemma_contains_extend(p24, x12, x3);
    lemma_contains_extend(p25, l13, x3);
    lemma_contains_suffix(p8, x4);
    lemma_contains_extend(p9, l5, x4);
    lemma_contains_extend(p10, x5, x4);
    lemma_contains_extend(p11, l6, x4);
    lemma_contains_extend(p12, x6, x4);
    lemma_contains_extend(p13, l7, x4);
    lemma_contains_extend(p14, x7, x4);
    lemma_contains_extend(p15, l8, x4);
    lemma_contains_extend(p16, x8, x4);
    lemma_contains_extend(p17, l9, x4);
    lemma_contains_extend(p18, x9, x4);
    lemma_contains_extend(p19, l10, x4);
    lemma_contains_extend(p20, x10, x4);
    lemma_contains_extend(p21, l11, x4);
    lemma_contains_extend(p22, x11, x4);
    lemma_contains_extend(p23, l12, x4);
    lemma_contains_extend(p24, x12, x4);
    lemma_contains_extend(p25, l13, x4);
    lemma_contains_suffix(p10, x5);
    lemma_contains_extend(p11, l6, x5);
    lemma_contains_extend(p12, x6, x5);
    lemma_contains_extend(p13, l7, x5);
    lemma_contains_extend(p14, x7, x5);
    lemma_contains_extend(p15, l8, x5);
    lemma_contains_extend(p16, x8, x5);
    lemma_contains_extend(p17, l9, x5);
    lemma_contains_extend(p18, x9, x5);
    lemma_contains_extend(p19, l10, x5);
    lemma_contains_extend(p20, x10, x5);
    lemma_contains_extend(p21, l11, x5);
    lemma_contains_extend(p22, x11, x5);
    lemma_contains_extend(p23, l12, x5);
    lemma_contains_extend(p24, x12, x5);
    lemma_contains_extend(p25, l13, x5);
    lemma_contains_suffix(p12, x6);
    lemma_contains_extend(p13, l7, x6);
    lemma_contains_extend(p14, x7, x6);
    lemma_contains_extend(p15, l8, x6);
    lemma_contains_extend(p16, x8, x6);
    lemma_contains_extend(p17, l9, x6);
    lemma_contains_extend(p18, x9, x6);
    lemma_contains_extend(p19, l10, x6);
    lemma_contains_extend(p20, x10, x6);
    lemma_contains_extend(p21, l11, x6);
    lemma_contains_extend(p22, x11, x6);
    lemma_contains_extend(p23, l12, x6);
    lemma_contains_extend(p24, x12, x6);
    lemma_contains_extend(p25, l13, x6);
    lemma_contains_suffix(p14, x7);
    lemma_contains_extend(p15, l8, x7);
    lemma_contains_extend(p16, x8, x7);
    lemma_contains_extend(p17, l9, x7);
    lemma_contains_extend(p18, x9, x7);
    lemma_contains_extend(p19, l10, x7);
    lemma_contains_extend(p20, x10, x7);
    lemma_contains_extend(p21, l11, x7);
    lemma_contains_extend(p22, x11, x7);
    lemma_contains_extend(p23, l12, x7);
    lemma_contains_extend(p24, x12, x7);
    lemma_contains_extend(p25, l13, x7);
    lemma_contains_suffix(p16, x8);
    lemma_contains_extend(p17, l9, x8);
    lemma_contains_extend(p18, x9, x8);
    lemma_contains_extend(p19, l10, x8);
    lemma_contains_extend(p20, x10, x8);
    lemma_contains_extend(p21, l11, x8);
    lemma_contains_extend(p22, x11, x8);
    lemma_contains_extend(p23, l12, x8);
    lemma_contains_extend(p24, x12, x8);
    lemma_contains_extend(p25, l13, x8);
    lemma_contains_suffix(p18, x9);
    lemma_contains_extend(p19, l10, x9);
    lemma_contains_extend(p20, x10, x9);
    lemma_contains_extend(p21, l11, x9);
    lemma_contains_extend(p22, x11, x9);
    lemma_contains_extend(p23, l12, x9);
    lemma_contains_extend(p24, x12, x9);
    lemma_contains_extend(p25, l13, x9);
    lemma_contains_suffix(p20, x10);
    lemma_contains_extend(p21, l11, x10);
    lemma_contains_extend(p22, x11, x10);
    lemma_contains_extend(p23, l12, x10);
    lemma_contains_extend(p24, x12, x10);
    lemma_contains_extend(p25, l13, x10);
    lemma_contains_suffix(p22, x11);
    lemma_contains_extend(p23, l12, x11);
    lemma_contains_extend(p24, x12, x11);
    lemma_contains_extend(p25, l13, x11);
    lemma_contains_suffix(p24, x12);
    lemma_contains_extend(p25, l13, x12);
    assert(p26 == spec_html(v));
}

} // verus!
