//! The JSON projection of a report.
//!
//! The wire contract this library commits to: one object with the
//! fixed keys `ip`, `isp`, `geographic`, `connection` and `proxy`, in
//! that order, with no whitespace; strings escape `"`, `\` and control
//! characters (the latter as `\u00XX`); the enumerated categories
//! serialize as their tag string, and their open variants as a
//! one-key object carrying the label; coordinates serialize as
//! fixed-point microdegree numerals with six fractional digits.

use vstd::prelude::*;

use crate::model::ConnSpeed;
use crate::model::ConnSpeedView;
use crate::model::ConnType;
use crate::model::ConnTypeView;
use crate::model::Continent;
use crate::model::ContinentView;
use crate::model::GeoIPConnectionInfo;
use crate::model::GeoIPConnectionInfoView;
use crate::model::GeoIPGeographicInfo;
use crate::model::GeoIPGeographicInfoView;
use crate::model::GeoIPISPInfo;
use crate::model::GeoIPISPInfoView;
use crate::model::GeoIPProxyInfo;
use crate::model::GeoIPProxyInfoView;
use crate::model::GeoIPResponse;
use crate::model::GeoIPResponseView;
use crate::model::ProxyDescription;
use crate::model::ProxyDescriptionView;
use crate::model::ProxyType;
use crate::model::ProxyTypeView;
use crate::text::hex_digit;
use crate::text::hex_digit_str;
use crate::text::spec_coord;
use crate::text::spec_ip_text;
use crate::text::spec_udec;
use crate::text::coord_to_string;
use crate::text::ip_to_string;
use crate::text::u64_to_dec;

verus! {

/// How one character appears inside a JSON string literal.
pub open spec fn esc_char(c: char) -> Seq<char> {
    if c == '"' {
        seq!['\\', '"']
    } else if c == '\\' {
        seq!['\\', '\\']
    } else if (c as u32) < 32 {
        seq!['\\', 'u', '0', '0', hex_digit(((c as u32) / 16) as nat), hex_digit(
            ((c as u32) % 16) as nat,
        )]
    } else {
        seq![c]
    }
}

/// The body of a JSON string literal: every character escaped as
/// [`esc_char`] says.
pub open spec fn spec_escape_json(s: Seq<char>) -> Seq<char>
    decreases s.len(),
{
    if s.len() == 0 {
        Seq::empty()
    } else {
        spec_escape_json(s.drop_last()) + esc_char(s.last())
    }
}

/// A complete JSON string literal, quotes included.
pub open spec fn jstr(s: Seq<char>) -> Seq<char> {
    seq!['"'] + spec_escape_json(s) + seq!['"']
}

/// The JSON fragment for a continent.
pub open spec fn continent_json(c: ContinentView) -> Seq<char> {
    match c {
        ContinentView::Africa => "\"AF\""@,
        ContinentView::Antarctica => "\"AN\""@,
        ContinentView::Asia => "\"AS\""@,
        ContinentView::Europe => "\"EU\""@,
        ContinentView::NorthAmerica => "\"NA\""@,
        ContinentView::Oceania => "\"OC\""@,
        ContinentView::SouthAmerica => "\"SA\""@,
        ContinentView::Other(s) => "{\"Other\":"@ + (jstr(s) + "}"@),
    }
}

/// The JSON fragment for a connection-speed category.
pub open spec fn conn_speed_json(c: ConnSpeedView) -> Seq<char> {
    match c {
        ConnSpeedView::Broadband => "\"broadband\""@,
        ConnSpeedView::Cable => "\"cable\""@,
        ConnSpeedView::Dialup => "\"dialup\""@,
        ConnSpeedView::Mobile => "\"mobile\""@,
        ConnSpeedView::Oc12 => "\"oc12\""@,
        ConnSpeedView::Oc3 => "\"oc3\""@,
        ConnSpeedView::Satellite => "\"satellite\""@,
        ConnSpeedView::T1 => "\"t1\""@,
        ConnSpeedView::T3 => "\"t3\""@,
        ConnSpeedView::UltraBroadband => "\"ultrabb\""@,
        ConnSpeedView::Wireless => "\"wireless\""@,
        ConnSpeedView::Xdsl => "\"xdsl\""@,
        ConnSpeedView::Other(s) => "{\"other\":"@ + (jstr(s) + "}"@),
    }
}

/// The JSON fragment for a connection-type category.
pub open spec fn conn_type_json(c: ConnTypeView) -> Seq<char> {
    match c {
        ConnTypeView::Wired => "\"wired\""@,
        ConnTypeView::Wifi => "\"wifi\""@,
        ConnTypeView::Mobile => "\"mobile\""@,
        ConnTypeView::Dialup => "\"dialup\""@,
        ConnTypeView::Satellite => "\"satellite\""@,
        ConnTypeView::Unknown => "\"?\""@,
        ConnTypeView::Other(s) => "{\"other\":"@ + (jstr(s) + "}"@),
    }
}

/// The JSON fragment for a proxy-type category.
pub open spec fn proxy_type_json(c: ProxyTypeView) -> Seq<char> {
    match c {
        ProxyTypeView::Anonymous => "\"anonymous\""@,
        ProxyTypeView::Aol => "\"aol\""@,
        ProxyTypeView::Blackberry => "\"blackberry\""@,
        ProxyTypeView::Corporate => "\"corporate\""@,
        ProxyTypeView::Edu => "\"edu\""@,
        ProxyTypeView::Hosting => "\"hosting\""@,
        ProxyTypeView::Public => "\"public\""@,
        ProxyTypeView::Transparent => "\"transparent\""@,
        ProxyTypeView::Unknown => "\"?\""@,
        ProxyTypeView::Other(s) => "{\"other\":"@ + (jstr(s) + "}"@),
    }
}

/// The JSON fragment for a proxy-description category.
pub open spec fn proxy_description_json(c: ProxyDescriptionView) -> Seq<char> {
    match c {
        ProxyDescriptionView::Cloud => "\"cloud\""@,
        ProxyDescriptionView::CloudSecurity => "\"cloud-security\""@,
        ProxyDescriptionView::Dns => "\"dns\""@,
        ProxyDescriptionView::TorExit => "\"tor-exit\""@,
        ProxyDescriptionView::TorRelay => "\"tor-relay\""@,
        ProxyDescriptionView::Vpn => "\"vpn\""@,
        ProxyDescriptionView::WebBrowser => "\"web-browser\""@,
        ProxyDescriptionView::Unknown => "\"?\""@,
        ProxyDescriptionView::Other(s) => "{\"other\":"@ + (jstr(s) + "}"@),
    }
}

/// The JSON object for the ISP facts.
pub open spec fn isp_json(i: GeoIPISPInfoView) -> Seq<char> {
    "{\"isp_name\":"@ + (jstr(i.isp_name) + (",\"isp_asn\":"@ + (spec_udec(i.isp_asn as nat)
        + "}"@)))
}

/// The JSON object for the geographic facts.
pub open spec fn geographic_json(g: GeoIPGeographicInfoView) -> Seq<char> {
    "{\"city\":"@ + (jstr(g.city) + (",\"country\":"@ + (jstr(g.country) + (",\"continent\":"@
        + (continent_json(g.continent) + (",\"postal_code\":"@ + (jstr(g.postal_code)
        + (",\"latitude\":"@ + (spec_coord(g.latitude as int) + (",\"longitude\":"@
        + (spec_coord(g.longitude as int) + "}"@)))))))))))
}

/// The JSON object for the connection facts.
pub open spec fn connection_json(c: GeoIPConnectionInfoView) -> Seq<char> {
    "{\"connection_speed\":"@ + (conn_speed_json(c.connection_speed) + (",\"connection_type\":"@
        + (conn_type_json(c.connection_type) + "}"@)))
}

/// The JSON object for the proxy facts.
pub open spec fn proxy_json(p: GeoIPProxyInfoView) -> Seq<char> {
    "{\"proxy_type\":"@ + (proxy_type_json(p.proxy_type) + (",\"proxy_description\":"@
        + (proxy_description_json(p.proxy_description) + "}"@)))
}

/// The complete JSON document for a report.
pub open spec fn spec_json(v: GeoIPResponseView) -> Seq<char> {
    "{\"ip\":"@ + (jstr(spec_ip_text(v.ip)) + (",\"isp\":"@ + (isp_json(v.isp)
        + (",\"geographic\":"@ + (geographic_json(v.geographic) + (",\"connection\":"@
        + (connection_json(v.connection) + (",\"proxy\":"@ + (proxy_json(v.proxy) + "}"@)))))))))
}

/// Escape the characters of `s` for use inside a JSON string literal.
pub fn escape_json(s: &str) -> (r: String)
    ensures
        r@ == spec_escape_json(s@),
{
    proof {
        reveal_strlit("\\\"");
        reveal_strlit("\\\\");
        reveal_strlit("\\u00");
    }
    let len = s.unicode_len();
    let mut out = String::new();
    let mut i: usize = 0;
    while i < len
        invariant
            i <= len,
            len == s@.len(),
            out@ == spec_escape_json(s@.take(i as int)),
        decreases len - i,
    {
        let c = s.get_char(i);
        if c == '"' {
            out.append("\\\"");
            proof {
                reveal_strlit("\\\"");
                assert("\\\""@ =~= esc_char(c));
            }
        } else if c == '\\' {
            out.append("\\\\");
            proof {
                reveal_strlit("\\\\");
                assert("\\\\"@ =~= esc_char(c));
            }
        } else if (c as u32) < 32 {
            let code: u32 = c as u32;
            out.append("\\u00");
            out.append(hex_digit_str((code / 16) as u64));
            out.append(hex_digit_str((code % 16) as u64));
            proof {
                reveal_strlit("\\u00");
                assert("\\u00"@ + seq![hex_digit((code / 16) as nat)] + seq![
                    hex_digit((code % 16) as nat),
                ] =~= esc_char(c));
            }
        } else {
            let piece = s.substring_char(i, i + 1);
            out.append(piece);
            proof {
                assert(piece@ =~= esc_char(c));
            }
        }
        proof {
            assert(s@.take(i as int + 1).drop_last() =~= s@.take(i as int));
            assert(s@.take(i as int + 1).last() == s@[i as int]);
        }
        i = i + 1;
    }
    proof {
        assert(s@.take(len as int) =~= s@);
    }
    out
}

/// Render a complete JSON string literal for `s`.
pub fn render_jstr(s: &str) -> (r: String)
    ensures
        r@ == jstr(s@),
{
    proof {
        reveal_strlit("\"");
        assert("\""@ =~= seq!['"']);
    }
    let mut out = String::from_str("\"");
    out.append(escape_json(s).as_str());
    out.append("\"");
    proof {
        assert(out@ =~= jstr(s@));
    }
    out
}

/// Render the open variant of a category: a one-key object whose key
/// is `tag` and whose value is the label.
fn render_other(tag: &str, label: &str) -> (r: String)
    requires
        tag@ == "{\"Other\":"@ || tag@ == "{\"other\":"@,
    ensures
        r@ == tag@ + jstr(label@) + "}"@,
{
    proof {
        reveal_strlit("}");
    }
    let mut out = String::from_str(tag);
    out.append(render_jstr(label).as_str());
    out.append("}");
    proof {
        assert(out@ =~= tag@ + jstr(label@) + "}"@);
    }
    out
}

/// Render the JSON fragment for a continent.
pub fn render_continent(c: &Continent) -> (r: String)
    ensures
        r@ == continent_json(c@),
{
    match c {
        Continent::Africa => String::from_str("\"AF\""),
        Continent::Antarctica => String::from_str("\"AN\""),
        Continent::Asia => String::from_str("\"AS\""),
        Continent::Europe => String::from_str("\"EU\""),
        Continent::NorthAmerica => String::from_str("\"NA\""),
        Continent::Oceania => String::from_str("\"OC\""),
        Continent::SouthAmerica => String::from_str("\"SA\""),
        Continent::Other(s) => render_other("{\"Other\":", s.as_str()),
    }
}

/// Render the JSON fragment for a connection-speed category.
pub fn render_conn_speed(c: &ConnSpeed) -> (r: String)
    ensures
        r@ == conn_speed_json(c@),
{
    match c {
        ConnSpeed::Broadband => String::from_str("\"broadband\""),
        ConnSpeed::Cable => String::from_str("\"cable\""),
        ConnSpeed::Dialup => String::from_str("\"dialup\""),
        ConnSpeed::Mobile => String::from_str("\"mobile\""),
        ConnSpeed::Oc12 => String::from_str("\"oc12\""),
        ConnSpeed::Oc3 => String::from_str("\"oc3\""),
        ConnSpeed::Satellite => String::from_str("\"satellite\""),
        ConnSpeed::T1 => String::from_str("\"t1\""),
        ConnSpeed::T3 => String::from_str("\"t3\""),
        ConnSpeed::UltraBroadband => String::from_str("\"ultrabb\""),
        ConnSpeed::Wireless => String::from_str("\"wireless\""),
        ConnSpeed::Xdsl => String::from_str("\"xdsl\""),
        ConnSpeed::Other(s) => render_other("{\"other\":", s.as_str()),
    }
}

/// Render the JSON fragment for a connection-type category.
pub fn render_conn_type(c: &ConnType) -> (r: String)
    ensures
        r@ == conn_type_json(c@),
{
    match c {
        ConnType::Wired => String::from_str("\"wired\""),
        ConnType::Wifi => String::from_str("\"wifi\""),
        ConnType::Mobile => String::from_str("\"mobile\""),
        ConnType::Dialup => String::from_str("\"dialup\""),
        ConnType::Satellite => String::from_str("\"satellite\""),
        ConnType::Unknown => String::from_str("\"?\""),
        ConnType::Other(s) => render_other("{\"other\":", s.as_str()),
    }
}

/// Render the JSON fragment for a proxy-type category.
pub fn render_proxy_type(c: &ProxyType) -> (r: String)
    ensures
        r@ == proxy_type_json(c@),
{
    match c {
        ProxyType::Anonymous => String::from_str("\"anonymous\""),
        ProxyType::Aol => String::from_str("\"aol\""),
        ProxyType::Blackberry => String::from_str("\"blackberry\""),
        ProxyType::Corporate => String::from_str("\"corporate\""),
        ProxyType::Edu => String::from_str("\"edu\""),
        ProxyType::Hosting => String::from_str("\"hosting\""),
        ProxyType::Public => String::from_str("\"public\""),
        ProxyType::Transparent => String::from_str("\"transparent\""),
        ProxyType::Unknown => String::from_str("\"?\""),
        ProxyType::Other(s) => render_other("{\"other\":", s.as_str()),
    }
}

/// Render the JSON fragment for a proxy-description category.
pub fn render_proxy_description(c: &ProxyDescription) -> (r: String)
    ensures
        r@ == proxy_description_json(c@),
{
    match c {
        ProxyDescription::Cloud => String::from_str("\"cloud\""),
        ProxyDescription::CloudSecurity => String::from_str("\"cloud-security\""),
        ProxyDescription::Dns => String::from_str("\"dns\""),
        ProxyDescription::TorExit => String::from_str("\"tor-exit\""),
        ProxyDescription::TorRelay => String::from_str("\"tor-relay\""),
        ProxyDescription::Vpn => String::from_str("\"vpn\""),
        ProxyDescription::WebBrowser => String::from_str("\"web-browser\""),
        ProxyDescription::Unknown => String::from_str("\"?\""),
        ProxyDescription::Other(s) => render_other("{\"other\":", s.as_str()),
    }
}

/// Render the JSON object for the ISP facts.
pub fn render_isp(i: &GeoIPISPInfo) -> (r: String)
    ensures
        r@ == isp_json(i@),
{
    let mut out = String::from_str("{\"isp_name\":");
    out.append(render_jstr(i.isp_name.as_str()).as_str());
    out.append(",\"isp_asn\":");
    out.append(u64_to_dec(i.isp_asn as u64).as_str());
    out.append("}");
    proof {
        assert(out@ =~= isp_json(i@));
    }
    out
}

/// Render the JSON object for the geographic facts.
pub fn render_geographic(g: &GeoIPGeographicInfo) -> (r: String)
    ensures
        r@ == geographic_json(g@),
{
    let mut out = String::from_str("{\"city\":");
    out.append(render_jstr(g.city.as_str()).as_str());
    out.append(",\"country\":");
    out.append(render_jstr(g.country.as_str()).as_str());
    out.append(",\"continent\":");
    out.append(render_continent(&g.continent).as_str());
    out.append(",\"postal_code\":");
    out.append(render_jstr(g.postal_code.as_str()).as_str());
    out.append(",\"latitude\":");
    out.append(coord_to_string(g.latitude).as_str());
    out.append(",\"longitude\":");
    out.append(coord_to_string(g.longitude).as_str());
    out.append("}");
    proof {
        assert(out@ =~= geographic_json(g@));
    }
    out
}

/// Render the JSON object for the connection facts.
pub fn render_connection(c: &GeoIPConnectionInfo) -> (r: String)
    ensures
        r@ == connection_json(c@),
{
    let mut out = String::from_str("{\"connection_speed\":");
    out.append(render_conn_speed(&c.connection_speed).as_str());
    out.append(",\"connection_type\":");
    out.append(render_conn_type(&c.connection_type).as_str());
    out.append("}");
    proof {
        assert(out@ =~= connection_json(c@));
    }
    out
}

/// Render the JSON object for the proxy facts.
pub fn render_proxy(p: &GeoIPProxyInfo) -> (r: String)
    ensures
        r@ == proxy_json(p@),
{
    let mut out = String::from_str("{\"proxy_type\":");
    out.append(render_proxy_type(&p.proxy_type).as_str());
    out.append(",\"proxy_description\":");
    out.append(render_proxy_description(&p.proxy_description).as_str());
    out.append("}");
    proof {
        assert(out@ =~= proxy_json(p@));
    }
    out
}

/// Render the complete JSON document for a report.
///
/// The output is a pure function of the record: rendering the same
/// record twice yields byte-identical text.
#[verifier::rlimit(100)]
pub fn render_json(r: &GeoIPResponse) -> (out: String)
    ensures
        out@ == spec_json(r@),
{
    let mut out = String::from_str("{\"ip\":");
    out.append(render_jstr(ip_to_string(&r.ip).as_str()).as_str());
    out.append(",\"isp\":");
    out.append(render_isp(&r.isp).as_str());
    out.append(",\"geographic\":");
    out.append(render_geographic(&r.geographic).as_str());
    out.append(",\"connection\":");
    out.append(render_connection(&r.connection).as_str());
    out.append(",\"proxy\":");
    out.append(render_proxy(&r.proxy).as_str());
    out.append("}");
    proof {
        assert(out@ =~= spec_json(r@));
    }
    out
}

} // verus!
