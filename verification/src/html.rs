//! The HTML projection of a report: one page with a table holding
//! every field of the record. Free-text values are escaped; the open
//! and unknown variants of the enumerated categories appear as their
//! carried or fixed label text, never as an internal variant name.

use vstd::prelude::*;

use crate::model::ConnSpeed;
use crate::model::ConnSpeedView;
use crate::model::ConnType;
use crate::model::ConnTypeView;
use crate::model::Continent;
use crate::model::ContinentView;
use crate::model::GeoIPResponse;
use crate::model::GeoIPResponseView;
use crate::model::ProxyDescription;
use crate::model::ProxyDescriptionView;
use crate::model::ProxyType;
use crate::model::ProxyTypeView;
use crate::text::coord_to_string;
use crate::text::ip_to_string;
use crate::text::spec_coord;
use crate::text::spec_ip_text;
use crate::text::spec_udec;
use crate::text::u64_to_dec;

verus! {

/// How one character appears inside HTML text.
pub open spec fn hesc_char(c: char) -> Seq<char> {
    if c == '&' {
        "&amp;"@
    } else if c == '<' {
        "&lt;"@
    } else if c == '>' {
        "&gt;"@
    } else if c == '"' {
        "&quot;"@
    } else if c == '\'' {
        "&#x27;"@
    } else {
        seq![c]
    }
}

/// HTML-escaped text: every character escaped as [`hesc_char`] says.
pub open spec fn spec_escape_html(s: Seq<char>) -> Seq<char>
    decreases s.len(),
{
    if s.len() == 0 {
        Seq::empty()
    } else {
        spec_escape_html(s.drop_last()) + hesc_char(s.last())
    }
}

/// The display label of a continent.
pub open spec fn continent_label(c: ContinentView) -> Seq<char> {
    match c {
        ContinentView::Africa => "Africa"@,
        ContinentView::Antarctica => "Antarctica"@,
        ContinentView::Asia => "Asia"@,
        ContinentView::Europe => "Europe"@,
        ContinentView::NorthAmerica => "North America"@,
        ContinentView::Oceania => "Oceania"@,
        ContinentView::SouthAmerica => "South America"@,
        ContinentView::Other(s) => s,
    }
}

/// The display label of a connection-speed category.
pub open spec fn conn_speed_label(c: ConnSpeedView) -> Seq<char> {
    match c {
        ConnSpeedView::Broadband => "Broadband"@,
        ConnSpeedView::Cable => "Cable"@,
        ConnSpeedView::Dialup => "Dialup"@,
        ConnSpeedView::Mobile => "Mobile"@,
        ConnSpeedView::Oc12 => "OC12"@,
        ConnSpeedView::Oc3 => "OC3"@,
        ConnSpeedView::Satellite => "Satellite"@,
        ConnSpeedView::T1 => "T1"@,
        ConnSpeedView::T3 => "T3"@,
        ConnSpeedView::UltraBroadband => "Ultra Broadband"@,
        ConnSpeedView::Wireless => "Wireless"@,
        ConnSpeedView::Xdsl => "xDSL"@,
        ConnSpeedView::Other(s) => s,
    }
}

/// The display label of a connection-type category.
pub open spec fn conn_type_label(c: ConnTypeView) -> Seq<char> {
    match c {
        ConnTypeView::Wired => "Wired"@,
        ConnTypeView::Wifi => "WiFi"@,
        ConnTypeView::Mobile => "Mobile"@,
        ConnTypeView::Dialup => "Dialup"@,
        ConnTypeView::Satellite => "Satellite"@,
        ConnTypeView::Unknown => "Unknown"@,
        ConnTypeView::Other(s) => s,
    }
}

/// The display label of a proxy-type category.
pub open spec fn proxy_type_label(c: ProxyTypeView) -> Seq<char> {
    match c {
        ProxyTypeView::Anonymous => "Anonymous"@,
        ProxyTypeView::Aol => "AOL"@,
        ProxyTypeView::Blackberry => "Blackberry"@,
        ProxyTypeView::Corporate => "Corporate"@,
        ProxyTypeView::Edu => "Edu"@,
        ProxyTypeView::Hosting => "Hosting"@,
        ProxyTypeView::Public => "Public"@,
        ProxyTypeView::Transparent => "Transparent"@,
        ProxyTypeView::Unknown => "Unknown"@,
        ProxyTypeView::Other(s) => s,
    }
}

/// The display label of a proxy-description category.
pub open spec fn proxy_description_label(c: ProxyDescriptionView) -> Seq<char> {
    match c {
        ProxyDescriptionView::Cloud => "Cloud"@,
        ProxyDescriptionView::CloudSecurity => "Cloud Security"@,
        ProxyDescriptionView::Dns => "DNS"@,
        ProxyDescriptionView::TorExit => "Tor Exit"@,
        ProxyDescriptionView::TorRelay => "Tor Relay"@,
        ProxyDescriptionView::Vpn => "VPN"@,
        ProxyDescriptionView::WebBrowser => "Web Browser"@,
        ProxyDescriptionView::Unknown => "Unknown"@,
        ProxyDescriptionView::Other(s) => s,
    }
}

/// The complete HTML document for a report.
///
/// The address and the numerals embed verbatim (their characters never
/// need escaping); every other value embeds HTML-escaped.
pub open spec fn spec_html(v: GeoIPResponseView) -> Seq<char> {
    "<!DOCTYPE html><html><head><title>GeoIP Information</title></head><body><h1>GeoIP Information</h1><table><tr><th>IP Address</th><td>"@
        + spec_ip_text(v.ip) + "</td></tr><tr><th>ISP Name</th><td>"@ + spec_escape_html(
        v.isp.isp_name,
    ) + "</td></tr><tr><th>ISP ASN</th><td>"@ + spec_udec(v.isp.isp_asn as nat)
        + "</td></tr><tr><th>City</th><td>"@ + spec_escape_html(v.geographic.city)
        + "</td></tr><tr><th>Country</th><td>"@ + spec_escape_html(v.geographic.country)
        + "</td></tr><tr><th>Continent</th><td>"@ + spec_escape_html(
        continent_label(v.geographic.continent),
    ) + "</td></tr><tr><th>Postal Code</th><td>"@ + spec_escape_html(v.geographic.postal_code)
        + "</td></tr><tr><th>Latitude</th><td>"@ + spec_coord(v.geographic.latitude as int)
        + "</td></tr><tr><th>Longitude</th><td>"@ + spec_coord(v.geographic.longitude as int)
        + "</td></tr><tr><th>Connection Speed</th><td>"@ + spec_escape_html(
        conn_speed_label(v.connection.connection_speed),
    ) + "</td></tr><tr><th>Connection Type</th><td>"@ + spec_escape_html(
        conn_type_label(v.connection.connection_type),
    ) + "</td></tr><tr><th>Proxy Type</th><td>"@ + spec_escape_html(
        proxy_type_label(v.proxy.proxy_type),
    ) + "</td></tr><tr><th>Proxy Description</th><td>"@ + spec_escape_html(
        proxy_description_label(v.proxy.proxy_description),
    ) + "</td></tr></table></body></html>"@
}

/// Escape the characters of `s` for use in HTML text.
pub fn escape_html(s: &str) -> (r: String)
    ensures
        r@ == spec_escape_html(s@),
{
    let len = s.unicode_len();
    let mut out = String::new();
    let mut i: usize = 0;
    while i < len
        invariant
            i <= len,
            len == s@.len(),
            out@ == spec_escape_html(s@.take(i as int)),
        decreases len - i,
    {
        let c = s.get_char(i);
        if c == '&' {
            out.append("&amp;");
        } else if c == '<' {
            out.append("&lt;");
        } else if c == '>' {
            out.append("&gt;");
        } else if c == '"' {
            out.append("&quot;");
        } else if c == '\'' {
            out.append("&#x27;");
        } else {
            let piece = s.substring_char(i, i + 1);
            out.append(piece);
            proof {
                assert(piece@ =~= hesc_char(c));
            }
        }
        proof {
            assert(s@.take(i as int + 1).drop_last() =~= s@.take(i as int));
            assert(s@.take(i as int + 1).last() == s@[i as int]);
        }
        i = i + 1;
    }
    proof {
        assert(s@.take(len as int) =~= s@);
    }
    out
}

/// The display label of a continent, as text.
pub fn continent_label_text<'a>(c: &'a Continent) -> (r: &'a str)
    ensures
        r@ == continent_label(c@),
{
    match c {
        Continent::Africa => "Africa",
        Continent::Antarctica => "Antarctica",
        Continent::Asia => "Asia",
        Continent::Europe => "Europe",
        Continent::NorthAmerica => "North America",
        Continent::Oceania => "Oceania",
        Continent::SouthAmerica => "South America",
        Continent::Other(s) => s.as_str(),
    }
}

/// The display label of a connection-speed category, as text.
pub fn conn_speed_label_text<'a>(c: &'a ConnSpeed) -> (r: &'a str)
    ensures
        r@ == conn_speed_label(c@),
{
    match c {
        ConnSpeed::Broadband => "Broadband",
        ConnSpeed::Cable => "Cable",
        ConnSpeed::Dialup => "Dialup",
        ConnSpeed::Mobile => "Mobile",
        ConnSpeed::Oc12 => "OC12",
        ConnSpeed::Oc3 => "OC3",
        ConnSpeed::Satellite => "Satellite",
        ConnSpeed::T1 => "T1",
        ConnSpeed::T3 => "T3",
        ConnSpeed::UltraBroadband => "Ultra Broadband",
        ConnSpeed::Wireless => "Wireless",
        ConnSpeed::Xdsl => "xDSL",
        ConnSpeed::Other(s) => s.as_str(),
    }
}

/// The display label of a connection-type category, as text.
pub fn conn_type_label_text<'a>(c: &'a ConnType) -> (r: &'a str)
    ensures
        r@ == conn_type_label(c@),
{
    match c {
        ConnType::Wired => "Wired",
        ConnType::Wifi => "WiFi",
        ConnType::Mobile => "Mobile",
        ConnType::Dialup => "Dialup",
        ConnType::Satellite => "Satellite",
        ConnType::Unknown => "Unknown",
        ConnType::Other(s) => s.as_str(),
    }
}

/// The display label of a proxy-type category, as text.
pub fn proxy_type_label_text<'a>(c: &'a ProxyType) -> (r: &'a str)
    ensures
        r@ == proxy_type_label(c@),
{
    match c {
        ProxyType::Anonymous => "Anonymous",
        ProxyType::Aol => "AOL",
        ProxyType::Blackberry => "Blackberry",
        ProxyType::Corporate => "Corporate",
        ProxyType::Edu => "Edu",
        ProxyType::Hosting => "Hosting",
        ProxyType::Public => "Public",
        ProxyType::Transparent => "Transparent",
        ProxyType::Unknown => "Unknown",
        ProxyType::Other(s) => s.as_str(),
    }
}

/// The display label of a proxy-description category, as text.
pub fn proxy_description_label_text<'a>(c: &'a ProxyDescription) -> (r: &'a str)
    ensures
        r@ == proxy_description_label(c@),
{
    match c {
        ProxyDescription::Cloud => "Cloud",
        ProxyDescription::CloudSecurity => "Cloud Security",
        ProxyDescription::Dns => "DNS",
        ProxyDescription::TorExit => "Tor Exit",
        ProxyDescription::TorRelay => "Tor Relay",
        ProxyDescription::Vpn => "VPN",
        ProxyDescription::WebBrowser => "Web Browser",
        ProxyDescription::Unknown => "Unknown",
        ProxyDescription::Other(s) => s.as_str(),
    }
}

/// Render the complete HTML document for a report.
///
/// The output is a pure function of the record: rendering the same
/// record twice yields byte-identical text.
#[verifier::rlimit(30)]
pub fn render_html(r: &GeoIPResponse) -> (out: String)
    ensures
        out@ == spec_html(r@),
{
    let mut out = String::from_str(
        "<!DOCTYPE html><html><head><title>GeoIP Information</title></head><body><h1>GeoIP Information</h1><table><tr><th>IP Address</th><td>",
    );
    out.append(ip_to_string(&r.ip).as_str());
    out.append("</td></tr><tr><th>ISP Name</th><td>");
    out.append(escape_html(r.isp.isp_name.as_str()).as_str());
    out.append("</td></tr><tr><th>ISP ASN</th><td>");
    out.append(u64_to_dec(r.isp.isp_asn as u64).as_str());
    out.append("</td></tr><tr><th>City</th><td>");
    out.append(escape_html(r.geographic.city.as_str()).as_str());
    out.append("</td></tr><tr><th>Country</th><td>");
    out.append(escape_html(r.geographic.country.as_str()).as_str());
    out.append("</td></tr><tr><th>Continent</th><td>");
    out.append(escape_html(continent_label_text(&r.geographic.continent)).as_str());
    out.append("</td></tr><tr><th>Postal Code</th><td>");
    out.append(escape_html(r.geographic.postal_code.as_str()).as_str());
    out.append("</td></tr><tr><th>Latitude</th><td>");
    out.append(coord_to_string(r.geographic.latitude).as_str());
    out.append("</td></tr><tr><th>Longitude</th><td>");
    out.append(coord_to_string(r.geographic.longitude).as_str());
    out.append("</td></tr><tr><th>Connection Speed</th><td>");
    out.append(escape_html(conn_speed_label_text(&r.connection.connection_speed)).as_str());
    out.append("</td></tr><tr><th>Connection Type</th><td>");
    out.append(escape_html(conn_type_label_text(&r.connection.connection_type)).as_str());
    out.append("</td></tr><tr><th>Proxy Type</th><td>");
    out.append(escape_html(proxy_type_label_text(&r.proxy.proxy_type)).as_str());
    out.append("</td></tr><tr><th>Proxy Description</th><td>");
    out.append(escape_html(proxy_description_label_text(&r.proxy.proxy_description)).as_str());
    out.append("</td></tr></table></body></html>");
    proof {
        assert(out@ =~= spec_html(r@));
    }
    out
}

/// A borrowed report paired with its page rendering: the template
/// view of the HTML projection.
pub struct GeoIPTemplate<'a> {
    pub geo_ip_response: &'a GeoIPResponse,
}

impl<'a> GeoIPTemplate<'a> {
    /// Render the page for the borrowed record. A well-formed record
    /// always renders; there is no failing configuration.
    pub fn render(&self) -> (out: String)
        ensures
            out@ == spec_html(self.geo_ip_response@),
    {
        render_html(self.geo_ip_response)
    }
}

} // verus!
