use ifconfig_fastly::html::render_html;
use ifconfig_fastly::html::GeoIPTemplate;
use ifconfig_fastly::json::render_json;
use ifconfig_fastly::model::build;
use ifconfig_fastly::model::ConnSpeed;
use ifconfig_fastly::model::ConnType;
use ifconfig_fastly::model::Continent;
use ifconfig_fastly::model::GeoIPConnectionInfo;
use ifconfig_fastly::model::GeoIPGeographicInfo;
use ifconfig_fastly::model::GeoIPISPInfo;
use ifconfig_fastly::model::GeoIPProxyInfo;
use ifconfig_fastly::model::GeoIPResponse;
use ifconfig_fastly::model::GeoIPUserAgentInfo;
use ifconfig_fastly::model::IpAddress;
use ifconfig_fastly::model::ProxyDescription;
use ifconfig_fastly::model::ProxyType;
use ifconfig_fastly::model::RawGeoData;
use ifconfig_fastly::parse::parse_json;
use ifconfig_fastly::router::respond;
use ifconfig_fastly::router::route;
use ifconfig_fastly::router::ContentType;
use ifconfig_fastly::router::Method;
use ifconfig_fastly::router::RouteDecision;
use ifconfig_fastly::text::coord_to_string;
use ifconfig_fastly::text::ip_to_string;
use ifconfig_fastly::text::u64_to_dec;
use ifconfig_fastly::text::u64_to_hex;

fn seattle_lookup() -> RawGeoData {
    RawGeoData {
        as_name: String::from("Example Backbone"),
        as_number: 12345,
        city: String::from("Seattle"),
        country_name: String::from("United States"),
        continent: Continent::NorthAmerica,
        postal_code: String::from("98101"),
        latitude: 47_606_200,
        longitude: -122_332_100,
        conn_speed: ConnSpeed::Broadband,
        conn_type: ConnType::Wired,
        proxy_type: ProxyType::Public,
        proxy_description: ProxyDescription::Vpn,
    }
}

#[test]
fn build_fallback_uses_documented_defaults() {
    let ip = IpAddress::V4(203, 0, 113, 7);
    let rec = build(ip, None);
    assert_eq!(rec.ip, ip);
    assert_eq!(rec.isp.isp_name, "No GeoIP Info Available");
    assert_eq!(rec.isp.isp_asn, 0);
    assert_eq!(rec.geographic.city, "No GeoIP Info Available");
    assert_eq!(rec.geographic.country, "No GeoIP Info Available");
    assert_eq!(
        rec.geographic.continent,
        Continent::Other(String::from("Unknown"))
    );
    assert_eq!(rec.geographic.postal_code, "No GeoIP Info Available");
    assert_eq!(rec.geographic.latitude, 0);
    assert_eq!(rec.geographic.longitude, 0);
    assert_eq!(
        rec.connection.connection_speed,
        ConnSpeed::Other(String::from("Unknown"))
    );
    assert_eq!(
        rec.connection.connection_type,
        ConnType::Other(String::from("Unknown"))
    );
    assert_eq!(rec.proxy.proxy_type, ProxyType::Unknown);
    assert_eq!(rec.proxy.proxy_description, ProxyDescription::Unknown);
}

#[test]
fn build_populated_maps_every_field() {
    let ip = IpAddress::V4(198, 51, 100, 23);
    let rec = build(ip, Some(seattle_lookup()));
    assert_eq!(rec.ip, ip);
    assert_eq!(rec.isp.isp_name, "Example Backbone");
    assert_eq!(rec.isp.isp_asn, 12345);
    assert_eq!(rec.geographic.city, "Seattle");
    assert_eq!(rec.geographic.country, "United States");
    assert_eq!(rec.geographic.continent, Continent::NorthAmerica);
    assert_eq!(rec.geographic.postal_code, "98101");
    assert_eq!(rec.geographic.latitude, 47_606_200);
    assert_eq!(rec.geographic.longitude, -122_332_100);
    assert_eq!(rec.connection.connection_speed, ConnSpeed::Broadband);
    assert_eq!(rec.connection.connection_type, ConnType::Wired);
    assert_eq!(rec.proxy.proxy_type, ProxyType::Public);
    assert_eq!(rec.proxy.proxy_description, ProxyDescription::Vpn);
}

#[test]
fn populated_json_contains_expected_fragments() {
    let rec = build(IpAddress::V4(198, 51, 100, 23), Some(seattle_lookup()));
    let doc = render_json(&rec);
    assert!(doc.contains("\"city\":\"Seattle\""));
    assert!(doc.contains("\"isp_asn\":12345"));
    assert!(doc.contains("\"ip\":\"198.51.100.23\""));
    assert!(doc.contains("\"country\":\"United States\""));
    assert!(doc.contains("\"continent\":\"NA\""));
    assert!(doc.contains("\"latitude\":47.606200"));
    assert!(doc.contains("\"longitude\":-122.332100"));
}

#[test]
fn fallback_json_has_default_wire_values() {
    let rec = build(IpAddress::V4(203, 0, 113, 7), None);
    let doc = render_json(&rec);
    assert!(doc.contains("\"ip\":\"203.0.113.7\""));
    assert!(doc.contains("\"isp_name\":\"No GeoIP Info Available\""));
    assert!(doc.contains("\"isp_asn\":0"));
    assert!(doc.contains("\"continent\":{\"Other\":\"Unknown\"}"));
    assert!(doc.contains("\"connection_speed\":{\"other\":\"Unknown\"}"));
    assert!(doc.contains("\"proxy_type\":\"?\""));
    assert!(doc.contains("\"latitude\":0.000000"));
}

#[test]
fn json_round_trip_populated() {
    let rec = build(IpAddress::V4(198, 51, 100, 23), Some(seattle_lookup()));
    let doc = render_json(&rec);
    let back = parse_json(doc.as_str());
    assert_eq!(back, Some(rec));
}

#[test]
fn json_round_trip_fallback() {
    let rec = build(IpAddress::V4(203, 0, 113, 7), None);
    let doc = render_json(&rec);
    let back = parse_json(doc.as_str());
    assert_eq!(back, Some(rec));
}

#[test]
fn json_round_trip_hostile_strings() {
    let mut raw = seattle_lookup();
    raw.city = String::from("Sea\"ttle\\\n\u{1}");
    raw.country_name = String::from("Ünited \u{1f30d} States");
    raw.continent = Continent::Other(String::from("At\"lantis"));
    raw.conn_speed = ConnSpeed::Other(String::from("warp\\9"));
    let rec = build(IpAddress::V6(0x2001, 0xdb8, 0, 0, 0, 0, 0, 1), Some(raw));
    let doc = render_json(&rec);
    let back = parse_json(doc.as_str());
    assert_eq!(back, Some(rec));
}

#[test]
fn json_rendering_is_idempotent() {
    let rec = build(IpAddress::V4(198, 51, 100, 23), Some(seattle_lookup()));
    assert_eq!(render_json(&rec), render_json(&rec));
}

#[test]
fn html_rendering_is_idempotent() {
    let rec = build(IpAddress::V4(198, 51, 100, 23), Some(seattle_lookup()));
    assert_eq!(render_html(&rec), render_html(&rec));
}

#[test]
fn parse_json_rejects_non_canonical_text() {
    assert_eq!(parse_json(""), None);
    assert_eq!(parse_json("{}"), None);
    assert_eq!(parse_json("{\"ip\":\"nonsense\"}"), None);
    let rec = build(IpAddress::V4(203, 0, 113, 7), None);
    let mut doc = render_json(&rec);
    doc.push(' ');
    assert_eq!(parse_json(doc.as_str()), None);
}

#[test]
fn html_contains_every_field_text() {
    let rec = build(IpAddress::V4(198, 51, 100, 23), Some(seattle_lookup()));
    let page = render_html(&rec);
    assert!(page.contains("198.51.100.23"));
    assert!(page.contains("Example Backbone"));
    assert!(page.contains("12345"));
    assert!(page.contains("Seattle"));
    assert!(page.contains("United States"));
    assert!(page.contains("North America"));
    assert!(page.contains("98101"));
    assert!(page.contains("47.606200"));
    assert!(page.contains("-122.332100"));
    assert!(page.contains("Broadband"));
    assert!(page.contains("Wired"));
    assert!(page.contains("Public"));
    assert!(page.contains("VPN"));
}

#[test]
fn html_escapes_special_characters() {
    let mut raw = seattle_lookup();
    raw.city = String::from("<Sea&ttle>");
    let rec = build(IpAddress::V4(198, 51, 100, 23), Some(raw));
    let page = render_html(&rec);
    assert!(page.contains("&lt;Sea&amp;ttle&gt;"));
    assert!(!page.contains("<Sea&ttle>"));
}

#[test]
fn method_rejection_yields_405_with_allow_header() {
    let rec = build(IpAddress::V4(203, 0, 113, 7), None);
    let rep = respond(Method::Post, "/", &rec);
    assert_eq!(rep.status, 405);
    assert_eq!(rep.content_type, ContentType::TextPlain);
    assert_eq!(rep.allow.as_deref(), Some("GET, HEAD"));
    assert_eq!(rep.body, "This method is not allowed\n");
}

#[test]
fn unknown_path_yields_404_plain_text() {
    let rec = build(IpAddress::V4(203, 0, 113, 7), None);
    let rep = respond(Method::Get, "/status", &rec);
    assert_eq!(rep.status, 404);
    assert_eq!(rep.content_type, ContentType::TextPlain);
    assert!(rep.allow.is_none());
    assert_eq!(rep.body, "The page you requested could not be found\n");
}

#[test]
fn root_path_serves_html() {
    let rec = build(IpAddress::V4(198, 51, 100, 23), Some(seattle_lookup()));
    let rep = respond(Method::Get, "/", &rec);
    assert_eq!(rep.status, 200);
    assert_eq!(rep.content_type, ContentType::TextHtml);
    assert_eq!(rep.body, render_html(&rec));
}

#[test]
fn json_path_serves_json_for_head_too() {
    let rec = build(IpAddress::V4(198, 51, 100, 23), Some(seattle_lookup()));
    let rep = respond(Method::Head, "/json", &rec);
    assert_eq!(rep.status, 200);
    assert_eq!(rep.content_type, ContentType::Json);
    assert_eq!(rep.body, render_json(&rec));
}

#[test]
fn route_decisions_cover_all_branches() {
    assert_eq!(route(Method::Get, "/"), RouteDecision::Html);
    assert_eq!(route(Method::Head, "/"), RouteDecision::Html);
    assert_eq!(route(Method::Get, "/json"), RouteDecision::Json);
    assert_eq!(route(Method::Get, "/other"), RouteDecision::NotFound);
    assert_eq!(route(Method::Put, "/json"), RouteDecision::MethodNotAllowed);
    assert_eq!(route(Method::Delete, "/"), RouteDecision::MethodNotAllowed);
    assert_eq!(route(Method::Other, "/"), RouteDecision::MethodNotAllowed);
}

#[test]
fn ip_text_forms() {
    assert_eq!(ip_to_string(&IpAddress::V4(203, 0, 113, 7)), "203.0.113.7");
    assert_eq!(ip_to_string(&IpAddress::V4(0, 0, 0, 0)), "0.0.0.0");
    assert_eq!(
        ip_to_string(&IpAddress::V4(255, 255, 255, 255)),
        "255.255.255.255"
    );
    assert_eq!(
        ip_to_string(&IpAddress::V6(0x2001, 0xdb8, 0, 0, 0, 0, 0, 1)),
        "2001:db8:0:0:0:0:0:1"
    );
    assert_eq!(
        ip_to_string(&IpAddress::V6(
            0xffff, 0xffff, 0xffff, 0xffff, 0xffff, 0xffff, 0xffff, 0xffff
        )),
        "ffff:ffff:ffff:ffff:ffff:ffff:ffff:ffff"
    );
}

#[test]
fn numeral_forms() {
    assert_eq!(u64_to_dec(0), "0");
    assert_eq!(u64_to_dec(7), "7");
    assert_eq!(u64_to_dec(4294967295), "4294967295");
    assert_eq!(u64_to_hex(0), "0");
    assert_eq!(u64_to_hex(255), "ff");
    assert_eq!(u64_to_hex(65535), "ffff");
}

#[test]
fn coordinate_forms() {
    assert_eq!(coord_to_string(0), "0.000000");
    assert_eq!(coord_to_string(47_606_200), "47.606200");
    assert_eq!(coord_to_string(-122_332_100), "-122.332100");
    assert_eq!(coord_to_string(-1), "-0.000001");
    assert_eq!(coord_to_string(90_000_000), "90.000000");
}

#[test]
fn default_impls_match_documented_values() {
    let isp = GeoIPISPInfo::default();
    assert_eq!(isp.isp_name, "No GeoIP Info Available");
    assert_eq!(isp.isp_asn, 0);
    let geo = GeoIPGeographicInfo::default();
    assert_eq!(geo.continent, Continent::Other(String::from("Unknown")));
    assert_eq!(geo.latitude, 0);
    let conn = GeoIPConnectionInfo::default();
    assert_eq!(
        conn.connection_type,
        ConnType::Other(String::from("Unknown"))
    );
    let proxy = GeoIPProxyInfo::default();
    assert_eq!(proxy.proxy_type, ProxyType::Unknown);
    assert_eq!(proxy.proxy_description, ProxyDescription::Unknown);
    let agent = GeoIPUserAgentInfo::default();
    assert_eq!(agent.user_agent, "Agent Not known.");
}

#[test]
fn enum_wire_forms_round_trip() {
    let mut raw = seattle_lookup();
    raw.continent = Continent::Asia;
    raw.conn_speed = ConnSpeed::UltraBroadband;
    raw.conn_type = ConnType::Unknown;
    raw.proxy_type = ProxyType::Transparent;
    raw.proxy_description = ProxyDescription::TorExit;
    let rec = build(IpAddress::V4(1, 2, 3, 4), Some(raw));
    let doc = render_json(&rec);
    assert!(doc.contains("\"continent\":\"AS\""));
    assert!(doc.contains("\"connection_speed\":\"ultrabb\""));
    assert!(doc.contains("\"connection_type\":\"?\""));
    assert!(doc.contains("\"proxy_type\":\"transparent\""));
    assert!(doc.contains("\"proxy_description\":\"tor-exit\""));
    assert_eq!(parse_json(doc.as_str()), Some(rec));
}

#[test]
fn record_is_a_plain_value_object() {
    let rec = build(IpAddress::V4(198, 51, 100, 23), Some(seattle_lookup()));
    let copy = GeoIPResponse {
        ip: rec.ip,
        isp: rec.isp.clone(),
        geographic: rec.geographic.clone(),
        connection: rec.connection.clone(),
        proxy: rec.proxy.clone(),
    };
    assert_eq!(copy, rec);
    assert_eq!(render_json(&copy), render_json(&rec));
}

#[test]
fn template_renders_the_same_page() {
    let rec = build(IpAddress::V4(198, 51, 100, 23), Some(seattle_lookup()));
    let template = GeoIPTemplate {
        geo_ip_response: &rec,
    };
    assert_eq!(template.render(), render_html(&rec));
}

#[test]
fn coordinate_extremes_round_trip() {
    assert_eq!(coord_to_string(i64::MIN), "-9223372036854.775808");
    assert_eq!(coord_to_string(i64::MAX), "9223372036854.775807");
    let mut raw = seattle_lookup();
    raw.city = String::from("");
    raw.postal_code = String::from("");
    raw.latitude = i64::MIN;
    raw.longitude = i64::MAX;
    let rec = build(IpAddress::V4(10, 0, 0, 1), Some(raw));
    let doc = render_json(&rec);
    assert!(doc.contains("\"latitude\":-9223372036854.775808"));
    assert!(doc.contains("\"city\":\"\""));
    assert_eq!(parse_json(doc.as_str()), Some(rec));
}
