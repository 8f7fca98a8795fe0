//! The response data model: the client address, the enumerated
//! geolocation categories, the `GeoIP*` record structs, their default
//! values, and the builder that normalizes a raw lookup outcome into a
//! fully populated record.

use vstd::prelude::*;

verus! {

/// A client network address, IPv4 or IPv6.
///
/// The address is held as plain integers; its textual form is produced
/// by [`crate::text::ip_to_string`].
#[derive(Clone, Copy, Debug, PartialEq, Eq, Structural)]
pub enum IpAddress {
    /// An IPv4 address as its four octets.
    V4(u8, u8, u8, u8),
    /// An IPv6 address as its eight 16-bit groups.
    V6(u16, u16, u16, u16, u16, u16, u16, u16),
}

/// A continent, as reported by the geolocation source.
#[derive(Clone, Debug, PartialEq, Eq)]
pub enum Continent {
    Africa,
    Antarctica,
    Asia,
    Europe,
    NorthAmerica,
    Oceania,
    SouthAmerica,
    /// A continent name the enumeration does not know, carried verbatim.
    Other(String),
}

/// Ghost image of [`Continent`]: the label is a sequence of characters.
#[verifier::ext_equal]
pub enum ContinentView {
    Africa,
    Antarctica,
    Asia,
    Europe,
    NorthAmerica,
    Oceania,
    SouthAmerica,
    Other(Seq<char>),
}

impl View for Continent {
    type V = ContinentView;

    open spec fn view(&self) -> ContinentView {
        match self {
            Continent::Africa => ContinentView::Africa,
            Continent::Antarctica => ContinentView::Antarctica,
            Continent::Asia => ContinentView::Asia,
            Continent::Europe => ContinentView::Europe,
            Continent::NorthAmerica => ContinentView::NorthAmerica,
            Continent::Oceania => ContinentView::Oceania,
            Continent::SouthAmerica => ContinentView::SouthAmerica,
            Continent::Other(s) => ContinentView::Other(s@),
        }
    }
}

/// A connection-speed category.
#[derive(Clone, Debug, PartialEq, Eq)]
pub enum ConnSpeed {
    Broadband,
    Cable,
    Dialup,
    Mobile,
    Oc12,
    Oc3,
    Satellite,
    T1,
    T3,
    UltraBroadband,
    Wireless,
    Xdsl,
    /// A speed category the enumeration does not know, carried verbatim.
    Other(String),
}

/// Ghost image of [`ConnSpeed`].
#[verifier::ext_equal]
pub enum ConnSpeedView {
    Broadband,
    Cable,
    Dialup,
    Mobile,
    Oc12,
    Oc3,
    Satellite,
    T1,
    T3,
    UltraBroadband,
    Wireless,
    Xdsl,
    Other(Seq<char>),
}

impl View for ConnSpeed {
    type V = ConnSpeedView;

    open spec fn view(&self) -> ConnSpeedView {
        match self {
            ConnSpeed::Broadband => ConnSpeedView::Broadband,
            ConnSpeed::Cable => ConnSpeedView::Cable,
            ConnSpeed::Dialup => ConnSpeedView::Dialup,
            ConnSpeed::Mobile => ConnSpeedView::Mobile,
            ConnSpeed::Oc12 => ConnSpeedView::Oc12,
            ConnSpeed::Oc3 => ConnSpeedView::Oc3,
            ConnSpeed::Satellite => ConnSpeedView::Satellite,
            ConnSpeed::T1 => ConnSpeedView::T1,
            ConnSpeed::T3 => ConnSpeedView::T3,
            ConnSpeed::UltraBroadband => ConnSpeedView::UltraBroadband,
            ConnSpeed::Wireless => ConnSpeedView::Wireless,
            ConnSpeed::Xdsl => ConnSpeedView::Xdsl,
            ConnSpeed::Other(s) => ConnSpeedView::Other(s@),
        }
    }
}

/// A connection-type category.
#[derive(Clone, Debug, PartialEq, Eq)]
pub enum ConnType {
    Wired,
    Wifi,
    Mobile,
    Dialup,
    Satellite,
    Unknown,
    /// A type the enumeration does not know, carried verbatim.
    Other(String),
}

/// Ghost image of [`ConnType`].
#[verifier::ext_equal]
pub enum ConnTypeView {
    Wired,
    Wifi,
    Mobile,
    Dialup,
    Satellite,
    Unknown,
    Other(Seq<char>),
}

impl View for ConnType {
    type V = ConnTypeView;

    open spec fn view(&self) -> ConnTypeView {
        match self {
            ConnType::Wired => ConnTypeView::Wired,
            ConnType::Wifi => ConnTypeView::Wifi,
            ConnType::Mobile => ConnTypeView::Mobile,
            ConnType::Dialup => ConnTypeView::Dialup,
            ConnType::Satellite => ConnTypeView::Satellite,
            ConnType::Unknown => ConnTypeView::Unknown,
            ConnType::Other(s) => ConnTypeView::Other(s@),
        }
    }
}

/// A proxy-type category.
#[derive(Clone, Debug, PartialEq, Eq)]
pub enum ProxyType {
    Anonymous,
    Aol,
    Blackberry,
    Corporate,
    Edu,
    Hosting,
    Public,
    Transparent,
    /// The address is not known to be a proxy.
    Unknown,
    /// A proxy type the enumeration does not know, carried verbatim.
    Other(String),
}

/// Ghost image of [`ProxyType`].
#[verifier::ext_equal]
pub enum ProxyTypeView {
    Anonymous,
    Aol,
    Blackberry,
    Corporate,
    Edu,
    Hosting,
    Public,
    Transparent,
    Unknown,
    Other(Seq<char>),
}

impl View for ProxyType {
    type V = ProxyTypeView;

    open spec fn view(&self) -> ProxyTypeView {
        match self {
            ProxyType::Anonymous => ProxyTypeView::Anonymous,
            ProxyType::Aol => ProxyTypeView::Aol,
            ProxyType::Blackberry => ProxyTypeView::Blackberry,
            ProxyType::Corporate => ProxyTypeView::Corporate,
            ProxyType::Edu => ProxyTypeView::Edu,
            ProxyType::Hosting => ProxyTypeView::Hosting,
            ProxyType::Public => ProxyTypeView::Public,
            ProxyType::Transparent => ProxyTypeView::Transparent,
            ProxyType::Unknown => ProxyTypeView::Unknown,
            ProxyType::Other(s) => ProxyTypeView::Other(s@),
        }
    }
}

/// A proxy-description category.
#[derive(Clone, Debug, PartialEq, Eq)]
pub enum ProxyDescription {
    Cloud,
    CloudSecurity,
    Dns,
    TorExit,
    TorRelay,
    Vpn,
    WebBrowser,
    /// The address is not known to be a proxy.
    Unknown,
    /// A description the enumeration does not know, carried verbatim.
    Other(String),
}

/// Ghost image of [`ProxyDescription`].
#[verifier::ext_equal]
pub enum ProxyDescriptionView {
    Cloud,
    CloudSecurity,
    Dns,
    TorExit,
    TorRelay,
    Vpn,
    WebBrowser,
    Unknown,
    Other(Seq<char>),
}

impl View for ProxyDescription {
    type V = ProxyDescriptionView;

    open spec fn view(&self) -> ProxyDescriptionView {
        match self {
            ProxyDescription::Cloud => ProxyDescriptionView::Cloud,
            ProxyDescription::CloudSecurity => ProxyDescriptionView::CloudSecurity,
            ProxyDescription::Dns => ProxyDescriptionView::Dns,
            ProxyDescription::TorExit => ProxyDescriptionView::TorExit,
            ProxyDescription::TorRelay => ProxyDescriptionView::TorRelay,
            ProxyDescription::Vpn => ProxyDescriptionView::Vpn,
            ProxyDescription::WebBrowser => ProxyDescriptionView::WebBrowser,
            ProxyDescription::Unknown => ProxyDescriptionView::Unknown,
            ProxyDescription::Other(s) => ProxyDescriptionView::Other(s@),
        }
    }
}

/// ISP facts about the address.
#[derive(Clone, Debug, PartialEq, Eq)]
pub struct GeoIPISPInfo {
    pub isp_name: String,
    pub isp_asn: u32,
}

/// Ghost image of [`GeoIPISPInfo`].
#[verifier::ext_equal]
pub struct GeoIPISPInfoView {
    pub isp_name: Seq<char>,
    pub isp_asn: u32,
}

impl View for GeoIPISPInfo {
    type V = GeoIPISPInfoView;

    open spec fn view(&self) -> GeoIPISPInfoView {
        GeoIPISPInfoView { isp_name: self.isp_name@, isp_asn: self.isp_asn }
    }
}

/// Geographic facts about the address.
///
/// Latitude and longitude are carried as signed microdegrees (degrees
/// scaled by one million), the fixed-point wire form this library
/// commits to.
#[derive(Clone, Debug, PartialEq, Eq)]
pub struct GeoIPGeographicInfo {
    pub city: String,
    pub country: String,
    pub continent: Continent,
    pub postal_code: String,
    /// Latitude in microdegrees.
    pub latitude: i64,
    /// Longitude in microdegrees.
    pub longitude: i64,
}

/// Ghost image of [`GeoIPGeographicInfo`].
#[verifier::ext_equal]
pub struct GeoIPGeographicInfoView {
    pub city: Seq<char>,
    pub country: Seq<char>,
    pub continent: ContinentView,
    pub postal_code: Seq<char>,
    pub latitude: i64,
    pub longitude: i64,
}

impl View for GeoIPGeographicInfo {
    type V = GeoIPGeographicInfoView;

    open spec fn view(&self) -> GeoIPGeographicInfoView {
        GeoIPGeographicInfoView {
            city: self.city@,
            country: self.country@,
            continent: self.continent@,
            postal_code: self.postal_code@,
            latitude: self.latitude,
            longitude: self.longitude,
        }
    }
}

/// Connection facts about the address.
#[derive(Clone, Debug, PartialEq, Eq)]
pub struct GeoIPConnectionInfo {
    pub connection_speed: ConnSpeed,
    pub connection_type: ConnType,
}

/// Ghost image of [`GeoIPConnectionInfo`].
#[verifier::ext_equal]
pub struct GeoIPConnectionInfoView {
    pub connection_speed: ConnSpeedView,
    pub connection_type: ConnTypeView,
}

impl View for GeoIPConnectionInfo {
    type V = GeoIPConnectionInfoView;

    open spec fn view(&self) -> GeoIPConnectionInfoView {
        GeoIPConnectionInfoView {
            connection_speed: self.connection_speed@,
            connection_type: self.connection_type@,
        }
    }
}

/// Proxy-detection facts about the address.
#[derive(Clone, Debug, PartialEq, Eq)]
pub struct GeoIPProxyInfo {
    pub proxy_type: ProxyType,
    pub proxy_description: ProxyDescription,
}

/// Ghost image of [`GeoIPProxyInfo`].
#[verifier::ext_equal]
pub struct GeoIPProxyInfoView {
    pub proxy_type: ProxyTypeView,
    pub proxy_description: ProxyDescriptionView,
}

impl View for GeoIPProxyInfo {
    type V = GeoIPProxyInfoView;

    open spec fn view(&self) -> GeoIPProxyInfoView {
        GeoIPProxyInfoView {
            proxy_type: self.proxy_type@,
            proxy_description: self.proxy_description@,
        }
    }
}

/// The user agent reported by the client, with a fixed fallback text.
#[derive(Clone, Debug, PartialEq, Eq)]
pub struct GeoIPUserAgentInfo {
    pub user_agent: String,
}

/// The complete report on one address: the record a single request
/// builds, renders, and discards.
#[derive(Clone, Debug, PartialEq, Eq)]
pub struct GeoIPResponse {
    pub ip: IpAddress,
    pub isp: GeoIPISPInfo,
    pub geographic: GeoIPGeographicInfo,
    pub connection: GeoIPConnectionInfo,
    pub proxy: GeoIPProxyInfo,
}

/// Ghost image of [`GeoIPResponse`].
#[verifier::ext_equal]
pub struct GeoIPResponseView {
    pub ip: IpAddress,
    pub isp: GeoIPISPInfoView,
    pub geographic: GeoIPGeographicInfoView,
    pub connection: GeoIPConnectionInfoView,
    pub proxy: GeoIPProxyInfoView,
}

impl View for GeoIPResponse {
    type V = GeoIPResponseView;

    open spec fn view(&self) -> GeoIPResponseView {
        GeoIPResponseView {
            ip: self.ip,
            isp: self.isp@,
            geographic: self.geographic@,
            connection: self.connection@,
            proxy: self.proxy@,
        }
    }
}

/// The sentinel text every string field takes when the lookup returned
/// nothing usable.
pub open spec fn spec_no_info() -> Seq<char> {
    "No GeoIP Info Available"@
}

/// The label carried by the fallback variants of the open enumerations.
pub open spec fn spec_unknown_label() -> Seq<char> {
    "Unknown"@
}

/// The ISP facts when the lookup is absent.
pub open spec fn spec_isp_default() -> GeoIPISPInfoView {
    GeoIPISPInfoView { isp_name: spec_no_info(), isp_asn: 0 }
}

/// The geographic facts when the lookup is absent.
pub open spec fn spec_geographic_default() -> GeoIPGeographicInfoView {
    GeoIPGeographicInfoView {
        city: spec_no_info(),
        country: spec_no_info(),
        continent: ContinentView::Other(spec_unknown_label()),
        postal_code: spec_no_info(),
        latitude: 0,
        longitude: 0,
    }
}

/// The connection facts when the lookup is absent.
pub open spec fn spec_connection_default() -> GeoIPConnectionInfoView {
    GeoIPConnectionInfoView {
        connection_speed: ConnSpeedView::Other(spec_unknown_label()),
        connection_type: ConnTypeView::Other(spec_unknown_label()),
    }
}

/// The proxy facts when the lookup is absent.
pub open spec fn spec_proxy_default() -> GeoIPProxyInfoView {
    GeoIPProxyInfoView {
        proxy_type: ProxyTypeView::Unknown,
        proxy_description: ProxyDescriptionView::Unknown,
    }
}

impl Default for GeoIPISPInfo {
    /// The documented fallback: the sentinel name and ASN zero.
    fn default() -> (r: Self)
        ensures
            r@ == spec_isp_default(),
    {
        GeoIPISPInfo { isp_name: String::from_str(no_info_text()), isp_asn: 0 }
    }
}

impl Default for GeoIPGeographicInfo {
    /// The documented fallback: sentinel strings, the unrecognized
    /// continent, and coordinates at zero.
    fn default() -> (r: Self)
        ensures
            r@ == spec_geographic_default(),
    {
        GeoIPGeographicInfo {
            city: String::from_str(no_info_text()),
            country: String::from_str(no_info_text()),
            continent: Continent::Other(String::from_str(unknown_label_text())),
            postal_code: String::from_str(no_info_text()),
            latitude: 0,
            longitude: 0,
        }
    }
}

impl Default for GeoIPConnectionInfo {
    /// The documented fallback: both categories unrecognized, labelled
    /// `"Unknown"`.
    fn default() -> (r: Self)
        ensures
            r@ == spec_connection_default(),
    {
        GeoIPConnectionInfo {
            connection_speed: ConnSpeed::Other(String::from_str(unknown_label_text())),
            connection_type: ConnType::Other(String::from_str(unknown_label_text())),
        }
    }
}

impl Default for GeoIPProxyInfo {
    /// The documented fallback: both proxy facts explicitly unknown.
    fn default() -> (r: Self)
        ensures
            r@ == spec_proxy_default(),
    {
        GeoIPProxyInfo {
            proxy_type: ProxyType::Unknown,
            proxy_description: ProxyDescription::Unknown,
        }
    }
}

impl Default for GeoIPUserAgentInfo {
    /// The fallback text for an unreported user agent.
    fn default() -> (r: Self)
        ensures
            r.user_agent@ == "Agent Not known."@,
    {
        GeoIPUserAgentInfo { user_agent: String::from_str("Agent Not known.") }
    }
}

/// Executable twin of [`spec_no_info`].
pub fn no_info_text() -> (r: &'static str)
    ensures
        r@ == spec_no_info(),
{
    "No GeoIP Info Available"
}

/// Executable twin of [`spec_unknown_label`].
pub fn unknown_label_text() -> (r: &'static str)
    ensures
        r@ == spec_unknown_label(),
{
    "Unknown"
}

/// The raw result bundle a geolocation lookup hands back when it finds
/// the address: every reportable fact, as plain values.
///
/// Coordinates arrive already scaled to microdegrees.
#[derive(Clone, Debug, PartialEq, Eq)]
pub struct RawGeoData {
    pub as_name: String,
    pub as_number: u32,
    pub city: String,
    pub country_name: String,
    pub continent: Continent,
    pub postal_code: String,
    pub latitude: i64,
    pub longitude: i64,
    pub conn_speed: ConnSpeed,
    pub conn_type: ConnType,
    pub proxy_type: ProxyType,
    pub proxy_description: ProxyDescription,
}

/// Ghost image of [`RawGeoData`].
#[verifier::ext_equal]
pub struct RawGeoDataView {
    pub as_name: Seq<char>,
    pub as_number: u32,
    pub city: Seq<char>,
    pub country_name: Seq<char>,
    pub continent: ContinentView,
    pub postal_code: Seq<char>,
    pub latitude: i64,
    pub longitude: i64,
    pub conn_speed: ConnSpeedView,
    pub conn_type: ConnTypeView,
    pub proxy_type: ProxyTypeView,
    pub proxy_description: ProxyDescriptionView,
}

impl View for RawGeoData {
    type V = RawGeoDataView;

    open spec fn view(&self) -> RawGeoDataView {
        RawGeoDataView {
            as_name: self.as_name@,
            as_number: self.as_number,
            city: self.city@,
            country_name: self.country_name@,
            continent: self.continent@,
            postal_code: self.postal_code@,
            latitude: self.latitude,
            longitude: self.longitude,
            conn_speed: self.conn_speed@,
            conn_type: self.conn_type@,
            proxy_type: self.proxy_type@,
            proxy_description: self.proxy_description@,
        }
    }
}

/// The default-substitution policy as one pure function: the record that
/// [`build`] returns for a given address and lookup outcome.
pub open spec fn spec_build(ip: IpAddress, lookup: Option<RawGeoDataView>) -> GeoIPResponseView {
    match lookup {
        Some(g) => GeoIPResponseView {
            ip,
            isp: GeoIPISPInfoView { isp_name: g.as_name, isp_asn: g.as_number },
            geographic: GeoIPGeographicInfoView {
                city: g.city,
                country: g.country_name,
                continent: g.continent,
                postal_code: g.postal_code,
                latitude: g.latitude,
                longitude: g.longitude,
            },
            connection: GeoIPConnectionInfoView {
                connection_speed: g.conn_speed,
                connection_type: g.conn_type,
            },
            proxy: GeoIPProxyInfoView {
                proxy_type: g.proxy_type,
                proxy_description: g.proxy_description,
            },
        },
        None => GeoIPResponseView {
            ip,
            isp: spec_isp_default(),
            geographic: spec_geographic_default(),
            connection: spec_connection_default(),
            proxy: spec_proxy_default(),
        },
    }
}

/// Normalize a lookup outcome into a complete report on `ip`.
///
/// A populated lookup is mapped field for field; an absent one yields
/// the documented defaults for everything but the address. Either way
/// the record is fully populated and the call cannot fail.
pub fn build(ip: IpAddress, lookup: Option<RawGeoData>) -> (r: GeoIPResponse)
    ensures
        lookup is Some ==> r@ == spec_build(ip, Some(lookup->0@)),
        lookup is None ==> r@ == spec_build(ip, None),
        r.ip == ip,
{
    match lookup {
        Some(g) => GeoIPResponse {
            ip,
            isp: GeoIPISPInfo { isp_name: g.as_name, isp_asn: g.as_number },
            geographic: GeoIPGeographicInfo {
                city: g.city,
                country: g.country_name,
                continent: g.continent,
                postal_code: g.postal_code,
                latitude: g.latitude,
                longitude: g.longitude,
            },
            connection: GeoIPConnectionInfo {
                connection_speed: g.conn_speed,
                connection_type: g.conn_type,
            },
            proxy: GeoIPProxyInfo {
                proxy_type: g.proxy_type,
                proxy_description: g.proxy_description,
            },
        },
        None => GeoIPResponse {
            ip,
            isp: GeoIPISPInfo::default(),
            geographic: GeoIPGeographicInfo::default(),
            connection: GeoIPConnectionInfo::default(),
            proxy: GeoIPProxyInfo::default(),
        },
    }
}

} // verus!
