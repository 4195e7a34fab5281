//! Shodan: what a host's service record says, API credits, and the errors
//! of its replies.
//!
//! The HTTP exchange itself is the caller's; the functions here take the
//! reply as it came back.

use vstd::prelude::*;
use crate::integrations::error::{lookup_error, lookup_status_error, HttpReply, IntegrationError};
use crate::net::IpAddress;
use crate::text::{chars_of, push_char, str_to_string};

verus! {

/// The subject of a certificate.
#[derive(Debug)]
pub struct ShodanCertSubject {
    /// Common name.
    pub cn: Option<String>,
}

/// A certificate.
#[derive(Debug)]
pub struct ShodanCertInfo {
    /// Subject.
    pub subject: Option<ShodanCertSubject>,
}

/// SSL information of a service.
#[derive(Debug)]
pub struct ShodanSslInfo {
    /// Certificate.
    pub cert: Option<ShodanCertInfo>,
    /// Protocol versions.
    pub versions: Option<Vec<String>>,
}

/// HTTP information of a service.
#[derive(Debug)]
pub struct ShodanHttpInfo {
    /// Page title.
    pub title: Option<String>,
    /// Server header.
    pub server: Option<String>,
    /// Status code.
    pub status: Option<u16>,
}

/// A service record as Shodan sends it, reduced to what is read.
#[derive(Debug)]
pub struct ShodanServiceResponse {
    /// Port.
    pub port: u16,
    /// Transport.
    pub transport: Option<String>,
    /// Product.
    pub product: Option<String>,
    /// Version.
    pub version: Option<String>,
    /// SSL information.
    pub ssl_info: Option<ShodanSslInfo>,
    /// HTTP information.
    pub http: Option<ShodanHttpInfo>,
    /// Banner.
    pub data: Option<String>,
    /// Timestamp.
    pub timestamp: Option<String>,
}

/// Shodan service information.
#[derive(Debug)]
pub struct ShodanService {
    /// Port number.
    pub port: u16,
    /// Transport protocol (tcp/udp).
    pub transport: Option<String>,
    /// Product name.
    pub product: Option<String>,
    /// Product version.
    pub version: Option<String>,
    /// SSL/TLS info.
    pub ssl_versions: Vec<String>,
    /// SSL certificate CN.
    pub ssl_cert_cn: Option<String>,
    /// HTTP title.
    pub http_title: Option<String>,
    /// HTTP server.
    pub http_server: Option<String>,
    /// HTTP status code.
    pub http_status: Option<u16>,
    /// Banner data (first 200 bytes).
    pub banner: Option<String>,
    /// Timestamp.
    pub timestamp: Option<String>,
}

/// Shodan usage limits.
#[derive(Debug)]
pub struct ShodanUsageLimits {
    /// Scan credits limit.
    pub scan_credits: u64,
    /// Query credits limit.
    pub query_credits: u64,
    /// Monitored IPs limit.
    pub monitored_ips: u64,
}

/// Shodan API info.
#[derive(Debug)]
pub struct ShodanApiInfo {
    /// Query credits remaining.
    pub query_credits: u64,
    /// Scan credits remaining.
    pub scan_credits: u64,
    /// Whether this is a paid plan.
    pub plan: String,
    /// Usage limits.
    pub usage_limits: ShodanUsageLimits,
}

/// The longest banner kept whole, in characters.
pub const BANNER_LIMIT: usize = 200;

/// `b` is banner `d` as a service keeps it: whole when it has at most the
/// limit of characters, else its first characters up to the limit followed
/// by "...".
pub open spec fn kept_banner(d: Seq<char>, b: Seq<char>) -> bool {
    if d.len() > BANNER_LIMIT {
        b == d.take(BANNER_LIMIT as int) + "..."@
    } else {
        b == d
    }
}

/// `x` is the service information of record `r`.
pub open spec fn service_from(r: ShodanServiceResponse, x: ShodanService) -> bool {
    &&& x.port == r.port
    &&& x.transport == r.transport
    &&& x.product == r.product
    &&& x.version == r.version
    &&& x.ssl_versions@ == (match r.ssl_info {
        Some(s) => match s.versions { Some(v) => v@, None => seq![] },
        None => seq![],
    })
    &&& x.ssl_cert_cn == (match r.ssl_info {
        Some(s) => match s.cert {
            Some(c) => match c.subject { Some(sub) => sub.cn, None => None },
            None => None,
        },
        None => None,
    })
    &&& x.http_title == (match r.http { Some(h) => h.title, None => None })
    &&& x.http_server == (match r.http { Some(h) => h.server, None => None })
    &&& x.http_status == (match r.http { Some(h) => h.status, None => None })
    &&& (match r.data {
        Some(d) => x.banner matches Some(b) && kept_banner(d@, b@),
        None => x.banner is None,
    })
    &&& x.timestamp == r.timestamp
}

/// A banner as a service keeps it.
fn cut_banner(d: String) -> (b: String)
    ensures
        kept_banner(d@, b@),
{
    let cs = chars_of(d.as_str());
    if cs.len() > BANNER_LIMIT {
        let mut b = String::new();
        let mut i: usize = 0;
        while i < BANNER_LIMIT
            invariant
                i <= BANNER_LIMIT,
                BANNER_LIMIT < cs@.len(),
                cs@ == d@,
                b@ == d@.take(i as int),
            decreases BANNER_LIMIT - i,
        {
            push_char(&mut b, cs[i]);
            assert(d@.take(i + 1) =~= d@.take(i as int).push(d@[i as int]));
            i = i + 1;
        }
        b.append("...");
        b
    } else {
        d
    }
}

impl ShodanService {
    /// The service information of a Shodan record.
    pub fn from(r: ShodanServiceResponse) -> (x: ShodanService)
        ensures
            service_from(r, x),
    {
        let ShodanServiceResponse { port, transport, product, version, ssl_info, http, data, timestamp } = r;
        let (ssl_versions, ssl_cert_cn) = match ssl_info {
            Some(s) => {
                let versions = match s.versions {
                    Some(v) => v,
                    None => Vec::new(),
                };
                let cn = match s.cert {
                    Some(c) => match c.subject {
                        Some(sub) => sub.cn,
                        None => None,
                    },
                    None => None,
                };
                (versions, cn)
            }
            None => (Vec::new(), None),
        };
        let (http_title, http_server, http_status) = match http {
            Some(h) => (h.title, h.server, h.status),
            None => (None, None, None),
        };
        let banner = match data {
            Some(d) => Some(cut_banner(d)),
            None => None,
        };
        ShodanService {
            port,
            transport,
            product,
            version,
            ssl_versions,
            ssl_cert_cn,
            http_title,
            http_server,
            http_status,
            banner,
            timestamp,
        }
    }
}

/// The error of a search reply whose status is not 200: 401 is a bad key,
/// 429 throttling, anything else an API error with the body text.
pub fn search_status_error(code: u16, body: String) -> (e: IntegrationError)
    ensures
        code == 401 ==> (e matches IntegrationError::InvalidApiKey(s) && s@ == "Shodan"@),
        code == 429 ==> (e matches IntegrationError::RateLimited(s) && s@ == "Shodan"@),
        code != 401 && code != 429 ==> (e matches IntegrationError::Api(b) && b == body),
{
    if code == 401 {
        IntegrationError::InvalidApiKey("Shodan")
    } else if code == 429 {
        IntegrationError::RateLimited("Shodan")
    } else {
        IntegrationError::Api(body)
    }
}

/// The outcome of an API-info reply: the info for a 200, the client's
/// message when its body did not parse, a bad key for 401, the body text
/// as an API error otherwise.
pub fn info_result(reply: HttpReply<ShodanApiInfo>) -> (out: Result<ShodanApiInfo, IntegrationError>)
    ensures
        match reply {
            HttpReply::Parsed(i) => out == Ok::<ShodanApiInfo, IntegrationError>(i),
            HttpReply::Unparsable(m) => out matches Err(IntegrationError::Http(x)) && x == m,
            HttpReply::Status(code, body) => if code == 401 {
                out matches Err(IntegrationError::InvalidApiKey(s)) && s@ == "Shodan"@
            } else {
                out matches Err(IntegrationError::Api(b)) && b == body
            },
        },
{
    match reply {
        HttpReply::Parsed(i) => Ok(i),
        HttpReply::Unparsable(m) => Err(IntegrationError::Http(m)),
        HttpReply::Status(code, body) => {
            if code == 401 {
                Err(IntegrationError::InvalidApiKey("Shodan"))
            } else {
                Err(IntegrationError::Api(body))
            }
        }
    }
}

/// Whether a Shodan host lookup may be sent: it needs an API key, and the
/// target must be an IP address (`parsed` is what `std::net` read from
/// `ip`, which is the caller's to read).  A missing key is refused first,
/// then an address that did not parse, with its text.
pub fn host_request_check(has_key: bool, ip: &str, parsed: Option<IpAddress>) -> (r: Result<IpAddress, IntegrationError>)
    ensures
        !has_key ==> (r matches Err(IntegrationError::ApiKeyRequired(s)) && s@ == "Shodan"@),
        has_key && parsed is None ==> (r matches Err(IntegrationError::InvalidInput(m))
            && m@ == "Invalid IP address: "@ + ip@),
        has_key && parsed is Some ==> r == Ok::<IpAddress, IntegrationError>(parsed.unwrap()),
{
    if !has_key {
        return Err(IntegrationError::ApiKeyRequired("Shodan"));
    }
    match parsed {
        Some(a) => Ok(a),
        None => {
            let mut m = str_to_string("Invalid IP address: ");
            m.append(ip);
            Err(IntegrationError::InvalidInput(m))
        }
    }
}

/// The error of a host reply whose status is not 200: 401 is a bad key,
/// 404 an unknown host, 429 throttling, anything else an API error with
/// the body text.
pub fn host_status_error(code: u16, ip: &str, body: String) -> (e: IntegrationError)
    ensures
        lookup_error(code, body@, "Host not found: "@ + ip@, e),
        e matches IntegrationError::InvalidApiKey(s) ==> s@ == "Shodan"@,
        e matches IntegrationError::RateLimited(s) ==> s@ == "Shodan"@,
{
    let mut not_found = str_to_string("Host not found: ");
    not_found.append(ip);
    lookup_status_error(code, body, "Shodan", not_found)
}

} // verus!
