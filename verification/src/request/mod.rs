//! A request as the firewall sees it, and the pages it answers with.

use vstd::prelude::*;

pub mod filter;
pub mod handler;
pub mod host;

verus! {

/// One header of a request: its name and the raw bytes of its value.
#[derive(Debug, Clone, PartialEq, Eq)]
pub struct HeaderField {
    pub name: String,
    pub value: Vec<u8>,
}

/// What the firewall reads of a request.
#[derive(Debug, Clone)]
pub struct RequestData {
    pub body: Vec<u8>,
    pub headers: Vec<HeaderField>,
    pub uri: String,
    pub method: String,
    pub host: String,
}

/// The text in the pages that stands for the request ID.
pub const REQUEST_ID_PLACEHOLDER: &'static str = "REPLACE_WITH_UUID_REQUESTS";

/// The page of a refused request.
pub const BLOCKED_REQUEST: &'static str = r#"

<!DOCTYPE HTML PUBLIC "-//IETF//DTD HTML 2.0//EN">
<html><head>
<title>403 Forbidden</title>
</head><body>
<h1>Forbidden</h1>
<p>Your Request has blocked, please contact your administrator if this marked as false positive RequestID : REPLACE_WITH_UUID_REQUESTS</p>
<hr>
<address>Powered by <a href="https://github.com/DwiyanTech/novaflow">Novaflow</a></address>
</body></html>

"#;

/// The page of an upstream answer that could not be passed on.
pub const BAD_GATEWAY: &'static str = r#"
<!DOCTYPE HTML PUBLIC "-//IETF//DTD HTML 2.0//EN">
<html><head>
<title>503 Bad Gateway</title>
</head><body>
<h1>Bad Gateway</h1>
<p>The 502 (Bad Gateway) status code indicates that the server, while acting as a gateway or proxy, received an invalid response from an inbound server it accessed while attempting to fulfill the request, RequestID : REPLACE_WITH_UUID_REQUESTS</p>
<hr>
<address>Powered by <a href="https://github.com/DwiyanTech/novaflow">Novaflow</a></address>
</body></html>

"#;

/// The page of a request that no route serves.
pub const NOT_FOUND: &'static str = r#"

<!DOCTYPE HTML PUBLIC "-//IETF//DTD HTML 2.0//EN">
<html><head>
<title>404 Not Found</title>
</head><body>
<h1>Not Found</h1>
<p>The requested URL was not found on this server.</p>
<hr>
<address>Powered by <a href="https://github.com/DwiyanTech/novaflow">Novaflow</a></address>
</body></html>

"#;

/// The body of the health check answer.
pub const HEALTH_OK: &'static str = "{\"status\": \"ok\"}";

/// The path prefix of health check requests.
pub const HEALTH_PATH: &'static str = "/novaflow_healthz";

} // verus!
