//! The HTTP server's configuration builder and its pure serving decisions.
//!
//! The builder assembles the bind address and telemetry path (already
//! validated upstream; last call wins). Rendering the index page and turning
//! a collection result into a reply are pure functions; the transport — the
//! socket, the accept loop, the workers — lives outside the library and only
//! carries these values.

use vstd::prelude::*;
use vstd::string::*;

verus! {

/// Builder for the HTTP server: a bind address and a telemetry path, with
/// documented defaults until overridden.
#[derive(Debug)]
pub struct Server {
    pub bind_address: String,
    pub telemetry_path: String,
}

impl Default for Server {
    /// The documented defaults: `127.0.0.1:9452` and `/metrics`.
    fn default() -> (s: Self)
        ensures
            s.bind_address@ == "127.0.0.1:9452"@,
            s.telemetry_path@ == "/metrics"@,
    {
        Server {
            bind_address: "127.0.0.1:9452".to_owned(),
            telemetry_path: "/metrics".to_owned(),
        }
    }
}

impl Server {
    /// Returns a new builder holding the defaults.
    pub fn new() -> (s: Self)
        ensures
            s.bind_address@ == "127.0.0.1:9452"@,
            s.telemetry_path@ == "/metrics"@,
    {
        Server::default()
    }

    /// Sets the bind address of the server; the telemetry path is untouched.
    pub fn bind_address(self, bind_address: String) -> (s: Self)
        ensures
            s.bind_address == bind_address,
            s.telemetry_path == self.telemetry_path,
    {
        Server { bind_address, telemetry_path: self.telemetry_path }
    }

    /// Sets the telemetry path of the server; the bind address is untouched.
    pub fn telemetry_path(self, telemetry_path: String) -> (s: Self)
        ensures
            s.telemetry_path == telemetry_path,
            s.bind_address == self.bind_address,
    {
        Server { bind_address: self.bind_address, telemetry_path }
    }
}

/// The index document for a given telemetry path: a fixed HTML page whose
/// one link points at the metrics.
pub open spec fn index_page_for(path: Seq<char>) -> Seq<char> {
    "<!DOCTYPE html>\n<html>\n  <head><title>Jail Exporter</title></head>\n  <body>\n    <h1>Jail Exporter</h1>\n    <p><a href=\""@
        + path + "\">Metrics</a></p>\n  </body>\n</html>\n"@
}

/// Renders the index page from the telemetry path, exactly as
/// `index_page_for` writes it. Computed once at startup; every worker serves
/// the same text.
pub fn render_index_page(telemetry_path: &str) -> (page: String)
    ensures
        page@ == index_page_for(telemetry_path@),
{
    let mut page =
        "<!DOCTYPE html>\n<html>\n  <head><title>Jail Exporter</title></head>\n  <body>\n    <h1>Jail Exporter</h1>\n    <p><a href=\"".to_owned();
    page.append(telemetry_path);
    page.append("\">Metrics</a></p>\n  </body>\n</html>\n");
    page
}

/// The media type of the metrics exposition format.
pub fn metrics_content_type() -> (t: &'static str)
    ensures
        t@ == "text/plain; version=0.0.4"@,
{
    "text/plain; version=0.0.4"
}

/// One HTTP reply: a status code and a body.
#[derive(Debug)]
pub struct Reply {
    pub status: u16,
    pub body: Vec<u8>,
}

/// The reply of the index route: the pre-rendered page, success status.
pub fn index_reply(page: &String) -> (r: (u16, String))
    ensures
        r.0 == 200,
        r.1@ == page@,
{
    (200, page.clone())
}

/// The reply of the metrics route for one collection outcome: the rendered
/// buffer with success status, or a server-error status with an empty body.
/// A failure is contained to its request; nothing here stops the server.
pub fn metrics_reply(rendered: Result<Vec<u8>, String>) -> (r: Reply)
    ensures
        rendered matches Ok(body) ==> (r.status == 200 && r.body == body),
        rendered is Err ==> (r.status == 500 && r.body@.len() == 0),
{
    match rendered {
        Ok(body) => Reply { status: 200, body },
        Err(_) => Reply { status: 500, body: Vec::new() },
    }
}

/// Where one request path is dispatched.
#[derive(Clone, Copy, Debug, PartialEq, Eq, Structural)]
pub enum Route {
    /// The fixed index page.
    Index,
    /// The metrics document.
    Metrics,
    /// No registered route; the transport answers 404.
    NotFound,
}

/// Character-for-character equality of two strings.
fn str_eq(a: &str, b: &str) -> (r: bool)
    ensures
        r == (a@ == b@),
{
    let la = a.unicode_len();
    let lb = b.unicode_len();
    if la != lb {
        return false;
    }
    let mut i: usize = 0;
    while i < la
        invariant
            i <= la,
            la == a@.len(),
            la == b@.len(),
            forall|j: int| 0 <= j < i ==> a@[j] == b@[j],
        decreases la - i,
    {
        if a.get_char(i) != b.get_char(i) {
            return false;
        }
        i = i + 1;
    }
    proof {
        assert(a@ =~= b@);
    }
    true
}

/// Dispatches one request path: `/` is the index, the configured telemetry
/// path is the metrics document, anything else is unrouted. When the
/// telemetry path is `/` itself (excluded by validation), the index wins.
pub fn route_request(path: &str, telemetry_path: &str) -> (r: Route)
    ensures
        path@ == "/"@ ==> r is Index,
        path@ != "/"@ && path@ == telemetry_path@ ==> r is Metrics,
        path@ != "/"@ && path@ != telemetry_path@ ==> r is NotFound,
{
    if str_eq(path, "/") {
        Route::Index
    } else if str_eq(path, telemetry_path) {
        Route::Metrics
    } else {
        Route::NotFound
    }
}

} // verus!
