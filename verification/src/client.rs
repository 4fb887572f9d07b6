//! The client's configuration and everything that is derived from it: the
//! upload requests, the handshake of a watch and its hello frame.

use vstd::prelude::*;
use vstd::string::*;
use crate::address::{origin_text, scheme_of, url_host, url_join, url_origin, url_parse, url_text, url_with_scheme};
use crate::errors::BadSchemeError;
use crate::text::{
    decimal, decimal_string, directory, directory_of, streaming_scheme, to_streaming_scheme,
};

verus! {

/// The server that is used where none is named.
pub const DEFAULT_SERVER_ADDR: &'static str = "https://relwarc.solidpoint.net";

/// Why a client could not be made for a server address.
#[derive(Debug)]
pub enum ConfigError {
    /// The address is no URL, or the endpoints cannot be resolved below it.
    Address(url::ParseError),
    /// The address has a scheme with no streaming counterpart, or the watch
    /// endpoint does not take the counterpart.
    BadScheme(BadSchemeError),
}

/// The three kinds of payload that can be sent for analysis.
#[derive(Clone, Copy, Debug, PartialEq, Eq, Structural)]
pub enum PayloadKind {
    /// Source text.
    SourceCode,
    /// The URL of a page, sent as the body.
    PageUrl,
    /// A tar archive.
    Tar,
}

impl PayloadKind {
    /// The path of the endpoint that takes this kind of payload, from the
    /// server's address on.
    pub open spec fn endpoint_path(self) -> Seq<char> {
        match self {
            PayloadKind::SourceCode => "api/analyze-code"@,
            PayloadKind::PageUrl => "api/analyze-url"@,
            PayloadKind::Tar => "api/analyze-tar"@,
        }
    }

    /// The content type under which this kind of payload is sent.
    pub open spec fn content_type(self) -> Seq<char> {
        match self {
            PayloadKind::SourceCode => "text/javascript"@,
            PayloadKind::PageUrl => "text/plain"@,
            PayloadKind::Tar => "application/x-tar"@,
        }
    }

    /// Gives the path of the endpoint that takes this kind of payload.
    pub fn path(self) -> (r: &'static str)
        ensures
            r@ == self.endpoint_path(),
    {
        match self {
            PayloadKind::SourceCode => "api/analyze-code",
            PayloadKind::PageUrl => "api/analyze-url",
            PayloadKind::Tar => "api/analyze-tar",
        }
    }

    /// Gives the content type under which this kind of payload is sent.
    pub fn mime(self) -> (r: &'static str)
        ensures
            r@ == self.content_type(),
    {
        match self {
            PayloadKind::SourceCode => "text/javascript",
            PayloadKind::PageUrl => "text/plain",
            PayloadKind::Tar => "application/x-tar",
        }
    }
}

/// An upload, but for its body: where it goes and what its headers say.
#[derive(Debug)]
pub struct UploadRequest {
    /// The endpoint to post to.
    pub endpoint_url: String,
    /// The value of the `X-API-Token` header.
    pub token: String,
    /// The value of the `Content-Type` header.
    pub content_type: String,
    /// The exact number of bytes of the body.
    pub content_length: u64,
}

/// The opening request of a watch.
#[derive(Debug)]
pub struct Handshake {
    /// The address to connect to.
    pub uri: String,
    /// The headers in the order in which they are set, each with its value.
    pub headers: Vec<(String, String)>,
}

/// Whether `pair` is the header `name` with the value `value`.
pub open spec fn is_header(pair: (String, String), name: Seq<char>, value: Seq<char>) -> bool {
    pair.0@ == name && pair.1@ == value
}

/// Whether `handshake` is the opening request of a watch at `uri`, announced
/// for `host` from `origin` under the handshake key `key`.
pub open spec fn is_watch_handshake(
    handshake: Handshake,
    uri: Seq<char>,
    host: Seq<char>,
    origin: Seq<char>,
    key: Seq<char>,
) -> bool {
    &&& handshake.uri@ == uri
    &&& handshake.headers@.len() == 6
    &&& is_header(handshake.headers@[0], "Host"@, host)
    &&& is_header(handshake.headers@[1], "Origin"@, origin)
    &&& is_header(handshake.headers@[2], "Connection"@, "Upgrade"@)
    &&& is_header(handshake.headers@[3], "Upgrade"@, "websocket"@)
    &&& is_header(handshake.headers@[4], "Sec-WebSocket-Version"@, "13"@)
    &&& is_header(handshake.headers@[5], "Sec-WebSocket-Key"@, key)
}

/// The JSON string literal that `serde_json::to_string` writes for a text.
pub uninterp spec fn json_string(text: Seq<char>) -> Seq<char>;

/// `serde_json::to_string` on a string slice: the text as a JSON string
/// literal, quoted and escaped, which depends on the text alone.
///
/// It always succeeds. The function fails only where the value's way of
/// serializing fails or a map has keys that are no strings; a string slice
/// is written as it is, into a vector of bytes, which takes every write.
#[verifier::external_body]
fn quote_json(text: &str) -> (r: Result<String, serde_json::Error>)
    ensures
        r is Ok,
        r matches Ok(quoted) ==> quoted@ == json_string(text@),
{
    serde_json::to_string(text)
}

/// `tungstenite::handshake::client::generate_key`: a fresh random value for
/// the `Sec-WebSocket-Key` header. Nothing is known of it.
#[verifier::external_body]
fn fresh_key() -> String {
    tungstenite::handshake::client::generate_key()
}

/// The hello frame of a watch: a JSON object with the token, given as a JSON
/// string literal, and the job's identifier.
pub open spec fn hello_frame(quoted_token: Seq<char>, job_id: u64) -> Seq<char> {
    "{\"token\":"@ + quoted_token + ",\"job_id\":"@ + decimal(job_id as nat) + "}"@
}

/// Builds the hello frame of a watch from the token as a JSON string literal.
pub fn hello_text(quoted_token: &str, job_id: u64) -> (r: String)
    ensures
        r@ == hello_frame(quoted_token@, job_id),
{
    let id = decimal_string(job_id);
    String::from_str("{\"token\":").concat(quoted_token).concat(",\"job_id\":").concat(
        id.as_str(),
    ).concat("}")
}

/// A client for one server, acting under one API token.
#[derive(Debug)]
pub struct RelwarcAPIClient {
    pub token: String,
    server_addr: url::Url,
    endpoint_base: url::Url,
    server_origin: String,
    ws_url: url::Url,
}

impl RelwarcAPIClient {
    /// The API token under which the client acts.
    pub closed spec fn api_token(&self) -> String {
        self.token
    }

    /// The server's address, as the serialization of its URL.
    pub closed spec fn server_text(&self) -> Seq<char> {
        url_text(self.server_addr)
    }

    /// The address below which the endpoints lie, as the serialization of
    /// its URL.
    pub closed spec fn base_text(&self) -> Seq<char> {
        url_text(self.endpoint_base)
    }

    /// The server's origin: scheme, host and port.
    pub closed spec fn origin(&self) -> Seq<char> {
        self.server_origin@
    }

    /// The address of the watch endpoint, as the serialization of its URL.
    pub closed spec fn watch_text(&self) -> Seq<char> {
        url_text(self.ws_url)
    }

    /// Whether the client is the one that is configured by `token` and the
    /// server address with the serialization `server`: its origin is that of
    /// the address, its endpoints lie below `base`, and its watch endpoint is
    /// `watch`.
    pub open spec fn configured(
        &self,
        token: String,
        server: Seq<char>,
        base: Seq<char>,
        watch: Seq<char>,
    ) -> bool {
        &&& self.api_token() == token
        &&& self.server_text() == server
        &&& self.base_text() == base
        &&& self.origin() == url_origin(server)
        &&& self.watch_text() == watch
    }

    /// A client for the default server.
    pub fn new(token: String) -> (r: Result<RelwarcAPIClient, ConfigError>)
        ensures
            construction(r, token, DEFAULT_SERVER_ADDR@),
    {
        RelwarcAPIClient::new_for_server(token, DEFAULT_SERVER_ADDR)
    }

    /// A client for the server at `server_addr`.
    ///
    /// The address must parse as a URL with the scheme `http` or `https`;
    /// with any other scheme construction fails and names that scheme. The
    /// endpoints lie below the address: its query and fragment are left out,
    /// and its path is taken as a directory. The watch endpoint is
    /// `api/job/watch` below it, with the scheme's streaming counterpart in
    /// place of the scheme. Where the URL does not take the counterpart,
    /// construction fails and names the counterpart.
    pub fn new_for_server(token: String, server_addr: &str) -> (r: Result<
        RelwarcAPIClient,
        ConfigError,
    >)
        ensures
            construction(r, token, server_addr@),
    {
        let server_addr_parsed = match url::Url::parse(server_addr) {
            Ok(u) => u,
            Err(e) => {
                return Err(ConfigError::Address(e));
            },
        };
        let origin = origin_text(&server_addr_parsed);
        let ws_scheme = match to_streaming_scheme(server_addr_parsed.scheme()) {
            Some(scheme) => scheme,
            None => {
                let scheme = server_addr_parsed.scheme().to_owned();
                return Err(ConfigError::BadScheme(BadSchemeError { scheme }));
            },
        };
        let base_text = directory_of(server_addr_parsed.as_str());
        let endpoint_base = match url::Url::parse(base_text.as_str()) {
            Ok(u) => u,
            Err(e) => {
                return Err(ConfigError::Address(e));
            },
        };
        let mut ws_url = match endpoint_base.join("api/job/watch") {
            Ok(u) => u,
            Err(e) => {
                return Err(ConfigError::Address(e));
            },
        };
        let scheme_was_set = ws_url.set_scheme(ws_scheme.as_str());
        if scheme_was_set.is_err() {
            return Err(ConfigError::BadScheme(BadSchemeError { scheme: ws_scheme }));
        }
        Ok(
            RelwarcAPIClient {
                token,
                server_addr: server_addr_parsed,
                endpoint_base,
                server_origin: origin,
                ws_url,
            },
        )
    }

    /// Gives the API token under which the client acts.
    pub fn token(&self) -> (r: &String)
        ensures
            *r == self.api_token(),
    {
        &self.token
    }

    /// Gives the address below which the endpoints lie.
    pub fn endpoint_base(&self) -> (r: String)
        ensures
            r@ == self.base_text(),
    {
        self.endpoint_base.as_str().to_owned()
    }

    /// Gives the server's address.
    pub fn server_addr(&self) -> (r: String)
        ensures
            r@ == self.server_text(),
    {
        self.server_addr.as_str().to_owned()
    }

    /// Gives the server's origin.
    pub fn server_origin(&self) -> (r: String)
        ensures
            r@ == self.origin(),
    {
        self.server_origin.clone()
    }

    /// Gives the address of the watch endpoint.
    pub fn ws_url(&self) -> (r: String)
        ensures
            r@ == self.watch_text(),
    {
        self.ws_url.as_str().to_owned()
    }

    /// Whether `request` is the upload of `payload_size` bytes of the given
    /// kind to the endpoint with the serialization `endpoint`.
    pub open spec fn is_upload(
        &self,
        request: UploadRequest,
        kind: PayloadKind,
        endpoint: Seq<char>,
        payload_size: u64,
    ) -> bool {
        &&& request.endpoint_url@ == endpoint
        &&& request.token == self.api_token()
        &&& request.content_type@ == kind.content_type()
        &&& request.content_length == payload_size
    }

    /// What the upload of `payload_size` bytes of the given kind comes to:
    /// the request to its endpoint, or the failure to resolve the endpoint
    /// below the server's address.
    pub open spec fn upload_outcome(
        &self,
        r: Result<UploadRequest, url::ParseError>,
        kind: PayloadKind,
        payload_size: u64,
    ) -> bool {
        match url_join(self.base_text(), kind.endpoint_path()) {
            Some(endpoint) => r matches Ok(request) && self.is_upload(
                request,
                kind,
                endpoint,
                payload_size,
            ),
            None => r is Err,
        }
    }

    /// Describes the upload of a payload of the given kind and size: its
    /// endpoint, its token and the type and length of its content.
    pub fn upload_request(&self, kind: PayloadKind, payload_size: u64) -> (r: Result<
        UploadRequest,
        url::ParseError,
    >)
        ensures
            self.upload_outcome(r, kind, payload_size),
    {
        let endpoint_url = match self.endpoint_base.join(kind.path()) {
            Ok(u) => u,
            Err(e) => {
                return Err(e);
            },
        };
        Ok(
            UploadRequest {
                endpoint_url: endpoint_url.as_str().to_owned(),
                token: self.token.clone(),
                content_type: String::from_str(kind.mime()),
                content_length: payload_size,
            },
        )
    }

    /// Describes the upload of source text of `source_code_size` bytes.
    pub fn source_code_request(&self, source_code_size: u64) -> (r: Result<
        UploadRequest,
        url::ParseError,
    >)
        ensures
            self.upload_outcome(r, PayloadKind::SourceCode, source_code_size),
    {
        self.upload_request(PayloadKind::SourceCode, source_code_size)
    }

    /// Describes the upload of a tar archive of `tar_archive_size` bytes.
    pub fn tar_request(&self, tar_archive_size: u64) -> (r: Result<UploadRequest, url::ParseError>)
        ensures
            self.upload_outcome(r, PayloadKind::Tar, tar_archive_size),
    {
        self.upload_request(PayloadKind::Tar, tar_archive_size)
    }

    /// Describes the upload of a page's URL, and gives its body: the bytes
    /// of the URL as it was written, whose number is the content length.
    pub fn page_url_request(&self, page_url: &str) -> (r: Result<
        (UploadRequest, Vec<u8>),
        url::ParseError,
    >)
        ensures
            match url_join(self.base_text(), PayloadKind::PageUrl.endpoint_path()) {
                Some(endpoint) => r matches Ok(pair) && pair.1@ == page_url.spec_bytes()
                    && self.is_upload(
                    pair.0,
                    PayloadKind::PageUrl,
                    endpoint,
                    page_url.spec_bytes().len() as u64,
                ) && pair.0.content_length == page_url.spec_bytes().len(),
                None => r is Err,
            },
    {
        let body = page_url.as_bytes_vec();
        let length = body.len() as u64;
        match self.upload_request(PayloadKind::PageUrl, length) {
            Ok(request) => Ok((request, body)),
            Err(e) => Err(e),
        }
    }

    /// The opening request of a watch under the handshake key `key`, or
    /// `None` where the watch endpoint has no host to announce.
    pub fn watch_handshake(&self, key: String) -> (r: Option<Handshake>)
        ensures
            match url_host(self.watch_text()) {
                Some(host) => r matches Some(handshake) && is_watch_handshake(
                    handshake,
                    self.watch_text(),
                    host,
                    self.origin(),
                    key@,
                ),
                None => r is None,
            },
    {
        let host = match self.ws_url.host_str() {
            Some(h) => h.to_owned(),
            None => {
                return None;
            },
        };
        let mut headers: Vec<(String, String)> = Vec::new();
        headers.push((String::from_str("Host"), host));
        headers.push((String::from_str("Origin"), self.server_origin.clone()));
        headers.push((String::from_str("Connection"), String::from_str("Upgrade")));
        headers.push((String::from_str("Upgrade"), String::from_str("websocket")));
        headers.push((String::from_str("Sec-WebSocket-Version"), String::from_str("13")));
        headers.push((String::from_str("Sec-WebSocket-Key"), key));
        Some(Handshake { uri: self.ws_url.as_str().to_owned(), headers })
    }

    /// The opening request of a watch under a fresh handshake key, or `None`
    /// where the watch endpoint has no host to announce.
    pub fn new_handshake(&self) -> (r: Option<Handshake>)
        ensures
            match url_host(self.watch_text()) {
                Some(host) => r matches Some(handshake) && is_watch_handshake(
                    handshake,
                    self.watch_text(),
                    host,
                    self.origin(),
                    handshake.headers@[5].1@,
                ),
                None => r is None,
            },
    {
        self.watch_handshake(fresh_key())
    }

    /// The hello frame that opens the watch of the job `job_id`: the token
    /// and the job's identifier as a JSON object. Every token can be written
    /// as JSON, so there is a frame for every token and job.
    pub fn client_hello(&self, job_id: u64) -> (r: Result<String, serde_json::Error>)
        ensures
            r matches Ok(frame) && frame@ == hello_frame(json_string(self.api_token()@), job_id),
    {
        match quote_json(self.token.as_str()) {
            Ok(quoted) => Ok(hello_text(quoted.as_str(), job_id)),
            Err(e) => Err(e),
        }
    }
}

/// Whether `r` is the failure of a construction over the scheme `scheme`.
pub open spec fn is_bad_scheme(r: Result<RelwarcAPIClient, ConfigError>, scheme: Seq<char>) -> bool {
    r matches Err(ConfigError::BadScheme(e)) && e.scheme@ == scheme
}

/// What the construction of a client for the server with the serialization
/// `server` gives, once the scheme's streaming counterpart `streaming` is
/// known.
pub open spec fn construction_below(
    r: Result<RelwarcAPIClient, ConfigError>,
    token: String,
    server: Seq<char>,
    streaming: Seq<char>,
) -> bool {
    match url_parse(directory(server)) {
        None => r matches Err(ConfigError::Address(_)),
        Some(base) => match url_join(base, "api/job/watch"@) {
            None => r matches Err(ConfigError::Address(_)),
            Some(joined) => match url_with_scheme(joined, streaming) {
                None => is_bad_scheme(r, streaming),
                Some(watch) => r matches Ok(client) && client.configured(
                    token,
                    server,
                    base,
                    watch,
                ),
            },
        },
    }
}

/// What the construction of a client from `token` and `server_addr` gives.
pub open spec fn construction(
    r: Result<RelwarcAPIClient, ConfigError>,
    token: String,
    server_addr: Seq<char>,
) -> bool {
    match url_parse(server_addr) {
        None => r matches Err(ConfigError::Address(_)),
        Some(server) => match streaming_scheme(scheme_of(server)) {
            None => is_bad_scheme(r, scheme_of(server)),
            Some(streaming) => construction_below(r, token, server, streaming),
        },
    }
}

} // verus!
