//! Client for the login endpoint: the request that a login sends and the
//! shape of the answer.

use vstd::prelude::*;
use vstd::string::StrSliceExecFns;
use vstd::string::StringExecFns;
use vstd::utf8::encode_utf8;

verus! {

/// Client for one API server.
#[derive(Debug, Clone, PartialEq, Eq)]
pub struct NextAPIClient {
    /// Base URL of the server, without a trailing slash.
    pub url: String,
}

/// Body of the server's answer to a login. Both members are optional; a
/// missing `token` means that the login was refused.
#[derive(Debug, Clone, PartialEq, Eq)]
pub struct LoginResponse {
    pub error: Option<String>,
    pub token: Option<String>,
}

/// What a `LoginResponse` holds, as values of specifications.
pub struct ResponseView {
    pub error: Option<Seq<char>>,
    pub token: Option<Seq<char>>,
}

impl View for LoginResponse {
    type V = ResponseView;

    open spec fn view(&self) -> ResponseView {
        ResponseView { error: self.error.deep_view(), token: self.token.deep_view() }
    }
}

impl Default for LoginResponse {
    fn default() -> (response: LoginResponse)
        ensures
            response@ == (ResponseView { error: None, token: None }),
    {
        LoginResponse { error: None, token: None }
    }
}

/// An HTTP request, ready to be handed to a transport.
#[derive(Debug, Clone, PartialEq, Eq)]
pub struct HttpRequest {
    pub method: String,
    pub url: String,
    /// Name and value of each header line, in the order in which they were
    /// added. A name may occur more than once.
    pub headers: Vec<(String, String)>,
    pub body: Vec<u8>,
}

/// What an `HttpRequest` holds, as values of specifications.
pub struct RequestView {
    pub method: Seq<char>,
    pub url: Seq<char>,
    pub headers: Seq<(Seq<char>, Seq<char>)>,
    pub body: Seq<u8>,
}

impl View for HttpRequest {
    type V = RequestView;

    open spec fn view(&self) -> RequestView {
        RequestView {
            method: self.method@,
            url: self.url@,
            headers: self.headers.deep_view(),
            body: self.body@,
        }
    }
}

/// A client for the server at `url`.
pub fn new(url: String) -> (client: NextAPIClient)
    ensures
        client.url@ == url@,
{
    NextAPIClient { url }
}

/// The text that `serde_json` writes for a JSON object with the given
/// members, each a name and a string value, in its compact form.
pub uninterp spec fn json_object_text(members: Seq<(Seq<char>, Seq<char>)>) -> Seq<char>;

/// Writes a JSON object whose members are the given names with the given
/// string values.
///
/// Trusted: collects the pairs into a `serde_json::Map`, wraps it in
/// `serde_json::Value::Object` and formats it with the `Display` impl of
/// `serde_json::Value`. Nothing is claimed of the text but that it depends
/// on the members alone.
#[verifier::external_body]
fn json_object(members: &Vec<(String, String)>) -> (text: String)
    ensures
        text@ == json_object_text(members.deep_view()),
{
    let object: serde_json::Map<String, serde_json::Value> = members
        .iter()
        .map(|(name, value)| (name.clone(), serde_json::Value::String(value.clone())))
        .collect();
    serde_json::Value::Object(object).to_string()
}

/// A `POST` request as `ehttp` makes it.
///
/// Trusted: calls `ehttp::Request::post` and moves the fields of the result
/// out. That function sets the method to `POST`, keeps the URL and the body,
/// and starts the headers with `Accept` and a plain-text `Content-Type`.
#[verifier::external_body]
fn post(url: String, body: Vec<u8>) -> (request: HttpRequest)
    ensures
        request@.method == "POST"@,
        request@.url == url@,
        request@.headers == seq![
            ("Accept"@, "*/*"@),
            ("Content-Type"@, "text/plain; charset=utf-8"@),
        ],
        request@.body == body@,
{
    let request = ehttp::Request::post(url, body);
    HttpRequest {
        method: request.method,
        url: request.url,
        headers: request.headers.headers,
        body: request.body,
    }
}

/// Adds a header line at the end of `headers`.
///
/// Trusted: calls `ehttp::Headers::insert`, which appends the pair and keeps
/// every earlier line, also one of the same name.
#[verifier::external_body]
fn insert_header(headers: Vec<(String, String)>, name: &str, value: &str) -> (extended: Vec<
    (String, String),
>)
    ensures
        extended.deep_view() == headers.deep_view().push((name@, value@)),
{
    let mut lines = ehttp::Headers { headers };
    lines.insert(name, value);
    lines.headers
}

/// The members of the JSON object that a login sends.
pub open spec fn login_members(email: Seq<char>, password: Seq<char>) -> Seq<
    (Seq<char>, Seq<char>),
> {
    seq![("email"@, email), ("password"@, password)]
}

/// The request that posts `text` as the JSON body of a login to the server
/// at `base`.
pub open spec fn login_post(base: Seq<char>, text: Seq<char>) -> RequestView {
    RequestView {
        method: "POST"@,
        url: base + "/api/v1/users/login"@,
        headers: seq![
            ("Accept"@, "*/*"@),
            ("Content-Type"@, "text/plain; charset=utf-8"@),
            ("Content-Type"@, "application/json"@),
        ],
        body: encode_utf8(text),
    }
}

impl NextAPIClient {
    /// The request that posts `text` to the login endpoint of this server:
    /// the path `/api/v1/users/login` under the base URL, the bytes of
    /// `text` as the body, and `Content-Type: application/json` as the last
    /// header line.
    pub fn login_request(&self, text: &str) -> (request: HttpRequest)
        ensures
            request@ == login_post(self.url@, text@),
    {
        let url = self.url.clone().concat("/api/v1/users/login");
        let request = post(url, text.as_bytes_vec());
        let headers = insert_header(request.headers, "Content-Type", "application/json");
        let request = HttpRequest {
            method: request.method,
            url: request.url,
            headers,
            body: request.body,
        };
        assert(request@.headers =~= login_post(self.url@, text@).headers);
        request
    }

    /// The request that logs in with `email` and `password`: a JSON object
    /// with the members `email` and `password`, posted to the login endpoint.
    /// Neither string is checked.
    pub fn login(&self, email: &str, password: &str) -> (request: HttpRequest)
        ensures
            request@ == login_post(
                self.url@,
                json_object_text(login_members(email@, password@)),
            ),
    {
        let mut members: Vec<(String, String)> = Vec::new();
        members.push(("email".to_owned(), email.to_owned()));
        members.push(("password".to_owned(), password.to_owned()));
        assert(members.deep_view() =~= login_members(email@, password@));
        let text = json_object(&members);
        self.login_request(text.as_str())
    }
}

} // verus!
