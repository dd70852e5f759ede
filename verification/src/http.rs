//! Requests to web services and what their replies say.
use vstd::prelude::*;

verus! {

/// What a request asks a service to do.
#[derive(Debug, Clone, Copy, PartialEq, Eq, Structural)]
pub enum Method {
    Get,
    Post,
}

/// A request to a web service.
#[derive(Debug)]
pub struct HttpRequest {
    pub method: Method,
    pub url: String,
    /// Names and values of the headers, in order
    pub headers: Vec<(String, String)>,
    /// User name and password
    pub basic_auth: Option<(String, String)>,
    /// Names and values of the form fields, in order
    pub form: Vec<(String, String)>,
}

/// Names with their values.
pub type Pairs = Seq<(Seq<char>, Seq<char>)>;

/// The values in a [`HttpRequest`].
#[verifier::ext_equal]
pub struct HttpRequestView {
    pub method: Method,
    pub url: Seq<char>,
    pub headers: Pairs,
    pub basic_auth: Option<(Seq<char>, Seq<char>)>,
    pub form: Pairs,
}

/// The characters of names and values.
pub open spec fn pairs_view(pairs: Seq<(String, String)>) -> Pairs {
    pairs.map_values(|p: (String, String)| (p.0@, p.1@))
}

impl View for HttpRequest {
    type V = HttpRequestView;

    open spec fn view(&self) -> HttpRequestView {
        HttpRequestView {
            method: self.method,
            url: self.url@,
            headers: pairs_view(self.headers@),
            basic_auth: match self.basic_auth {
                Some((user, password)) => Some((user@, password@)),
                None => None,
            },
            form: pairs_view(self.form@),
        }
    }
}

/// Adds a name and its value.
pub fn push_pair(pairs: &mut Vec<(String, String)>, name: &str, value: &str)
    ensures
        pairs_view(final(pairs)@) == pairs_view(old(pairs)@).push((name@, value@)),
{
    pairs.push((name.to_owned(), value.to_owned()));
    assert(pairs_view(pairs@) =~= pairs_view(old(pairs)@).push((name@, value@)));
}

/// A reply whose body was read as a text.
#[derive(Debug)]
pub struct HttpReply {
    /// Status code
    pub status: u16,
    /// Status code and its reason phrase
    pub status_text: String,
    /// The `Location` header, where it is a text
    pub location: Option<String>,
    /// The body
    pub body: String,
}

/// Whether a status code reports success.
pub open spec fn succeeded(status: u16) -> bool {
    200 <= status < 300
}

/// Whether a status code reports success.
pub fn is_success(status: u16) -> (r: bool)
    ensures
        r == succeeded(status),
{
    200 <= status && status < 300
}

} // verus!
