//! The request pipeline shared by every endpoint.
//!
//! A call is described by an [`HttpRequest`] value: method, URL, headers and
//! body. The transport that sends it is the caller's concern; whatever came
//! back — a response or a transport failure — is handed to
//! [`build_response`], which normalizes the outcome into the body text of a
//! successful response or a uniform [`Error`].

use crate::error::Error;
use crate::text::{ascii_lower, lower};
use vstd::prelude::*;

verus! {

/// One literal request header: a name and a value.
///
/// The case and validity of names and values is the caller's responsibility;
/// the builders attach each entry as given.
#[derive(Debug, Clone)]
pub struct Header {
    /// The header's name, for example "Authorization".
    pub name: String,
    /// The header's value.
    pub value: String,
}

/// The mathematical value of a header list: the sequence of (name, value)
/// character sequences, in order.
pub open spec fn hview(hs: Seq<Header>) -> Seq<(Seq<char>, Seq<char>)> {
    hs.map_values(|h: Header| (h.name@, h.value@))
}

/// The header list with every entry of the given name removed; the name to
/// drop is given in ASCII lowercase and matched case-insensitively.
pub open spec fn without_name(
    hs: Seq<(Seq<char>, Seq<char>)>,
    lname: Seq<char>,
) -> Seq<(Seq<char>, Seq<char>)> {
    hs.filter(|h: (Seq<char>, Seq<char>)| lower(h.0) != lname)
}

/// The value a header list carries for the given name (in ASCII lowercase,
/// matched case-insensitively); the last entry wins, as it would on the wire
/// when later entries overwrite earlier ones.
pub open spec fn header_value(hs: Seq<(Seq<char>, Seq<char>)>, lname: Seq<char>) -> Option<
    Seq<char>,
>
    decreases hs.len(),
{
    if hs.len() == 0 {
        None
    } else if lower(hs.last().0) == lname {
        Some(hs.last().1)
    } else {
        header_value(hs.drop_last(), lname)
    }
}

/// Whatever headers a caller supplied — even a pre-set content type of any
/// letter case — a header list that went through the JSON builder's
/// override carries `Content-Type: application/json`.
pub proof fn lemma_post_json_content_type(hs: Seq<(Seq<char>, Seq<char>)>)
    ensures
        header_value(
            without_name(hs, lower("Content-Type"@)).push(("Content-Type"@, "application/json"@)),
            lower("Content-Type"@),
        ) == Some("application/json"@),
{
    let sent = without_name(hs, lower("Content-Type"@)).push(
        ("Content-Type"@, "application/json"@),
    );
    assert(sent.last() == ("Content-Type"@, "application/json"@));
}

/// Appending an entry of a different name does not change what a header
/// list carries for `lname`.
pub proof fn lemma_header_value_push_other(
    hs: Seq<(Seq<char>, Seq<char>)>,
    entry: (Seq<char>, Seq<char>),
    lname: Seq<char>,
)
    requires
        lower(entry.0) != lname,
    ensures
        header_value(hs.push(entry), lname) == header_value(hs, lname),
{
    assert(hs.push(entry).drop_last() =~= hs);
    assert(hs.push(entry).last() == entry);
}

/// Dropping every entry of one name does not change what a header list
/// carries for any other name.
pub proof fn lemma_header_value_without_other(
    hs: Seq<(Seq<char>, Seq<char>)>,
    dropped: Seq<char>,
    lname: Seq<char>,
)
    requires
        lname != dropped,
    ensures
        header_value(without_name(hs, dropped), lname) == header_value(hs, lname),
    decreases hs.len(),
{
    reveal_with_fuel(Seq::filter, 2);
    if hs.len() == 0 {
    } else {
        lemma_header_value_without_other(hs.drop_last(), dropped, lname);
        if lower(hs.last().0) != dropped {
            if lower(hs.last().0) == lname {
                assert(without_name(hs, dropped) == without_name(hs.drop_last(), dropped).push(
                    hs.last(),
                ));
            } else {
                lemma_header_value_push_other(
                    without_name(hs.drop_last(), dropped),
                    hs.last(),
                    lname,
                );
            }
        } else {
            assert(without_name(hs, dropped) == without_name(hs.drop_last(), dropped));
        }
    }
}

/// The JSON builder's content-type override leaves every other
/// caller-supplied header carrying the value it had.
pub proof fn lemma_post_json_keeps_other_headers(
    hs: Seq<(Seq<char>, Seq<char>)>,
    lname: Seq<char>,
)
    requires
        lname != lower("Content-Type"@),
    ensures
        header_value(
            without_name(hs, lower("Content-Type"@)).push(("Content-Type"@, "application/json"@)),
            lname,
        ) == header_value(hs, lname),
{
    lemma_header_value_push_other(
        without_name(hs, lower("Content-Type"@)),
        ("Content-Type"@, "application/json"@),
        lname,
    );
    lemma_header_value_without_other(hs, lower("Content-Type"@), lname);
}

/// One field of a URL-encoded form body.
#[derive(Debug, Clone)]
pub struct FormField {
    /// The field's name.
    pub name: String,
    /// The field's value.
    pub value: String,
}

/// The mathematical value of a form body: the sequence of (name, value)
/// character sequences, in order.
pub open spec fn fview(fs: Seq<FormField>) -> Seq<(Seq<char>, Seq<char>)> {
    fs.map_values(|f: FormField| (f.name@, f.value@))
}

/// The HTTP method of a request built by this library.
#[derive(Debug, Clone, Copy, PartialEq, Eq, Structural)]
pub enum Method {
    /// An HTTP GET.
    Get,
    /// An HTTP POST.
    Post,
}

/// The body of a request built by this library.
#[derive(Debug, Clone)]
pub enum Body {
    /// No body at all.
    Empty,
    /// A URL-encoded form body, sent as `application/x-www-form-urlencoded`.
    Form(Vec<FormField>),
    /// An already-serialized JSON document, sent verbatim.
    Json(String),
}

/// A fully-formed request, ready for a transport to send.
#[derive(Debug, Clone)]
pub struct HttpRequest {
    /// The HTTP method.
    pub method: Method,
    /// The absolute URL to send the request to.
    pub url: String,
    /// The literal request headers, attached in order; a later entry of the
    /// same name overwrites an earlier one on the wire.
    pub headers: Vec<Header>,
    /// The request body.
    pub body: Body,
}

/// What the transport handed back for one request: either a response from
/// the remote service, whatever its status, or a transport-level failure.
#[derive(Debug, Clone)]
pub enum HttpReply {
    /// The remote service answered.
    Response {
        /// The response's HTTP status code.
        status: u16,
        /// The full response body, as text.
        body: String,
        /// The URL the response came from.
        url: String,
    },
    /// The request could not be completed: connection, DNS, TLS or timeout
    /// failure, or malformed response framing.
    Failure {
        /// The transport's diagnostic message.
        message: String,
        /// A status code, if the failure exposes one.
        status: Option<u16>,
        /// The remote URL, if the failure exposes one.
        url: Option<String>,
    },
}

/// Whether a status code counts as success: the 2xx range.
pub open spec fn is_success(status: u16) -> bool {
    200 <= status < 300
}

/// Builds a GET request for the given URL with the given headers and no
/// body.
pub fn get(url: &str, headers: Vec<Header>) -> (r: HttpRequest)
    ensures
        r.method == Method::Get,
        r.url@ == url@,
        r.headers == headers,
        r.body is Empty,
{
    HttpRequest {
        method: Method::Get,
        url: <String as vstd::string::StringExecFns>::from_str(url),
        headers,
        body: Body::Empty,
    }
}

/// Builds a POST request carrying the given fields as a URL-encoded form
/// body.
pub fn post(url: &str, headers: Vec<Header>, form: Vec<FormField>) -> (r: HttpRequest)
    ensures
        r.method == Method::Post,
        r.url@ == url@,
        r.headers == headers,
        r.body == Body::Form(form),
{
    HttpRequest {
        method: Method::Post,
        url: <String as vstd::string::StringExecFns>::from_str(url),
        headers,
        body: Body::Form(form),
    }
}

/// Builds a POST request carrying the given JSON document as its body.
///
/// The `Content-Type: application/json` header is set unconditionally:
/// every caller-supplied entry of that name, in any letter case, is dropped,
/// and the JSON content type is attached in its place.
pub fn post_json(url: &str, headers: Vec<Header>, body: String) -> (r: HttpRequest)
    ensures
        r.method == Method::Post,
        r.url@ == url@,
        hview(r.headers@) == without_name(hview(headers@), lower("Content-Type"@)).push(
            ("Content-Type"@, "application/json"@),
        ),
        r.body == Body::Json(body),
{
    let mut hs = headers;
    set_header(&mut hs, "Content-Type", "application/json");
    HttpRequest {
        method: Method::Post,
        url: <String as vstd::string::StringExecFns>::from_str(url),
        headers: hs,
        body: Body::Json(body),
    }
}

/// Replaces every entry of the given name (matched case-insensitively) by a
/// single entry with the given value, placed last.
pub fn set_header(hs: &mut Vec<Header>, name: &str, value: &str)
    ensures
        hview(final (hs)@) == without_name(hview(old(hs)@), lower(name@)).push(
            (name@, value@),
        ),
{
    let lname = ascii_lower(name);
    let mut out: Vec<Header> = Vec::new();
    let mut i: usize = 0;
    while i < hs.len()
        invariant
            i <= hs@.len(),
            lname@ == lower(name@),
            hview(out@) == without_name(hview(hs@.take(i as int)), lower(name@)),
        decreases hs@.len() - i,
    {
        let keep = {
            let ln = ascii_lower(hs[i].name.as_str());
            !strings_equal(ln.as_str(), lname.as_str())
        };
        if keep {
            let h = Header {
                name: hs[i].name.clone(),
                value: hs[i].value.clone(),
            };
            out.push(h);
        }
        proof {
            reveal_with_fuel(Seq::filter, 2);
            assert(hview(hs@.take(i + 1 as int)).drop_last() =~= hview(hs@.take(i as int)));
            assert(hview(hs@.take(i + 1 as int)).last() == (hs@[i as int].name@, hs@[i as int].value@));
            if keep {
                assert(hview(out@) =~= without_name(hview(hs@.take(i + 1 as int)), lower(name@)));
            } else {
                assert(hview(out@) =~= without_name(hview(hs@.take(i + 1 as int)), lower(name@)));
            }
        }
        i = i + 1;
    }
    proof {
        assert(hs@.take(hs@.len() as int) =~= hs@);
    }
    let tail = Header {
        name: <String as vstd::string::StringExecFns>::from_str(name),
        value: <String as vstd::string::StringExecFns>::from_str(value),
    };
    out.push(tail);
    proof {
        assert(hview(out@) =~= without_name(hview(old(hs)@), lower(name@)).push(
            (name@, value@),
        ));
    }
    *hs = out;
}

/// Looks up the value a header list carries for the given name, matched
/// case-insensitively, agreeing exactly with [`header_value`]: the last
/// entry of that name wins, and `None` comes back when no entry has it.
pub fn find_header(headers: &Vec<Header>, name: &str) -> (r: Option<String>)
    ensures
        match r {
            Some(v) => header_value(hview(headers@), lower(name@)) == Some(v@),
            None => header_value(hview(headers@), lower(name@)) is None,
        },
{
    let lname = ascii_lower(name);
    let mut i: usize = headers.len();
    proof {
        assert(headers@.take(headers@.len() as int) =~= headers@);
    }
    while i > 0
        invariant
            i <= headers@.len(),
            lname@ == lower(name@),
            header_value(hview(headers@), lower(name@)) == header_value(
                hview(headers@.take(i as int)),
                lower(name@),
            ),
        decreases i,
    {
        i = i - 1;
        let matches_name = {
            let ln = ascii_lower(headers[i].name.as_str());
            strings_equal(ln.as_str(), lname.as_str())
        };
        proof {
            assert(hview(headers@.take(i + 1 as int)).drop_last() =~= hview(
                headers@.take(i as int),
            ));
            assert(hview(headers@.take(i + 1 as int)).last() == (
                headers@[i as int].name@,
                headers@[i as int].value@,
            ));
        }
        if matches_name {
            return Some(headers[i].value.clone());
        }
    }
    proof {
        assert(hview(headers@.take(0)) =~= Seq::<(Seq<char>, Seq<char>)>::empty());
    }
    None
}

/// Whether two strings hold the same characters.
fn strings_equal(a: &str, b: &str) -> (r: bool)
    ensures
        r == (a@ == b@),
{
    let sa = <String as vstd::string::StringExecFns>::from_str(a);
    let sb = <String as vstd::string::StringExecFns>::from_str(b);
    sa.eq(&sb)
}

/// Normalizes the outcome of one round trip.
///
/// A response with a success status yields its body text, handed on to the
/// caller's decoder. A response with any other status yields a remote
/// rejection: an [`Error`] whose status is exactly the response's status,
/// whose message is exactly the raw response body, and whose remote URL is
/// the request's URL. A transport failure never yields a remote rejection:
/// it yields an [`Error`] that passes the transport's diagnostics through
/// unchanged, with no guaranteed status or URL.
pub fn build_response(reply: HttpReply) -> (r: Result<String, Error>)
    ensures
        reply matches HttpReply::Response { status, body, url } ==> r == (if is_success(status) {
            Ok::<String, Error>(body)
        } else {
            Err::<String, Error>(
                Error { message: body, status: Some(status), remote: Some(url) },
            )
        }),
        reply matches HttpReply::Failure { message, status, url } ==> r == Err::<String, Error>(
            Error { message, status, remote: url },
        ),
{
    match reply {
        HttpReply::Response { status, body, url } => {
            if 200 <= status && status < 300 {
                Ok(body)
            } else {
                Err(Error { message: body, status: Some(status), remote: Some(url) })
            }
        },
        HttpReply::Failure { message, status, url } => {
            Err(Error { message, status, remote: url })
        },
    }
}

} // verus!
