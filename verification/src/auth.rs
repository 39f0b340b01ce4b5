//! The OAuth2 client-credentials exchange: building the one token request
//! and interpreting the token endpoint's response.
//!
//! Sending the request is the transport's job; this module produces the
//! request as plain values and turns the response's status and body into a
//! bearer token or an error.
use vstd::prelude::*;
use vstd::string::StringExecFns;
use vstd::utf8::encode_utf8;
use crate::errors::Error;
use crate::json::{json_of, parse_json, JVal};

verus! {

/// Opaque application identity: the consumer key and secret used for HTTP
/// Basic auth at the token endpoint.  Immutable after construction.
#[derive(Clone, Debug)]
pub struct ApplicationAuth {
    pub key: String,
    pub secret: String,
}

/// A user record.  The list endpoints used here return bare ids, so no
/// fields are read from it yet.
#[derive(Clone, Debug)]
pub struct User {
}

/// A session with the service: the bearer token proving the
/// client-credentials exchange succeeded.  Read-only for the lifetime of
/// every stream built from it.
#[derive(PartialEq, Eq, Debug)]
pub struct Twitter {
    pub bearer: String,
}

/// What base64 makes of `bytes` under the standard alphabet with padding:
/// the encoding depends on the bytes alone.
pub uninterp spec fn b64_of(bytes: Seq<u8>) -> Seq<char>;

/// Relies on `base64::engine::Engine::encode` with the
/// `general_purpose::STANDARD` engine: a deterministic encoding of the
/// bytes, named `b64_of`; an empty input encodes to the empty string.
#[verifier::external_body]
fn b64_encode(bytes: &[u8]) -> (r: String)
    ensures
        r@ == b64_of(bytes@),
        bytes@.len() == 0 ==> r@.len() == 0,
{
    base64::engine::Engine::encode(&base64::engine::general_purpose::STANDARD, bytes)
}

/// The value of the `Authorization` header for HTTP Basic auth with the
/// given key and secret.
pub open spec fn basic_auth_of(key: Seq<char>, secret: Seq<char>) -> Seq<char> {
    "Basic "@ + b64_of(encode_utf8(key + ":"@ + secret))
}

/// Builds the Basic `Authorization` header value from the credentials.
pub fn basic_auth_header(auth: &ApplicationAuth) -> (r: String)
    ensures
        r@ == basic_auth_of(auth.key@, auth.secret@),
{
    let mut joined: String = auth.key.clone();
    joined.append(":");
    joined.append(auth.secret.as_str());
    let encoded = b64_encode(joined.as_str().as_bytes());
    let mut r: String = "Basic ".to_owned();
    r.append(encoded.as_str());
    r
}

/// The one POST of the client-credentials exchange, as plain values for the
/// transport to send.
#[derive(Clone, PartialEq, Eq, Debug)]
pub struct TokenRequest {
    pub url: String,
    pub authorization: String,
    pub content_type: String,
    pub body: String,
}

impl Twitter {
    /// Builds the token-endpoint request: POST to the oauth2 token URL with
    /// Basic auth from the credentials and the client-credentials grant body.
    pub fn token_request(auth: &ApplicationAuth) -> (r: TokenRequest)
        ensures
            r.url@ == "https://api.twitter.com/oauth2/token"@,
            r.authorization@ == basic_auth_of(auth.key@, auth.secret@),
            r.content_type@ == "application/x-www-form-urlencoded; charset=utf-8"@,
            r.body@ == "grant_type=client_credentials"@,
    {
        TokenRequest {
            url: "https://api.twitter.com/oauth2/token".to_owned(),
            authorization: basic_auth_header(auth),
            content_type: "application/x-www-form-urlencoded; charset=utf-8".to_owned(),
            body: "grant_type=client_credentials".to_owned(),
        }
    }

    /// Interprets the token endpoint's response; on success wraps the bearer
    /// token in a session.
    pub fn from_token_response(status: u16, body: &[u8]) -> (r: Result<Twitter, Error>)
        ensures
            token_result_view(r) == spec_token_outcome(status, json_of(body@)),
    {
        let doc = parse_json(body);
        match interpret_token_doc(status, &doc) {
            Ok(token) => Ok(Twitter { bearer: token }),
            Err(e) => Err(e),
        }
    }

    /// The bearer token this session sends on every request.
    pub fn bearer(&self) -> (r: &String)
        ensures
            r == self.bearer,
    {
        &self.bearer
    }
}

/// The result of [`Twitter::from_token_response`] seen at the model level:
/// the bearer token's characters, or the error.
pub open spec fn token_result_view(r: Result<Twitter, Error>) -> Result<Seq<char>, Error> {
    match r {
        Ok(t) => Ok(t.bearer@),
        Err(e) => Err(e),
    }
}

/// The value under `key` among the object entries, the last occurrence
/// winning.
pub open spec fn lookup(entries: Seq<(String, JVal)>, key: Seq<char>) -> Option<JVal>
    decreases entries.len(),
{
    if entries.len() == 0 {
        None
    } else if entries.last().0@ == key {
        Some(entries.last().1)
    } else {
        lookup(entries.drop_last(), key)
    }
}

/// How the token endpoint's response is read.
///
/// On a body that is not a JSON object the response violates the protocol.
/// On status 200 the `token_type` entry must be the string `"bearer"` and
/// the `access_token` entry must be a string — that string is the bearer
/// token.  On any other status the `errors` entry must be an array of
/// exactly one object whose `message` entry is a string — the exchange
/// failed with that message as an authentication error.
pub open spec fn spec_token_outcome(status: u16, doc: Option<JVal>) -> Result<Seq<char>, Error> {
    match doc {
        Some(JVal::Obj(entries)) => {
            if status == 200 {
                match lookup(entries@, "token_type"@) {
                    Some(JVal::Str(t)) => if t@ == "bearer"@ {
                        match lookup(entries@, "access_token"@) {
                            Some(JVal::Str(tok)) => Ok(tok@),
                            _ => Err(Error::Protocol),
                        }
                    } else {
                        Err(Error::Protocol)
                    },
                    _ => Err(Error::Protocol),
                }
            } else {
                match lookup(entries@, "errors"@) {
                    Some(JVal::Arr(errs)) => if errs@.len() == 1 {
                        match errs@[0] {
                            JVal::Obj(eo) => match lookup(eo@, "message"@) {
                                Some(JVal::Str(m)) => Err(Error::Auth(m)),
                                _ => Err(Error::Protocol),
                            },
                            _ => Err(Error::Protocol),
                        }
                    } else {
                        Err(Error::Protocol)
                    },
                    _ => Err(Error::Protocol),
                }
            }
        },
        _ => Err(Error::Protocol),
    }
}

/// The result of [`interpret_token_doc`] seen at the model level.
pub open spec fn token_doc_result_view(r: Result<String, Error>) -> Result<Seq<char>, Error> {
    match r {
        Ok(s) => Ok(s@),
        Err(e) => Err(e),
    }
}

/// Interprets an already parsed token response document; exactly
/// [`spec_token_outcome`].
pub fn interpret_token_doc(status: u16, doc: &Option<JVal>) -> (r: Result<String, Error>)
    ensures
        token_doc_result_view(r) == spec_token_outcome(status, *doc),
{
    match doc {
        Some(JVal::Obj(entries)) => {
            if status == 200 {
                match lookup_entry(entries, "token_type") {
                    Some(JVal::Str(t)) => {
                        if *t == "bearer".to_owned() {
                            match lookup_entry(entries, "access_token") {
                                Some(JVal::Str(tok)) => Ok(tok.clone()),
                                _ => Err(Error::Protocol),
                            }
                        } else {
                            Err(Error::Protocol)
                        }
                    },
                    _ => Err(Error::Protocol),
                }
            } else {
                match lookup_entry(entries, "errors") {
                    Some(JVal::Arr(errs)) => {
                        if errs.len() == 1 {
                            match &errs[0] {
                                JVal::Obj(eo) => match lookup_entry(eo, "message") {
                                    Some(JVal::Str(m)) => Err(Error::Auth(m.clone())),
                                    _ => Err(Error::Protocol),
                                },
                                _ => Err(Error::Protocol),
                            }
                        } else {
                            Err(Error::Protocol)
                        }
                    },
                    _ => Err(Error::Protocol),
                }
            }
        },
        _ => Err(Error::Protocol),
    }
}

/// Finds the value under `key`, the last occurrence winning; exactly
/// [`lookup`].
fn lookup_entry<'a>(entries: &'a Vec<(String, JVal)>, key: &str) -> (r: Option<&'a JVal>)
    ensures
        match r {
            Some(v) => lookup(entries@, key@) == Some(*v),
            None => lookup(entries@, key@) is None,
        },
{
    let key_string: String = key.to_owned();
    let n = entries.len();
    let mut found: Option<usize> = None;
    let mut i: usize = 0;
    while i < n
        invariant
            n == entries.len(),
            i <= n,
            key_string@ == key@,
            match found {
                Some(j) => j < i && lookup(entries@.take(i as int), key@)
                    == Some(entries@[j as int].1),
                None => lookup(entries@.take(i as int), key@) is None,
            },
        decreases n - i,
    {
        proof {
            assert(entries@.take(i + 1).drop_last() =~= entries@.take(i as int));
            assert(entries@.take(i + 1).last() == entries@[i as int]);
        }
        if entries[i].0 == key_string {
            found = Some(i);
        }
        i = i + 1;
    }
    proof {
        assert(entries@.take(n as int) =~= entries@);
    }
    match found {
        Some(j) => Some(&entries[j].1),
        None => None,
    }
}

} // verus!
