//! URL validation: only absolute `http://` and `https://` URLs that parse.
use vstd::prelude::*;
use vstd::utf8::encode_utf8;

verus! {

/// Why a URL was refused.
#[derive(Clone, Debug, PartialEq, Eq)]
pub enum ValidationError {
    /// The URL is the empty string.
    Empty,
    /// The URL does not begin with `http://` or `https://`.
    UnsupportedScheme,
    /// The URL does not parse; the parser's reason is kept.
    Malformed(String),
}

impl ValidationError {
    /// The message shown for this error.
    pub open spec fn text(&self) -> Seq<char> {
        match self {
            ValidationError::Empty => "URL cannot be empty"@,
            ValidationError::UnsupportedScheme => "URL must start with http:// or https://"@,
            ValidationError::Malformed(detail) => "Invalid URL: "@ + detail@,
        }
    }

    pub fn message(&self) -> (r: String)
        ensures
            r@ == self.text(),
    {
        match self {
            ValidationError::Empty => "URL cannot be empty".to_owned(),
            ValidationError::UnsupportedScheme => "URL must start with http:// or https://".to_owned(),
            ValidationError::Malformed(detail) => {
                let mut m = "Invalid URL: ".to_owned();
                append(&mut m, detail.as_str());
                m
            },
        }
    }
}

/// `p` is a prefix of `s`.
pub open spec fn has_prefix(s: Seq<u8>, p: Seq<u8>) -> bool {
    p.len() <= s.len() && s.take(p.len() as int) == p
}

/// The URL begins with `http://` or `https://`, case-sensitively.
pub open spec fn web_scheme(u: Seq<char>) -> bool {
    has_prefix(encode_utf8(u), encode_utf8("http://"@)) || has_prefix(
        encode_utf8(u),
        encode_utf8("https://"@),
    )
}

/// The URL parses as an absolute URL under url::Url::parse.
pub uninterp spec fn url_parses(u: Seq<char>) -> bool;

/// The URL is accepted: not empty, of a web scheme, and well formed.
pub open spec fn accepted(u: Seq<char>) -> bool {
    u.len() != 0 && web_scheme(u) && url_parses(u)
}

/// Relies on url::Url::parse: whether a string parses depends on the string
/// alone; on failure the parser's error text is handed back.
#[verifier::external_body]
fn parse_url(u: &str) -> (r: Result<(), String>)
    ensures
        r is Ok <==> url_parses(u@),
{
    url::Url::parse(u).map(|_| ()).map_err(|e| e.to_string())
}

/// Relies on String::push_str: `t` is appended to `s`.
#[verifier::external_body]
fn append(s: &mut String, t: &str)
    ensures
        final(s)@ == old(s)@ + t@,
{
    s.push_str(t)
}

fn starts_with_bytes(s: &[u8], p: &[u8]) -> (r: bool)
    ensures
        r == has_prefix(s@, p@),
{
    if p.len() > s.len() {
        return false;
    }
    let mut i: usize = 0;
    while i < p.len()
        invariant
            p@.len() <= s@.len(),
            i <= p@.len(),
            forall|k: int| 0 <= k < i ==> s@[k] == p@[k],
        decreases p@.len() - i,
    {
        if s[i] != p[i] {
            assert(s@.take(p@.len() as int)[i as int] != p@[i as int]);
            return false;
        }
        i = i + 1;
    }
    assert(s@.take(p@.len() as int) =~= p@);
    true
}

/// Accepts `url` when it is an absolute `http://` or `https://` URL. The tests
/// come in order: empty, then the scheme prefix, then the parse.
pub fn validate(url: &str) -> (r: Result<(), ValidationError>)
    ensures
        r is Ok <==> accepted(url@),
        r matches Err(ValidationError::Empty) <==> url@.len() == 0,
        r matches Err(ValidationError::UnsupportedScheme) <==> url@.len() != 0 && !web_scheme(
            url@,
        ),
        r matches Err(ValidationError::Malformed(_)) <==> url@.len() != 0 && web_scheme(url@)
            && !url_parses(url@),
{
    if url.is_empty() {
        return Err(ValidationError::Empty);
    }
    let b = url.as_bytes();
    if !starts_with_bytes(b, "http://".as_bytes()) && !starts_with_bytes(b, "https://".as_bytes()) {
        return Err(ValidationError::UnsupportedScheme);
    }
    match parse_url(url) {
        Ok(()) => Ok(()),
        Err(detail) => Err(ValidationError::Malformed(detail)),
    }
}

/// `validate`, with the error given as its message.
pub fn validate_url(url: &str) -> (r: Result<(), String>)
    ensures
        r is Ok <==> accepted(url@),
        url@.len() == 0 ==> (r matches Err(m) && m@ == ValidationError::Empty.text()),
        url@.len() != 0 && !web_scheme(url@) ==> (r matches Err(m) && m@
            == ValidationError::UnsupportedScheme.text()),
        url@.len() != 0 && web_scheme(url@) && !url_parses(url@) ==> (r matches Err(m)
            && exists|d: Seq<char>| m@ == "Invalid URL: "@ + d),
{
    match validate(url) {
        Ok(()) => Ok(()),
        Err(e) => {
            let m = e.message();
            proof {
                if let ValidationError::Malformed(d) = e {
                    assert(m@ == "Invalid URL: "@ + d@);
                }
            }
            Err(m)
        },
    }
}

} // verus!
