//! Object identifiers: absolute URLs held as their serialization together with
//! the registered domain of their host.

use vstd::prelude::*;

verus! {

/// The serialization that `url::Url::parse` gives for `raw`, or `None` where
/// `raw` is no absolute URL.
pub uninterp spec fn url_serialization(raw: Seq<char>) -> Option<Seq<char>>;

/// The domain that `url::Url::domain` reports for the URL that `raw` parses
/// to, or `None` where `raw` does not parse or its host is no domain name.
pub uninterp spec fn url_domain(raw: Seq<char>) -> Option<Seq<char>>;

/// `url::ParseError`, the error of `url::Url::parse`. It is only carried from
/// the call to where it becomes [`UrlError`]; nothing is claimed about it.
#[verifier::external_type_specification]
#[verifier::external_body]
pub struct ExParseError(url::ParseError);

/// Why a text could not be turned into an [`ObjectUrl`].
#[derive(Clone, Copy, Debug, PartialEq, Eq, Structural)]
pub enum UrlError {
    /// The text is not an absolute URL.
    Malformed,
}

/// Calls `url::Url::parse` and hands back the serialization of the parsed
/// URL, or the error of the parser. The contract names the serialization
/// `url_serialization`, and says that there is none exactly where the parser
/// fails; nothing more is claimed.
#[verifier::external_body]
fn parse_serialized(raw: &str) -> (r: Result<String, url::ParseError>)
    ensures
        r matches Ok(s) ==> url_serialization(raw@) == Some(s@),
        r is Err ==> url_serialization(raw@) is None,
{
    match url::Url::parse(raw) {
        Ok(u) => Ok(String::from(u)),
        Err(e) => Err(e),
    }
}

/// Calls `url::Url::domain` on the URL that `url::Url::parse` makes of
/// `raw`, and copies what it reports; a text that does not parse has no
/// domain. The contract names the outcome `url_domain`; nothing more is
/// claimed.
#[verifier::external_body]
fn parse_domain(raw: &str) -> (r: Option<String>)
    ensures
        r matches Some(d) ==> url_domain(raw@) == Some(d@),
        r is None ==> url_domain(raw@) is None,
{
    match url::Url::parse(raw) {
        Ok(u) => match u.domain() {
            Some(d) => Some(String::from(d)),
            None => None,
        },
        Err(_) => None,
    }
}

/// Calls `activitystreams_kinds::public` and hands back the serialization of
/// the URL it returns. That function parses the text below, which is its
/// own serialization, and the contract claims just that text.
#[verifier::external_body]
fn public_audience_text() -> (r: String)
    ensures
        r@ == "https://www.w3.org/ns/activitystreams#Public"@,
{
    String::from(activitystreams_kinds::public())
}

/// View of an optional text.
pub open spec fn text_of(o: Option<String>) -> Option<Seq<char>> {
    match o {
        Some(s) => Some(s@),
        None => None,
    }
}

/// An absolute URL identifying an actor, an object or an inbox.
///
/// Two identifiers denote the same thing exactly when their serializations
/// are equal.
pub struct ObjectUrl {
    text: String,
    domain: Option<String>,
}

impl View for ObjectUrl {
    type V = Seq<char>;

    closed spec fn view(&self) -> Seq<char> {
        self.text@
    }
}

impl ObjectUrl {
    #[verifier::type_invariant]
    spec fn consistent(self) -> bool {
        text_of(self.domain) == url_domain(self.text@)
    }

    /// The domain name of the host, if the host is a domain name.
    pub closed spec fn domain_view(self) -> Option<Seq<char>> {
        text_of(self.domain)
    }

    /// The domain name of the host, if the host is a domain name.
    pub fn domain(&self) -> (d: &Option<String>)
        ensures
            text_of(*d) == self.domain_view(),
            self.domain_view() == url_domain(self@),
    {
        proof {
            use_type_invariant(self);
        }
        &self.domain
    }

    /// Parses `raw` as an absolute URL and keeps its serialization.
    pub fn parse(raw: &str) -> (r: Result<ObjectUrl, UrlError>)
        ensures
            r is Ok <==> url_serialization(raw@) is Some,
            r matches Ok(u) ==> Some(u@) == url_serialization(raw@) && u.domain_view()
                == url_domain(u@),
    {
        match parse_serialized(raw) {
            Ok(text) => {
                let domain = parse_domain(text.as_str());
                Ok(ObjectUrl { text, domain })
            },
            Err(_) => Err(UrlError::Malformed),
        }
    }

    /// The marker that addresses an activity to everyone.
    pub fn public() -> (r: ObjectUrl)
        ensures
            r@ == "https://www.w3.org/ns/activitystreams#Public"@,
            r.domain_view() == url_domain(r@),
    {
        let text = public_audience_text();
        let domain = parse_domain(text.as_str());
        ObjectUrl { text, domain }
    }

    /// The serialization.
    pub fn as_str(&self) -> (s: &str)
        ensures
            s@ == self@,
    {
        self.text.as_str()
    }

    /// Whether both identifiers have the same serialization.
    pub fn same(&self, other: &ObjectUrl) -> (b: bool)
        ensures
            b == (self@ == other@),
    {
        self.text == other.text
    }
}

impl Clone for ObjectUrl {
    fn clone(&self) -> (r: ObjectUrl)
        ensures
            r == *self,
    {
        proof {
            use_type_invariant(self);
        }
        let domain = match &self.domain {
            Some(d) => Some(d.clone()),
            None => None,
        };
        ObjectUrl { text: self.text.clone(), domain }
    }
}

/// Whether two optional domains are the same: both absent, or both present
/// with the same text.
pub open spec fn same_domain(a: Option<Seq<char>>, b: Option<Seq<char>>) -> bool {
    a == b
}

/// Compares the domains of two identifiers.
pub fn domains_equal(a: &ObjectUrl, b: &ObjectUrl) -> (r: bool)
    ensures
        r == same_domain(a.domain_view(), b.domain_view()),
{
    let da = a.domain();
    let db = b.domain();
    match da {
        Some(x) => match db {
            Some(y) => {
                let r = *x == *y;
                assert(text_of(*da) == Some(x@) && text_of(*db) == Some(y@));
                r
            },
            None => false,
        },
        None => db.is_none(),
    }
}

/// Whether the identifier's domain is exactly `host`.
pub fn domain_is(a: &ObjectUrl, host: &String) -> (r: bool)
    ensures
        r == (a.domain_view() == Some(host@)),
{
    let da = a.domain();
    match da {
        Some(x) => {
            let r = *x == *host;
            assert(text_of(*da) == Some(x@));
            r
        },
        None => false,
    }
}

/// Whether `list` holds an identifier with the serialization `needle`.
pub open spec fn holds_url(list: Seq<ObjectUrl>, needle: Seq<char>) -> bool {
    exists|i: int| 0 <= i < list.len() && (#[trigger] list[i])@ == needle
}

/// Searches `list` for `needle`.
pub fn contains_url(list: &Vec<ObjectUrl>, needle: &ObjectUrl) -> (r: bool)
    ensures
        r == holds_url(list@, needle@),
{
    let mut i: usize = 0;
    while i < list.len()
        invariant
            i <= list.len(),
            forall|j: int| 0 <= j < i ==> (#[trigger] list@[j])@ != needle@,
        decreases list.len() - i,
    {
        if list[i].same(needle) {
            return true;
        }
        i += 1;
    }
    false
}

} // verus!
