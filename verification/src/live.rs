//! The normalized live-broadcast data model and the adapter contract.

use vstd::prelude::*;

use crate::error::{ErrorV, SeamError};
use vstd::std_specs::cmp::PartialEqSpec;
use std::collections::HashMap;

verus! {

/// Mathematical model of a [`Format`].
#[verifier::ext_equal]
pub enum FormatV {
    Flv,
    M3U,
    Rtmp,
    Other(Seq<char>),
}

/// Classification of a playback URL's container/transport.
///
/// A closed set of known transports with an open escape hatch: `Other(tag)`
/// carries an arbitrary tag for transports not yet modeled. The serialized
/// form is always a lowercase short token (see [`Format::token`]).
#[derive(Debug, Clone)]
pub enum Format {
    Flv,
    M3U,
    Rtmp,
    Other(String),
}

impl View for Format {
    type V = FormatV;

    open spec fn view(&self) -> FormatV {
        match self {
            Format::Flv => FormatV::Flv,
            Format::M3U => FormatV::M3U,
            Format::Rtmp => FormatV::Rtmp,
            Format::Other(tag) => FormatV::Other(tag@),
        }
    }
}

/// The serialized token of a format: `flv`, `m3u`, `rtmp`, or the verbatim
/// tag of `Other`.
pub open spec fn spec_token(f: FormatV) -> Seq<char> {
    match f {
        FormatV::Flv => "flv"@,
        FormatV::M3U => "m3u"@,
        FormatV::Rtmp => "rtmp"@,
        FormatV::Other(tag) => tag,
    }
}

impl Format {
    /// The short token a format serializes to, exactly: `Flv` to `flv`,
    /// `M3U` to `m3u`, `Rtmp` to `rtmp`, and `Other(tag)` to `tag`
    /// verbatim, for any tag including the empty string.
    pub fn token(&self) -> (r: String)
        ensures
            r@ == spec_token(self@),
    {
        match self {
            Format::Flv => "flv".to_owned(),
            Format::M3U => "m3u".to_owned(),
            Format::Rtmp => "rtmp".to_owned(),
            Format::Other(tag) => tag.clone(),
        }
    }
}

impl PartialEq for Format {
    /// Equality is purely structural: same variant, and for `Other` the
    /// same tag.
    fn eq(&self, other: &Format) -> (r: bool) {
        match (self, other) {
            (Format::Flv, Format::Flv) => true,
            (Format::M3U, Format::M3U) => true,
            (Format::Rtmp, Format::Rtmp) => true,
            (Format::Other(a), Format::Other(b)) => *a == *b,
            _ => false,
        }
    }
}

impl vstd::std_specs::cmp::PartialEqSpecImpl for Format {
    open spec fn obeys_eq_spec() -> bool {
        true
    }

    open spec fn eq_spec(&self, other: &Format) -> bool {
        self@ == other@
    }
}

/// Mathematical model of a [`Url`].
#[verifier::ext_equal]
pub struct UrlV {
    pub format: FormatV,
    pub url: Seq<char>,
}

/// One candidate playback endpoint: the endpoint string, already the
/// adapter's best-quality choice, tagged with its transport/container
/// classification.
#[derive(Debug, Clone)]
pub struct Url {
    /// Transport/container classification of the endpoint.
    pub format: Format,
    /// The endpoint string; adapters report their best quality, so no
    /// client-side quality negotiation is implied.
    pub url: String,
}

impl View for Url {
    type V = UrlV;

    open spec fn view(&self) -> UrlV {
        UrlV { format: self.format@, url: self.url@ }
    }
}

impl Url {
    /// Asserts that this endpoint is a segmented playlist (`M3U`).
    ///
    /// Returns the stored URL unchanged when the format matches, and a
    /// `Type` error otherwise; the textual content of the URL is never
    /// consulted, so no coercion or guessing can occur.
    pub fn is_m3u8(&self) -> (r: Result<String, SeamError>)
        ensures
            self@.format is M3U <==> r is Ok,
            r matches Ok(u) ==> u@ == self@.url,
            r matches Err(e) ==> e@ == ErrorV::Type("not m3u8"@),
    {
        match self.format {
            Format::M3U => Ok(self.url.clone()),
            _ => Err(SeamError::Type("not m3u8".to_owned())),
        }
    }
}

impl PartialEq for Url {
    /// Equality is purely structural: same format and same endpoint string.
    fn eq(&self, other: &Url) -> (r: bool) {
        self.format == other.format && self.url == other.url
    }
}

impl vstd::std_specs::cmp::PartialEqSpecImpl for Url {
    open spec fn obeys_eq_spec() -> bool {
        true
    }

    open spec fn eq_spec(&self, other: &Url) -> bool {
        self@ == other@
    }
}

/// Mathematical model of a [`Node`].
#[verifier::ext_equal]
pub struct NodeV {
    pub rid: Seq<char>,
    pub title: Seq<char>,
    pub cover: Seq<char>,
    pub anchor: Seq<char>,
    pub head: Seq<char>,
    pub urls: Seq<UrlV>,
}

/// A snapshot of one live room at fetch time.
///
/// All fields are plain display data; `rid` echoes back the room
/// identifier the caller supplied, and `urls` lists the candidate
/// playback endpoints in adapter-reported preference order (it may be
/// empty when the room is offline).
#[derive(Debug, Clone)]
pub struct Node {
    /// Room identifier, echoed back as supplied by the caller.
    pub rid: String,
    /// Room title; may be empty if the platform does not expose it.
    pub title: String,
    /// Cover image URL; may be empty.
    pub cover: String,
    /// Anchor display name; may be empty.
    pub anchor: String,
    /// Anchor avatar URL; may be empty.
    pub head: String,
    /// Candidate playback endpoints, best first.
    pub urls: Vec<Url>,
}

impl View for Node {
    type V = NodeV;

    open spec fn view(&self) -> NodeV {
        NodeV {
            rid: self.rid@,
            title: self.title@,
            cover: self.cover@,
            anchor: self.anchor@,
            head: self.head@,
            urls: Seq::new(self.urls@.len(), |i: int| self.urls@[i]@),
        }
    }
}

impl PartialEq for Node {
    /// Equality is purely structural: all fields equal, the endpoint list
    /// element by element.
    fn eq(&self, other: &Node) -> (r: bool) {
        if !(self.rid == other.rid && self.title == other.title && self.cover == other.cover
            && self.anchor == other.anchor && self.head == other.head) {
            return false;
        }
        if self.urls.len() != other.urls.len() {
            proof {
                assert(self@.urls.len() == self.urls@.len());
                assert(other@.urls.len() == other.urls@.len());
            }
            return false;
        }
        let n = self.urls.len();
        for i in 0..n
            invariant
                n == self.urls.len() == other.urls.len(),
                forall|j: int| 0 <= j < i ==> self.urls@[j]@ == other.urls@[j]@,
        {
            if !(self.urls[i] == other.urls[i]) {
                assert(self@.urls[i as int] != other@.urls[i as int]);
                return false;
            }
        }
        proof {
            assert(self@.urls =~= other@.urls);
        }
        true
    }
}

impl vstd::std_specs::cmp::PartialEqSpecImpl for Node {
    open spec fn obeys_eq_spec() -> bool {
        true
    }

    open spec fn eq_spec(&self, other: &Node) -> bool {
        self@ == other@
    }
}

/// Equality on endpoints is purely structural: two values compare equal
/// exactly when both field values are equal, regardless of how either
/// instance was constructed.
pub proof fn lemma_url_eq_structural(a: &Url, b: &Url)
    ensures
        a.eq_spec(b) <==> (a.format@ == b.format@ && a.url@ == b.url@),
{
    if a.format@ == b.format@ && a.url@ == b.url@ {
        assert(a@ =~= b@);
    }
}

/// Equality on the data model is purely structural: two values compare
/// equal exactly when all corresponding field values are equal, regardless
/// of how either instance was constructed.
pub proof fn lemma_eq_structural(a: &Node, b: &Node)
    ensures
        a.eq_spec(b) <==> {
            &&& a.rid@ == b.rid@
            &&& a.title@ == b.title@
            &&& a.cover@ == b.cover@
            &&& a.anchor@ == b.anchor@
            &&& a.head@ == b.head@
            &&& a@.urls == b@.urls
        },
{
    if a.rid@ == b.rid@ && a.title@ == b.title@ && a.cover@ == b.cover@ && a.anchor@ == b.anchor@
        && a.head@ == b.head@ && a@.urls == b@.urls {
        assert(a@ =~= b@);
    }
}

/// The capability contract every platform adapter satisfies.
///
/// An adapter fetches the live information of one room and returns a fully
/// populated [`Node`], or one of the failure kinds of [`SeamError`]. The
/// room identifier is opaque and platform-specific. `headers`, when
/// present, are additional or overriding request headers the adapter
/// applies to its upstream requests; when absent the adapter uses its own
/// defaults. Adapter instances are shared, so an implementation must be
/// safely invocable concurrently without external synchronization.
pub trait Live: Send + Sync {
    fn get(&self, rid: &str, headers: Option<HashMap<String, String>>) -> Result<Node, SeamError>;
}

} // verus!
