//! The quadlet file model: the supported file kinds, their extensions,
//! and the record describing one quadlet file.

use vstd::prelude::*;
use vstd::string::StringExecFns;
use crate::strutil::str_eq;

verus! {

broadcast use vstd::string::group_string_axioms;

/// A supported quadlet file kind.
#[derive(Debug, Clone, Copy, PartialEq, Eq, Structural)]
pub enum QuadletType {
    Container,
    Network,
    Volume,
    Kube,
    Pod,
    Image,
}

/// The file extension that belongs to each kind.
pub open spec fn spec_extension(t: QuadletType) -> Seq<char> {
    match t {
        QuadletType::Container => ".container"@,
        QuadletType::Network => ".network"@,
        QuadletType::Pod => ".pod"@,
        QuadletType::Image => ".image"@,
        QuadletType::Volume => ".volume"@,
        QuadletType::Kube => ".kube"@,
    }
}

/// The kind a file extension denotes, if any.
pub open spec fn spec_from_extension(s: Seq<char>) -> Option<QuadletType> {
    if s == ".container"@ {
        Option::Some(QuadletType::Container)
    } else if s == ".network"@ {
        Option::Some(QuadletType::Network)
    } else if s == ".pod"@ {
        Option::Some(QuadletType::Pod)
    } else if s == ".image"@ {
        Option::Some(QuadletType::Image)
    } else if s == ".volume"@ {
        Option::Some(QuadletType::Volume)
    } else if s == ".kube"@ {
        Option::Some(QuadletType::Kube)
    } else {
        Option::None
    }
}

/// The plain name of each kind.
pub open spec fn spec_as_str(t: QuadletType) -> Seq<char> {
    match t {
        QuadletType::Container => "container"@,
        QuadletType::Network => "network"@,
        QuadletType::Pod => "pod"@,
        QuadletType::Image => "image"@,
        QuadletType::Volume => "volume"@,
        QuadletType::Kube => "kube"@,
    }
}

impl QuadletType {
    /// The file extension associated with this kind.
    pub fn extension(&self) -> (r: &'static str)
        ensures
            r@ == spec_extension(*self),
    {
        match self {
            QuadletType::Container => ".container",
            QuadletType::Network => ".network",
            QuadletType::Pod => ".pod",
            QuadletType::Image => ".image",
            QuadletType::Volume => ".volume",
            QuadletType::Kube => ".kube",
        }
    }

    /// The kind a file extension denotes, if it is one of the supported
    /// extensions.
    pub fn from_extension(ext: &str) -> (r: Option<QuadletType>)
        ensures
            r == spec_from_extension(ext@),
    {
        if str_eq(ext, ".container") {
            Option::Some(QuadletType::Container)
        } else if str_eq(ext, ".network") {
            Option::Some(QuadletType::Network)
        } else if str_eq(ext, ".pod") {
            Option::Some(QuadletType::Pod)
        } else if str_eq(ext, ".image") {
            Option::Some(QuadletType::Image)
        } else if str_eq(ext, ".volume") {
            Option::Some(QuadletType::Volume)
        } else if str_eq(ext, ".kube") {
            Option::Some(QuadletType::Kube)
        } else {
            Option::None
        }
    }

    /// The plain name of this kind.
    pub fn as_str(&self) -> (r: &'static str)
        ensures
            r@ == spec_as_str(*self),
    {
        match self {
            QuadletType::Container => "container",
            QuadletType::Network => "network",
            QuadletType::Pod => "pod",
            QuadletType::Image => "image",
            QuadletType::Volume => "volume",
            QuadletType::Kube => "kube",
        }
    }
}

/// Mapping a kind to its extension and back yields the same kind: every
/// supported extension names exactly one kind.
pub proof fn lemma_extension_round_trip(t: QuadletType)
    ensures
        spec_from_extension(spec_extension(t)) == Option::Some(t),
{
    reveal_strlit(".container");
    reveal_strlit(".network");
    reveal_strlit(".pod");
    reveal_strlit(".image");
    reveal_strlit(".volume");
    reveal_strlit(".kube");
    assert(".container"@.len() == 10);
    assert(".network"@.len() == 8);
    assert(".pod"@.len() == 4);
    assert(".image"@.len() == 6);
    assert(".volume"@.len() == 7);
    assert(".kube"@.len() == 5);
    match t {
        QuadletType::Container => assert(spec_from_extension(".container"@) == Option::Some(
            QuadletType::Container,
        )),
        QuadletType::Network => assert(spec_from_extension(".network"@) == Option::Some(
            QuadletType::Network,
        )),
        QuadletType::Pod => assert(spec_from_extension(".pod"@) == Option::Some(QuadletType::Pod)),
        QuadletType::Image => assert(spec_from_extension(".image"@) == Option::Some(
            QuadletType::Image,
        )),
        QuadletType::Volume => assert(spec_from_extension(".volume"@) == Option::Some(
            QuadletType::Volume,
        )),
        QuadletType::Kube => assert(spec_from_extension(".kube"@) == Option::Some(
            QuadletType::Kube,
        )),
    }
}

/// One quadlet file: its stem, kind, content, and full path on disk.
#[derive(Debug, Clone)]
pub struct Quadlet {
    pub name: String,
    pub kind: QuadletType,
    pub content: String,
    pub path: String,
}

impl Quadlet {
    /// Bundles the parts of a quadlet file into one record.
    pub fn new(name: String, kind: QuadletType, content: String, path: String) -> (r: Quadlet)
        ensures
            r.name == name,
            r.kind == kind,
            r.content == content,
            r.path == path,
    {
        Quadlet { name, kind, content, path }
    }

    /// The full file name: the stem followed by the extension of the
    /// file's kind.
    pub fn full_name(&self) -> (r: String)
        ensures
            r@ == self.name@ + spec_extension(self.kind),
    {
        let mut s = self.name.clone();
        s.append(self.kind.extension());
        s
    }
}

} // verus!
