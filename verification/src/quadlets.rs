//! Validation and classification of quadlet file names: the request to
//! save a quadlet, the rule that derives a file's kind from its name,
//! and the exact diagnostics a bad name yields.
//!
//! A name is read as follows: its final `/`-separated component carries
//! an extension if it contains a dot later than its first character;
//! the extension is the text after the last such dot, the stem the text
//! before it. A component without an extension is rejected.

use vstd::prelude::*;
use vstd::string::StrSliceExecFns;
use crate::config::lemma_suffix_after_last_at;
use crate::config::lemma_suffix_after_last_none;
use crate::config::suffix_after_last;
use crate::quadlet::Quadlet;
use crate::quadlet::QuadletType;
use crate::quadlet::spec_from_extension;
use crate::strutil::str_concat;

verus! {

broadcast use vstd::string::group_string_axioms;

/// Request to save one quadlet file.
#[derive(Debug)]
pub struct SaveQuadletRequest {
    pub name: String,
    pub content: String,
}

/// Error payload of a failed quadlet request.
#[derive(Debug)]
pub struct ErrorResponse {
    pub error: String,
}

/// The index of the last occurrence of `c` in `s`, or -1 if `c` does
/// not occur.
pub open spec fn last_index_of(s: Seq<char>, c: char) -> int
    decreases s.len(),
{
    if s.len() == 0 {
        -1
    } else if s[s.len() - 1] == c {
        s.len() - 1
    } else {
        last_index_of(s.drop_last(), c)
    }
}

/// The final `/`-separated component of a file name.
pub open spec fn spec_component_of(name: Seq<char>) -> Seq<char> {
    suffix_after_last(name, '/')
}

/// The extension of a file name, without its dot: the text after the
/// last dot of the final component, provided that dot is not the
/// component's first character.
pub open spec fn spec_extension_of(name: Seq<char>) -> Option<Seq<char>> {
    let comp = spec_component_of(name);
    let k = last_index_of(comp, '.');
    if 0 < k < comp.len() {
        Option::Some(comp.subrange(k + 1, comp.len() as int))
    } else {
        Option::None
    }
}

/// The stem of a file name: the final component up to the dot that
/// starts its extension, or the whole component if it has none.
pub open spec fn spec_stem_of(name: Seq<char>) -> Seq<char> {
    let comp = spec_component_of(name);
    let k = last_index_of(comp, '.');
    if 0 < k < comp.len() {
        comp.subrange(0, k)
    } else {
        comp
    }
}

pub proof fn lemma_last_index_of_none(s: Seq<char>, c: char)
    requires
        forall|i: int| 0 <= i < s.len() ==> s[i] != c,
    ensures
        last_index_of(s, c) == -1,
    decreases s.len(),
{
    if s.len() > 0 {
        lemma_last_index_of_none(s.drop_last(), c);
    }
}

pub proof fn lemma_last_index_of_at(s: Seq<char>, c: char, j: int)
    requires
        0 <= j < s.len(),
        s[j] == c,
        forall|i: int| j < i < s.len() ==> s[i] != c,
    ensures
        last_index_of(s, c) == j,
    decreases s.len(),
{
    if j < s.len() - 1 {
        lemma_last_index_of_at(s.drop_last(), c, j);
    }
}

/// Why a save request is rejected.
#[derive(Debug)]
pub enum SaveError {
    /// The name is empty.
    EmptyName,
    /// The name carries no extension.
    MissingExtension,
    /// The extension (carried here with its dot) names no quadlet kind.
    UnknownExtension(String),
}

impl SaveError {
    /// The diagnostic text of this rejection.
    pub fn message(&self) -> (r: String)
        ensures
            *self is EmptyName ==> r@ == "Name cannot be empty"@,
            *self is MissingExtension ==> r@ == "Invalid file name: missing extension"@,
            self matches SaveError::UnknownExtension(e) ==> r@ == "Invalid quadlet extension: "@
                + e@,
    {
        match self {
            SaveError::EmptyName => "Name cannot be empty".to_owned(),
            SaveError::MissingExtension => "Invalid file name: missing extension".to_owned(),
            SaveError::UnknownExtension(e) => str_concat("Invalid quadlet extension: ", e.as_str()),
        }
    }
}

/// Locates the extension of `name`: the range after the last dot of the
/// final component, if that dot exists and is not the component's first
/// character. Returns the component start, and the dot position plus
/// one when an extension exists.
fn locate_extension(name: &str) -> (p: (usize, Option<usize>))
    ensures
        p.0 <= name@.len(),
        name@.subrange(p.0 as int, name@.len() as int) == spec_component_of(name@),
        match p.1 {
            Option::Some(k) => p.0 < k < name@.len() + 1 && spec_extension_of(name@)
                == Option::Some(name@.subrange(k as int, name@.len() as int))
                && spec_stem_of(name@) == name@.subrange(p.0 as int, k - 1),
            Option::None => spec_extension_of(name@) is None,
        },
{
    let n = name.unicode_len();
    let ghost view = name@;
    // start of the final '/'-separated component
    let mut cs = n;
    while cs > 0 && name.get_char(cs - 1) != '/'
        invariant
            view == name@,
            cs <= n == view.len(),
            forall|i: int| cs <= i < n ==> view[i] != '/',
        decreases cs,
    {
        cs -= 1;
    }
    proof {
        if cs == 0 {
            lemma_suffix_after_last_none(view, '/');
            assert(suffix_after_last(view, '/') =~= view.subrange(cs as int, n as int));
        } else {
            lemma_suffix_after_last_at(view, '/', cs - 1);
        }
    }
    let ghost comp = view.subrange(cs as int, n as int);
    // last dot of the component
    let mut k = n;
    while k > cs && name.get_char(k - 1) != '.'
        invariant
            view == name@,
            cs <= k <= n == view.len(),
            forall|i: int| k <= i < n ==> view[i] != '.',
        decreases k,
    {
        k -= 1;
    }
    proof {
        assert(forall|i: int| 0 <= i < comp.len() ==> comp[i] == view[cs + i]);
        if k == cs {
            lemma_last_index_of_none(comp, '.');
        } else {
            lemma_last_index_of_at(comp, '.', k - 1 - cs);
        }
    }
    if k - cs > 1 {
        proof {
            assert(comp.subrange(k - cs, comp.len() as int) =~= view.subrange(k as int, n as int));
            assert(comp.subrange(0, k - 1 - cs) =~= view.subrange(cs as int, k - 1));
        }
        (cs, Option::Some(k))
    } else {
        (cs, Option::None)
    }
}

/// Validates a save request's file name and derives the stem and the
/// quadlet kind it denotes. Rejections, in order: an empty name; a name
/// without an extension; an extension naming no quadlet kind. The
/// backend is only ever reached with a valid stem and kind.
pub fn validate_save_request(req: &SaveQuadletRequest) -> (r: Result<
    (String, QuadletType),
    SaveError,
>)
    ensures
        req.name@.len() == 0 <==> r == Result::<(String, QuadletType), SaveError>::Err(
            SaveError::EmptyName,
        ),
        req.name@.len() > 0 && spec_extension_of(req.name@) is None <==> r == Result::<
            (String, QuadletType),
            SaveError,
        >::Err(SaveError::MissingExtension),
        (req.name@.len() > 0 && spec_extension_of(req.name@) is Some && spec_from_extension(
            seq!['.'] + spec_extension_of(req.name@)->0,
        ) is None) <==> (r is Err && r->Err_0 is UnknownExtension),
        r is Err && r->Err_0 is UnknownExtension ==> (r->Err_0)->UnknownExtension_0@ == seq!['.']
            + spec_extension_of(req.name@)->0,
        r is Ok <==> req.name@.len() > 0 && spec_extension_of(req.name@) is Some
            && spec_from_extension(seq!['.'] + spec_extension_of(req.name@)->0) is Some,
        r is Ok ==> (r->Ok_0).0@ == spec_stem_of(req.name@) && Option::Some((r->Ok_0).1)
            == spec_from_extension(seq!['.'] + spec_extension_of(req.name@)->0),
{
    if req.name.as_str().is_empty() {
        return Result::Err(SaveError::EmptyName);
    }
    let name = req.name.as_str();
    let n = name.unicode_len();
    let p = locate_extension(name);
    let k = match p.1 {
        Option::Some(k) => k,
        Option::None => {
            return Result::Err(SaveError::MissingExtension);
        },
    };
    let dotted = str_concat(".", name.substring_char(k, n));
    proof {
        reveal_strlit(".");
        assert("."@ =~= seq!['.']);
    }
    match QuadletType::from_extension(dotted.as_str()) {
        Option::Some(kind) => {
            let stem = name.substring_char(p.0, k - 1).to_owned();
            Result::Ok((stem, kind))
        },
        Option::None => Result::Err(SaveError::UnknownExtension(dotted)),
    }
}

/// Classifies one directory entry of the quadlet directory: a file
/// whose extension names a quadlet kind becomes a quadlet record with
/// that kind, the file's stem, its content, and its path; any other
/// file is ignored.
pub fn classify_quadlet_file(path: String, content: String) -> (r: Option<Quadlet>)
    ensures
        r is Some <==> spec_extension_of(path@) is Some && spec_from_extension(
            seq!['.'] + spec_extension_of(path@)->0,
        ) is Some,
        r is Some ==> {
            let q = r->0;
            &&& q.name@ == spec_stem_of(path@)
            &&& Option::Some(q.kind) == spec_from_extension(seq!['.'] + spec_extension_of(path@)->0)
            &&& q.content == content
            &&& q.path == path
        },
{
    let name = path.as_str();
    let n = name.unicode_len();
    let p = locate_extension(name);
    let k = match p.1 {
        Option::Some(k) => k,
        Option::None => {
            return Option::None;
        },
    };
    let dotted = str_concat(".", name.substring_char(k, n));
    proof {
        reveal_strlit(".");
        assert("."@ =~= seq!['.']);
    }
    match QuadletType::from_extension(dotted.as_str()) {
        Option::Some(kind) => {
            let stem = name.substring_char(p.0, k - 1).to_owned();
            Option::Some(Quadlet::new(stem, kind, content, path))
        },
        Option::None => Option::None,
    }
}

} // verus!
