//! The paths by which the bridge names what it has changed.

use vstd::prelude::*;
use vstd::string::StrSliceExecFns;

use crate::success::ParseError;
use crate::text::decimal;
use crate::text::lemma_split_joined;
use crate::text::lemma_split_nonempty;
use crate::text::lemma_split_without_sep;
use crate::text::parse_usize;
use crate::text::read_usize;
use crate::text::same_text;
use crate::text::split;
use crate::text::split_at_char;
use crate::value::views;

verus! {

/// The collections of the bridge whose changes are read.
#[derive(Debug, Clone, Copy, PartialEq, Eq, Structural)]
pub enum Collection {
    Lights,
    Groups,
}

/// The collection that a segment of a path names.
pub open spec fn collection_of(name: Seq<char>) -> Option<Collection> {
    if name == "lights"@ {
        Some(Collection::Lights)
    } else if name == "groups"@ {
        Some(Collection::Groups)
    } else {
        None
    }
}

/// A path of the bridge, taken apart: `/<collection>/<id>/<rest...>`.
#[derive(Debug, PartialEq)]
pub struct ResourcePath {
    /// The collection that the resource is in.
    pub collection: Collection,
    /// The id of the resource.
    pub id: usize,
    /// The segments after the id.
    pub rest: Vec<String>,
}

/// A `ResourcePath` as a mathematical value.
pub struct ResourcePathView {
    pub collection: Collection,
    pub id: usize,
    pub rest: Seq<Seq<char>>,
}

impl View for ResourcePath {
    type V = ResourcePathView;

    open spec fn view(&self) -> ResourcePathView {
        ResourcePathView { collection: self.collection, id: self.id, rest: views(self.rest@) }
    }
}

/// A path taken apart. The path is split at its slashes. The first segment
/// must be empty, there must be four segments or more, the second must name
/// a collection and the third must write a number. The segments from the
/// fourth on are the rest.
pub open spec fn resource_path(path: Seq<char>) -> Result<ResourcePathView, ParseError> {
    let segments = split(path, '/');
    if segments[0].len() != 0 {
        Err(ParseError::NotAbsolute)
    } else if segments.len() < 4 {
        Err(ParseError::TooShort)
    } else if collection_of(segments[1]) is None {
        Err(ParseError::UnknownCollection)
    } else if parse_usize(segments[2]) is None {
        Err(ParseError::InvalidId)
    } else {
        Ok(
            ResourcePathView {
                collection: collection_of(segments[1])->0,
                id: parse_usize(segments[2])->0,
                rest: segments.skip(3),
            },
        )
    }
}

/// Takes a path of the bridge apart.
pub fn parse_path(path: &str) -> (r: Result<ResourcePath, ParseError>)
    ensures
        match resource_path(path@) {
            Ok(p) => r matches Ok(q) && q@ == p,
            Err(e) => r == Err::<ResourcePath, ParseError>(e),
        },
{
    let mut segments = split_at_char(path, '/');
    proof {
        lemma_split_nonempty(path@, '/');
    }
    if segments[0].as_str().unicode_len() != 0 {
        return Err(ParseError::NotAbsolute);
    }
    if segments.len() < 4 {
        return Err(ParseError::TooShort);
    }
    let collection = if same_text(segments[1].as_str(), "lights") {
        Collection::Lights
    } else if same_text(segments[1].as_str(), "groups") {
        Collection::Groups
    } else {
        return Err(ParseError::UnknownCollection);
    };
    let id = match read_usize(segments[2].as_str()) {
        Some(id) => id,
        None => {
            return Err(ParseError::InvalidId);
        },
    };
    let rest = segments.split_off(3);
    assert(views(rest@) =~= split(path@, '/').skip(3));
    Ok(ResourcePath { collection, id, rest })
}

/// The path of a field of the state of the light `id`.
pub open spec fn light_state_path(id: usize, field: Seq<char>) -> Seq<char> {
    "/lights/"@ + decimal(id as nat) + "/state/"@ + field
}

/// The path of the name of the light `id`.
pub open spec fn light_name_path(id: usize) -> Seq<char> {
    "/lights/"@ + decimal(id as nat) + "/name"@
}

/// The path of a field of the state of the lights of the group `id`.
pub open spec fn group_action_path(id: usize, field: Seq<char>) -> Seq<char> {
    "/groups/"@ + decimal(id as nat) + "/action/"@ + field
}

/// The path of an attribute of the group `id`.
pub open spec fn group_attrib_path(id: usize, field: Seq<char>) -> Seq<char> {
    "/groups/"@ + decimal(id as nat) + "/"@ + field
}

/// Four strings without a slash, with a slash before each, split into an
/// empty piece and the four.
pub proof fn lemma_split_four(a: Seq<char>, b: Seq<char>, c: Seq<char>, d: Seq<char>)
    requires
        !a.contains('/'),
        !b.contains('/'),
        !c.contains('/'),
        !d.contains('/'),
    ensures
        split(
            Seq::<char>::empty().push('/') + (a.push('/') + (b.push('/') + (c.push('/') + d))),
            '/',
        ) == seq![Seq::<char>::empty(), a, b, c, d],
{
    let empty = Seq::<char>::empty();
    let tail_c = c.push('/') + d;
    let tail_b = b.push('/') + tail_c;
    let tail_a = a.push('/') + tail_b;
    lemma_split_without_sep(a, '/');
    lemma_split_without_sep(b, '/');
    lemma_split_without_sep(c, '/');
    lemma_split_without_sep(d, '/');
    lemma_split_joined(c, d, '/');
    lemma_split_joined(b, tail_c, '/');
    lemma_split_joined(a, tail_b, '/');
    lemma_split_joined(empty, tail_a, '/');
}

/// Three strings without a slash, with a slash before each, split into an
/// empty piece and the three.
pub proof fn lemma_split_three(a: Seq<char>, b: Seq<char>, c: Seq<char>)
    requires
        !a.contains('/'),
        !b.contains('/'),
        !c.contains('/'),
    ensures
        split(Seq::<char>::empty().push('/') + (a.push('/') + (b.push('/') + c)), '/') == seq![
            Seq::<char>::empty(),
            a,
            b,
            c,
        ],
{
    let empty = Seq::<char>::empty();
    let tail_b = b.push('/') + c;
    let tail_a = a.push('/') + tail_b;
    lemma_split_without_sep(a, '/');
    lemma_split_without_sep(b, '/');
    lemma_split_without_sep(c, '/');
    lemma_split_joined(b, c, '/');
    lemma_split_joined(a, tail_b, '/');
    lemma_split_joined(empty, tail_a, '/');
}

} // verus!
