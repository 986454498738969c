//! Structured documents: the closed node-kind tree that raw source events
//! are decoded into, and path lookup over it. Lookup walks a path's
//! segments node by node and reports whether it found a value, missed only
//! the final segment, or failed earlier.

use vstd::prelude::*;

use crate::path::Path;

verus! {

/// One field of an object node: a name and the value under it.
#[derive(Debug, PartialEq, Eq)]
pub struct Field {
    pub name: String,
    pub value: Document,
}

/// A structured document node: object, array, scalar or null.
#[derive(Debug, PartialEq, Eq)]
pub enum Document {
    Null,
    Bool(bool),
    Int(i64),
    Text(String),
    Array(Vec<Document>),
    Object(Vec<Field>),
}

/// The value under the first field named `name`, if any.
pub open spec fn object_get(fields: Seq<Field>, name: Seq<char>) -> Option<Document>
    decreases fields.len(),
{
    if fields.len() == 0 {
        None
    } else if fields.first().name@ == name {
        Some(fields.first().value)
    } else {
        object_get(fields.drop_first(), name)
    }
}

/// Where a path lookup ended up.
pub enum Location {
    /// Every segment resolved; the located node follows.
    Found(Document),
    /// Every segment but the last resolved to an object; the last named no
    /// field of its container.
    MissingFinal,
    /// Some earlier segment named no field, or some container on the way
    /// (the root included) was not an object.
    MissingIntermediate,
}

/// Walks `segs[i..]` into `doc`, segment by segment.
pub open spec fn locate_from(doc: Document, segs: Seq<Seq<char>>, i: int) -> Location
    decreases segs.len() - i,
{
    if i >= segs.len() {
        Location::Found(doc)
    } else {
        match doc {
            Document::Object(fields) => match object_get(fields@, segs[i]) {
                Some(d) => locate_from(d, segs, i + 1),
                None => if i == segs.len() - 1 {
                    Location::MissingFinal
                } else {
                    Location::MissingIntermediate
                },
            },
            _ => Location::MissingIntermediate,
        }
    }
}

/// Where looking `segs` up in `doc` ends up.
pub open spec fn locate_spec(doc: Document, segs: Seq<Seq<char>>) -> Location {
    locate_from(doc, segs, 0)
}

/// Result of an executable path lookup, borrowing the located node.
#[derive(Debug)]
pub enum Located<'a> {
    Found(&'a Document),
    MissingFinal,
    MissingIntermediate,
}

impl<'a> View for Located<'a> {
    type V = Location;

    open spec fn view(&self) -> Location {
        match self {
            Located::Found(d) => Location::Found(**d),
            Located::MissingFinal => Location::MissingFinal,
            Located::MissingIntermediate => Location::MissingIntermediate,
        }
    }
}

/// The value under the first field named `name`, by linear scan.
fn object_find<'a>(fields: &'a Vec<Field>, name: &String) -> (r: Option<&'a Document>)
    ensures
        match r {
            Some(d) => object_get(fields@, name@) == Some(*d),
            None => object_get(fields@, name@) is None,
        },
{
    let mut j: usize = 0;
    proof {
        assert(fields@.skip(0) =~= fields@);
    }
    while j < fields.len()
        invariant
            0 <= j <= fields@.len(),
            object_get(fields@.skip(j as int), name@) == object_get(fields@, name@),
        decreases fields@.len() - j,
    {
        proof {
            assert(fields@.skip(j as int).first() == fields@[j as int]);
            assert(fields@.skip(j as int).drop_first() =~= fields@.skip(j + 1));
        }
        if fields[j].name.eq(name) {
            return Some(&fields[j].value);
        }
        j = j + 1;
    }
    proof {
        assert(fields@.skip(fields@.len() as int) =~= Seq::<Field>::empty());
    }
    None
}

/// Walks `path` into `doc`, short-circuiting at the first segment that
/// does not resolve.
pub fn locate<'a>(doc: &'a Document, path: &Path) -> (r: Located<'a>)
    ensures
        r@ == locate_spec(*doc, path@),
{
    let n = path.len();
    let mut cur: &'a Document = doc;
    let mut i: usize = 0;
    while i < n
        invariant
            0 <= i <= n,
            n == path@.len(),
            locate_from(*cur, path@, i as int) == locate_from(*doc, path@, 0),
        decreases n - i,
    {
        match cur {
            Document::Object(fields) => match object_find(fields, path.segment(i)) {
                Some(d) => {
                    cur = d;
                    i = i + 1;
                },
                None => {
                    if i == n - 1 {
                        return Located::MissingFinal;
                    } else {
                        return Located::MissingIntermediate;
                    }
                },
            },
            _ => {
                return Located::MissingIntermediate;
            },
        }
    }
    Located::Found(cur)
}

} // verus!
