//! Markers: the attributes that say which items are exported and how. They
//! reach the generator as `doc = "<sentinel>"` attributes, since live
//! attributes do not survive macro expansion.
use vstd::prelude::*;
use crate::error::ParseError;
use crate::ty::str_eq;

verus! {

#[derive(Clone, Copy, Debug, PartialEq, Eq, Structural)]
pub enum Marker {
    /// The item is exported.
    DenoBindgen,
    /// The function is called through the asynchronous calling convention.
    NonBlocking,
    /// The associated function constructs its type.
    Constructor,
}

pub open spec fn sentinel(m: Marker) -> Seq<char> {
    match m {
        Marker::DenoBindgen => "deno_bindgen"@,
        Marker::NonBlocking => "deno_bindgen_non_blocking"@,
        Marker::Constructor => "deno_bindgen_constructor"@,
    }
}

impl Marker {
    /// The persisted form of this marker.
    pub fn sentinel(&self) -> (r: &'static str)
        ensures
            r@ == sentinel(*self),
    {
        match self {
            Marker::DenoBindgen => "deno_bindgen",
            Marker::NonBlocking => "deno_bindgen_non_blocking",
            Marker::Constructor => "deno_bindgen_constructor",
        }
    }

    /// The marker whose sentinel is `value`; an unknown sentinel is an error.
    pub fn try_from_sentinel(value: &str) -> (r: Result<Marker, ParseError>)
        ensures
            r matches Ok(m) ==> sentinel(m) == value@,
            r is Err <==> (forall|m: Marker| sentinel(m) != value@),
            r matches Err(e) ==> e == ParseError::UnknownMarker,
    {
        if str_eq(value, Marker::DenoBindgen.sentinel()) {
            Ok(Marker::DenoBindgen)
        } else if str_eq(value, Marker::NonBlocking.sentinel()) {
            Ok(Marker::NonBlocking)
        } else if str_eq(value, Marker::Constructor.sentinel()) {
            Ok(Marker::Constructor)
        } else {
            proof {
                assert forall|m: Marker| sentinel(m) != value@ by {
                    match m {
                        Marker::DenoBindgen => {},
                        Marker::NonBlocking => {},
                        Marker::Constructor => {},
                    }
                }
            }
            Err(ParseError::UnknownMarker)
        }
    }
}

/// A `doc = "value"` attribute.
#[derive(Clone, Debug, PartialEq, Eq)]
pub struct Meta {
    pub lit_str: String,
}

/// The markers and the other documentation attributes of an item.
#[derive(Clone, Debug, PartialEq, Eq)]
pub struct Attribute {
    pub markers: Vec<Marker>,
    pub meta: Vec<Meta>,
}

impl Attribute {
    pub fn new() -> (r: Self)
        ensures
            r.markers@.len() == 0,
            r.meta@.len() == 0,
    {
        Attribute { markers: Vec::new(), meta: Vec::new() }
    }

    pub open spec fn has(&self, m: Marker) -> bool {
        self.markers@.contains(m)
    }

    fn has_marker(&self, m: Marker) -> (r: bool)
        ensures
            r == self.has(m),
    {
        let mut i: usize = 0;
        while i < self.markers.len()
            invariant
                i <= self.markers.len(),
                forall|j: int| 0 <= j < i ==> self.markers@[j] != m,
            decreases self.markers.len() - i,
        {
            if self.markers[i] == m {
                return true;
            }
            i = i + 1;
        }
        false
    }

    /// Whether the item carries the export marker.
    pub fn has_deno_bindgen(&self) -> (r: bool)
        ensures
            r == self.has(Marker::DenoBindgen),
    {
        self.has_marker(Marker::DenoBindgen)
    }

    /// Whether the function carries the non-blocking marker.
    pub fn has_non_blocking(&self) -> (r: bool)
        ensures
            r == self.has(Marker::NonBlocking),
    {
        self.has_marker(Marker::NonBlocking)
    }

    /// Whether the function carries the constructor marker.
    pub fn has_constructor(&self) -> (r: bool)
        ensures
            r == self.has(Marker::Constructor),
    {
        self.has_marker(Marker::Constructor)
    }
}

impl Default for Attribute {
    fn default() -> (r: Self)
        ensures
            r.markers@.len() == 0,
            r.meta@.len() == 0,
    {
        Attribute::new()
    }
}

} // verus!
