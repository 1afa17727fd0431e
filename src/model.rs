use vstd::prelude::*;

verus! {

/// A district inside a region, as the served documents describe it.
#[derive(Debug)]
pub struct District {
    pub id: u32,
    pub name: String,
}

/// A region with its districts in order, as the served documents describe it.
/// The service relays the documents as they are and never builds these.
#[derive(Debug)]
pub struct Region {
    pub id: u32,
    pub name: String,
    pub districts: Vec<District>,
}

} // verus!
