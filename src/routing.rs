use vstd::prelude::*;
use vstd::utf8::*;

verus! {

/// Where a request goes: one of the two documents, or nowhere.
#[derive(Clone, Copy, Debug, PartialEq, Eq, Structural)]
pub enum Route {
    /// `GET /uz_Uz`: the document in Uzbek, Latin script.
    UzUz,
    /// `GET /uz_Kr`: the document in Uzbek, Cyrillic script.
    UzKr,
    /// Any other method or path.
    NotFound,
}

/// The route of a request, by exact match on its method and path.
pub open spec fn route_of(method: Seq<char>, path: Seq<char>) -> Route {
    if method == "GET"@ && path == "/uz_Uz"@ {
        Route::UzUz
    } else if method == "GET"@ && path == "/uz_Kr"@ {
        Route::UzKr
    } else {
        Route::NotFound
    }
}

/// Compares two strings character for character, by their UTF-8 bytes.
fn same_text(a: &str, b: &str) -> (r: bool)
    ensures
        r == (a@ == b@),
{
    let x = a.as_bytes();
    let y = b.as_bytes();
    proof {
        encode_utf8_decode_utf8(a@);
        encode_utf8_decode_utf8(b@);
    }
    if x.len() != y.len() {
        return false;
    }
    let mut i: usize = 0;
    while i < x.len()
        invariant
            x@ == encode_utf8(a@),
            y@ == encode_utf8(b@),
            x@.len() == y@.len(),
            0 <= i <= x@.len(),
            forall|k: int| 0 <= k < i ==> x@[k] == y@[k],
        decreases x@.len() - i,
    {
        if x[i] != y[i] {
            assert(x@[i as int] != y@[i as int]);
            return false;
        }
        i = i + 1;
    }
    assert(x@ =~= y@);
    true
}

/// Picks the route of a request from its method and path. Matching is exact:
/// no case folding, no trailing-slash or query handling.
pub fn route(method: &str, path: &str) -> (r: Route)
    ensures
        r == route_of(method@, path@),
{
    if same_text(method, "GET") {
        if same_text(path, "/uz_Uz") {
            return Route::UzUz;
        }
        if same_text(path, "/uz_Kr") {
            return Route::UzKr;
        }
    }
    Route::NotFound
}

/// The file that backs each document route, relative to the working directory.
pub struct Config {
    pub uz_uz_file: String,
    pub uz_kr_file: String,
}

impl Config {
    /// The files the service is built to serve.
    pub fn fixed() -> (c: Config)
        ensures
            c.uz_uz_file@ == "regions_uz_Uz.json"@,
            c.uz_kr_file@ == "regions_uz_Kr.json"@,
    {
        Config {
            uz_uz_file: String::from_str("regions_uz_Uz.json"),
            uz_kr_file: String::from_str("regions_uz_Kr.json"),
        }
    }

    /// The file that a route reads, if any.
    pub open spec fn file_of(&self, route: Route) -> Option<Seq<char>> {
        match route {
            Route::UzUz => Some(self.uz_uz_file@),
            Route::UzKr => Some(self.uz_kr_file@),
            Route::NotFound => None,
        }
    }

    /// The path of the file to read for a route; `None` where the route reads
    /// no file.
    pub fn file_for(&self, route: Route) -> (r: Option<String>)
        ensures
            r.is_some() == self.file_of(route).is_some(),
            r matches Some(p) ==> self.file_of(route) == Some(p@),
    {
        match route {
            Route::UzUz => Some(self.uz_uz_file.clone()),
            Route::UzKr => Some(self.uz_kr_file.clone()),
            Route::NotFound => None,
        }
    }
}

} // verus!
