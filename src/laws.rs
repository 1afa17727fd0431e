use vstd::prelude::*;
use vstd::utf8::*;

use crate::reply::{
    document_reply, error_reply, json_content_type, reply_of, ServiceError, STATUS_INTERNAL_ERROR,
    STATUS_NOT_FOUND, STATUS_OK,
};
use crate::routing::{route_of, Config, Route};

verus! {

/// What reading a route's file gives on a disk that maps file names to their
/// bytes: the bytes where the file is there, `None` where it is not.
pub open spec fn read_on_disk(c: Config, route: Route, disk: Map<Seq<char>, Seq<u8>>) -> Option<
    Seq<u8>,
> {
    match c.file_of(route) {
        Some(p) => if disk.contains_key(p) {
            Some(disk[p])
        } else {
            None
        },
        None => None,
    }
}

/// The reply to a request with the given method and path, served from `disk`.
pub open spec fn reply_on_disk(
    c: Config,
    method: Seq<char>,
    path: Seq<char>,
    disk: Map<Seq<char>, Seq<u8>>,
) -> crate::reply::ReplyView {
    let route = route_of(method, path);
    reply_of(route, read_on_disk(c, route, disk))
}

proof fn lemma_document_paths_differ()
    ensures
        "/uz_Uz"@ != "/uz_Kr"@,
{
    reveal_strlit("/uz_Uz");
    reveal_strlit("/uz_Kr");
    assert("/uz_Uz"@[4] != "/uz_Kr"@[4]);
}

/// `GET /uz_Uz` reads the Latin-script file, and where that file holds
/// well-formed UTF-8 it is served with status 200, the JSON content type and
/// exactly its bytes as body.
pub proof fn lemma_uz_uz_serves_its_file(c: Config, disk: Map<Seq<char>, Seq<u8>>)
    requires
        disk.contains_key(c.uz_uz_file@),
        valid_utf8(disk[c.uz_uz_file@]),
    ensures
        route_of("GET"@, "/uz_Uz"@) == Route::UzUz,
        reply_on_disk(c, "GET"@, "/uz_Uz"@, disk).status == STATUS_OK,
        reply_on_disk(c, "GET"@, "/uz_Uz"@, disk).content_type == Some(json_content_type()),
        reply_on_disk(c, "GET"@, "/uz_Uz"@, disk).body == disk[c.uz_uz_file@],
{
}

/// `GET /uz_Kr` reads the Cyrillic-script file, and where that file holds
/// well-formed UTF-8 it is served with status 200, the JSON content type and
/// exactly its bytes as body.
pub proof fn lemma_uz_kr_serves_its_file(c: Config, disk: Map<Seq<char>, Seq<u8>>)
    requires
        disk.contains_key(c.uz_kr_file@),
        valid_utf8(disk[c.uz_kr_file@]),
    ensures
        route_of("GET"@, "/uz_Kr"@) == Route::UzKr,
        reply_on_disk(c, "GET"@, "/uz_Kr"@, disk).status == STATUS_OK,
        reply_on_disk(c, "GET"@, "/uz_Kr"@, disk).content_type == Some(json_content_type()),
        reply_on_disk(c, "GET"@, "/uz_Kr"@, disk).body == disk[c.uz_kr_file@],
{
    lemma_document_paths_differ();
}

/// A document route whose file cannot be read replies 500 with
/// "Failed to open file", and the other document route replies as it would
/// whatever that missing file held: the two routes fail independently.
pub proof fn lemma_unreadable_file_is_isolated(
    c: Config,
    disk: Map<Seq<char>, Seq<u8>>,
    content: Seq<u8>,
)
    requires
        c.uz_uz_file@ != c.uz_kr_file@,
    ensures
        !disk.contains_key(c.uz_uz_file@) ==> reply_on_disk(c, "GET"@, "/uz_Uz"@, disk)
            == error_reply(ServiceError::Read),
        !disk.contains_key(c.uz_kr_file@) ==> reply_on_disk(c, "GET"@, "/uz_Kr"@, disk)
            == error_reply(ServiceError::Read),
        reply_on_disk(c, "GET"@, "/uz_Kr"@, disk) == reply_on_disk(
            c,
            "GET"@,
            "/uz_Kr"@,
            disk.insert(c.uz_uz_file@, content),
        ),
        reply_on_disk(c, "GET"@, "/uz_Uz"@, disk) == reply_on_disk(
            c,
            "GET"@,
            "/uz_Uz"@,
            disk.insert(c.uz_kr_file@, content),
        ),
        error_reply(ServiceError::Read).status == STATUS_INTERNAL_ERROR,
        error_reply(ServiceError::Read).body == encode_utf8("Failed to open file"@),
{
    lemma_document_paths_differ();
}

/// A document route whose file holds bytes that are not well-formed UTF-8
/// replies 500 with "Failed to parse UTF-8".
pub proof fn lemma_malformed_file_fails(route: Route, bytes: Seq<u8>)
    requires
        route != Route::NotFound,
        !valid_utf8(bytes),
    ensures
        reply_of(route, Some(bytes)) == error_reply(ServiceError::Encoding),
        error_reply(ServiceError::Encoding).status == STATUS_INTERNAL_ERROR,
        error_reply(ServiceError::Encoding).body == encode_utf8("Failed to parse UTF-8"@),
{
}

/// Every method and path other than `GET /uz_Uz` and `GET /uz_Kr` gets 404
/// with "Not Found", whatever is on disk.
pub proof fn lemma_other_requests_not_found(
    c: Config,
    method: Seq<char>,
    path: Seq<char>,
    disk: Map<Seq<char>, Seq<u8>>,
)
    requires
        !(method == "GET"@ && (path == "/uz_Uz"@ || path == "/uz_Kr"@)),
    ensures
        reply_on_disk(c, method, path, disk) == error_reply(ServiceError::RouteNotFound),
        error_reply(ServiceError::RouteNotFound).status == STATUS_NOT_FOUND,
        error_reply(ServiceError::RouteNotFound).body == encode_utf8("Not Found"@),
{
}

/// A reply depends on the request's method and path and on the content of the
/// route's own file alone: while that file stays as it is, the same request
/// gets the same reply each time, whatever else is on disk.
pub proof fn lemma_repeated_request_same_reply(
    c: Config,
    method: Seq<char>,
    path: Seq<char>,
    first: Map<Seq<char>, Seq<u8>>,
    second: Map<Seq<char>, Seq<u8>>,
)
    requires
        forall|p: Seq<char>|
            c.file_of(route_of(method, path)) == Some(p) ==> (first.contains_key(p)
                <==> second.contains_key(p)) && (first.contains_key(p) ==> first[p] == second[p]),
    ensures
        reply_on_disk(c, method, path, first) == reply_on_disk(c, method, path, second),
{
}

} // verus!
