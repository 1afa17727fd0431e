use uz_regions::{file_reply, not_found, respond, route, Config, District, Region, Reply, Route, ServiceError};

const JSON: &str = "application/json; charset=utf-8";

fn assert_document(r: &Reply, bytes: &[u8]) {
    assert_eq!(r.status, 200);
    assert_eq!(r.content_type.as_deref(), Some(JSON));
    assert_eq!(r.body.as_bytes(), bytes);
}

fn assert_plain(r: &Reply, status: u16, body: &str) {
    assert_eq!(r.status, status);
    assert_eq!(r.content_type, None);
    assert_eq!(r.body, body);
}

#[test]
fn routes_the_two_documents() {
    assert_eq!(route("GET", "/uz_Uz"), Route::UzUz);
    assert_eq!(route("GET", "/uz_Kr"), Route::UzKr);
}

#[test]
fn routes_everything_else_nowhere() {
    assert_eq!(route("POST", "/uz_Uz"), Route::NotFound);
    assert_eq!(route("GET", "/other"), Route::NotFound);
    assert_eq!(route("GET", "/"), Route::NotFound);
    assert_eq!(route("GET", "/uz_uz"), Route::NotFound);
    assert_eq!(route("get", "/uz_Uz"), Route::NotFound);
    assert_eq!(route("GET", "/uz_Uz/"), Route::NotFound);
    assert_eq!(route("GET", "/uz_Kr?x=1"), Route::NotFound);
    assert_eq!(route("GET", ""), Route::NotFound);
    assert_eq!(route("", ""), Route::NotFound);
    assert_eq!(route("DELETE", "/uz_Kr"), Route::NotFound);
}

#[test]
fn fixed_config_names_the_two_files() {
    let c = Config::fixed();
    assert_eq!(c.uz_uz_file, "regions_uz_Uz.json");
    assert_eq!(c.uz_kr_file, "regions_uz_Kr.json");
    assert_eq!(c.file_for(Route::UzUz).as_deref(), Some("regions_uz_Uz.json"));
    assert_eq!(c.file_for(Route::UzKr).as_deref(), Some("regions_uz_Kr.json"));
    assert_eq!(c.file_for(Route::NotFound), None);
}

#[test]
fn config_paths_can_be_substituted() {
    let c = Config { uz_uz_file: "a.json".to_string(), uz_kr_file: "b.json".to_string() };
    assert_eq!(c.file_for(Route::UzUz).as_deref(), Some("a.json"));
    assert_eq!(c.file_for(Route::UzKr).as_deref(), Some("b.json"));
}

#[test]
fn serves_ascii_document_verbatim() {
    let bytes = br#"[{"id":1,"name":"Toshkent","districts":[]}]"#.to_vec();
    let r = file_reply(Some(bytes.clone()));
    assert_document(&r, &bytes);
}

#[test]
fn serves_cyrillic_document_verbatim() {
    let text = "[{\"id\":1,\"name\":\"Тошкент\",\"districts\":[{\"id\":2,\"name\":\"Чилонзор\"}]}]\n";
    let bytes = text.as_bytes().to_vec();
    let r = respond(Route::UzKr, Some(bytes.clone()));
    assert_document(&r, &bytes);
    assert_eq!(r.body, text);
}

#[test]
fn serves_four_byte_characters_verbatim() {
    let bytes = "\"😀 ✓ é\"".as_bytes().to_vec();
    let r = respond(Route::UzUz, Some(bytes.clone()));
    assert_document(&r, &bytes);
}

#[test]
fn serves_empty_file() {
    let r = file_reply(Some(Vec::new()));
    assert_document(&r, b"");
}

#[test]
fn serves_json_without_validating_it() {
    let bytes = b"not json at all {".to_vec();
    let r = respond(Route::UzUz, Some(bytes.clone()));
    assert_document(&r, &bytes);
}

#[test]
fn unreadable_file_fails_to_open() {
    assert_plain(&file_reply(None), 500, "Failed to open file");
    assert_plain(&respond(Route::UzUz, None), 500, "Failed to open file");
    assert_plain(&respond(Route::UzKr, None), 500, "Failed to open file");
}

#[test]
fn unreadable_file_leaves_other_route_alone() {
    let kr = b"[]".to_vec();
    assert_plain(&respond(Route::UzUz, None), 500, "Failed to open file");
    assert_document(&respond(Route::UzKr, Some(kr.clone())), &kr);
}

#[test]
fn invalid_utf8_fails_to_parse() {
    let cases: Vec<Vec<u8>> = vec![
        vec![0xff],
        vec![b'[', 0xfe, b']'],
        vec![0xc0, 0x80],
        vec![0xed, 0xa0, 0x80],
        vec![0xf4, 0x90, 0x80, 0x80],
        vec![0xe2, 0x82],
        vec![0x80],
    ];
    for bytes in cases {
        assert_plain(&respond(Route::UzUz, Some(bytes.clone())), 500, "Failed to parse UTF-8");
        assert_plain(&file_reply(Some(bytes)), 500, "Failed to parse UTF-8");
    }
}

#[test]
fn other_requests_get_not_found() {
    assert_plain(&not_found(), 404, "Not Found");
    assert_plain(&respond(Route::NotFound, None), 404, "Not Found");
    assert_plain(&respond(Route::NotFound, Some(b"[]".to_vec())), 404, "Not Found");
    assert_plain(&respond(route("POST", "/uz_Uz"), Some(b"[]".to_vec())), 404, "Not Found");
    assert_plain(&respond(route("GET", "/"), None), 404, "Not Found");
}

#[test]
fn repeated_requests_get_identical_replies() {
    let bytes = "{\"id\":7,\"name\":\"Xorazm\"}".as_bytes().to_vec();
    let first = respond(route("GET", "/uz_Uz"), Some(bytes.clone()));
    for _ in 0..50 {
        let again = respond(route("GET", "/uz_Uz"), Some(bytes.clone()));
        assert_eq!(again.status, first.status);
        assert_eq!(again.content_type, first.content_type);
        assert_eq!(again.body, first.body);
    }
    assert_document(&first, &bytes);
}

#[test]
fn errors_have_fixed_status_and_message() {
    assert_eq!(ServiceError::Read.status(), 500);
    assert_eq!(ServiceError::Read.message(), "Failed to open file");
    assert_eq!(ServiceError::Encoding.status(), 500);
    assert_eq!(ServiceError::Encoding.message(), "Failed to parse UTF-8");
    assert_eq!(ServiceError::RouteNotFound.status(), 404);
    assert_eq!(ServiceError::RouteNotFound.message(), "Not Found");
    assert_plain(&Reply::from_error(ServiceError::Encoding), 500, "Failed to parse UTF-8");
}

#[test]
fn document_reply_carries_json_type() {
    let r = Reply::document("[1,2]".to_string());
    assert_document(&r, b"[1,2]");
}

#[test]
fn region_shape_holds_districts_in_order() {
    let r = Region {
        id: 1,
        name: "Samarqand".to_string(),
        districts: vec![
            District { id: 10, name: "Urgut".to_string() },
            District { id: 11, name: "Kattaqo'rg'on".to_string() },
        ],
    };
    assert_eq!(r.districts.len(), 2);
    assert_eq!(r.districts[0].id, 10);
    assert_eq!(r.districts[1].name, "Kattaqo'rg'on");
}
