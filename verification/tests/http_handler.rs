use storage_router::backend::{BackendReply, BackendRequest, Pending, Step};
use storage_router::dynamodb::{
    delete_by_id, delete_item, get_item_query, put_item, query_by_id, scan_all, upsert,
    AttributeValue, Item,
};
use storage_router::http_handler::{
    add_cors_headers, body_object, complete, delete_url, download_url, entity_save,
    function_handler, json_response, list_prefix, object_key, object_list, path_entity,
    preflight, record_delete, record_lookup, record_write, refusal, route, scope, status_code,
    text_response, upload_key, upload_url, write_listing, Route,
};
use storage_router::message::{insert_header, Body, Environment, Request, Response};
use storage_router::s3::{
    list_objects_request, presign_delete, presign_download, presign_upload,
};

fn env() -> Environment {
    Environment { s3_bucket: Some("bucket".to_string()), s3_path: Some("base/".to_string()) }
}

fn bare_env() -> Environment {
    Environment { s3_bucket: Some("bucket".to_string()), s3_path: None }
}

fn request(method: &str, path: &str, query: Option<&str>, body: Body) -> Request {
    Request {
        method: method.to_string(),
        path: path.to_string(),
        query: query.map(|q| q.to_string()),
        body,
    }
}

fn get(path: &str, query: Option<&str>) -> Request {
    request("GET", path, query, Body::Empty)
}

fn cors() -> Vec<(String, String)> {
    vec![
        ("Access-Control-Allow-Origin".to_string(), "*".to_string()),
        ("Access-Control-Allow-Methods".to_string(), "GET,POST,DELETE,OPTIONS".to_string()),
        ("Access-Control-Allow-Headers".to_string(), "Content-Type,Authorization".to_string()),
    ]
}

fn text(status: u16, body: &str) -> Response {
    Response { status, headers: cors(), body: Body::Text(body.to_string()) }
}

fn json(status: u16, body: &str) -> Response {
    let mut headers =
        vec![("content-type".to_string(), "application/json; charset=utf-8".to_string())];
    headers.extend(cors());
    Response { status, headers, body: Body::Text(body.to_string()) }
}

fn responds(step: Step) -> Response {
    match step {
        Step::Respond(response) => response,
        Step::Call { .. } => panic!("a backend call where a response was expected"),
    }
}

fn s(name: &str, value: &str) -> (String, AttributeValue) {
    (name.to_string(), AttributeValue::S(value.to_string()))
}

#[test]
fn options_on_any_path_is_a_preflight() {
    let expected = Response { status: 200, headers: cors(), body: Body::Empty };
    for path in ["/", "/helloWorld", "/dynamodb/item", "/api/s3/list", "/nope", ""] {
        let req = request("OPTIONS", path, Some("part=&idx=x"), Body::Text("{".to_string()));
        assert_eq!(responds(function_handler(req, &env())), expected);
    }
    assert_eq!(preflight(), expected);
}

#[test]
fn options_needs_no_bucket() {
    let none = Environment { s3_bucket: None, s3_path: None };
    let step = function_handler(request("OPTIONS", "/x", None, Body::Empty), &none);
    assert_eq!(responds(step), Response { status: 200, headers: cors(), body: Body::Empty });
}

#[test]
fn unrecognized_path_is_not_found() {
    assert_eq!(responds(function_handler(get("/nope", None), &env())), text(404, "not found: GET /nope"));
    let put = request("PUT", "/dynamodb/item", None, Body::Empty);
    assert_eq!(responds(function_handler(put, &env())), text(404, "not found: PUT /dynamodb/item"));
    let post = request("POST", "/helloWorld", None, Body::Empty);
    assert_eq!(responds(function_handler(post, &env())), text(404, "not found: POST /helloWorld"));
    assert_eq!(responds(function_handler(get("/dynamodb/", None), &env())), text(404, "not found: GET /dynamodb/"));
    assert_eq!(responds(function_handler(get("/dynamodb/a/b", None), &env())), text(404, "not found: GET /dynamodb/a/b"));
    assert_eq!(responds(function_handler(get("/helloworld", None), &env())), text(404, "not found: GET /helloworld"));
    let lower = request("get", "/helloWorld", None, Body::Empty);
    assert_eq!(responds(function_handler(lower, &env())), text(404, "not found: get /helloWorld"));
}

#[test]
fn hello_world_is_ok() {
    assert_eq!(responds(function_handler(get("/helloWorld", None), &env())), text(200, "OK"));
}

#[test]
fn item_get_with_an_empty_part_is_refused() {
    let step = function_handler(get("/dynamodb/item", Some("part=&idx=x")), &env());
    assert_eq!(responds(step), text(400, "part is required"));
}

#[test]
fn item_get_checks_part_before_idx() {
    assert_eq!(responds(function_handler(get("/dynamodb/item", None), &env())), text(400, "part is required"));
    assert_eq!(responds(function_handler(get("/dynamodb/item", Some("idx=")), &env())), text(400, "part is required"));
    assert_eq!(responds(function_handler(get("/dynamodb/item", Some("part=p")), &env())), text(400, "idx is required"));
    assert_eq!(responds(function_handler(get("/dynamodb/item", Some("part=p&idx=")), &env())), text(400, "idx is required"));
}

#[test]
fn item_get_asks_the_record_table() {
    let step = function_handler(get("/dynamodb/item", Some("part=p%20q&idx=i")), &env());
    assert_eq!(
        step,
        Step::Call {
            request: BackendRequest::Query(get_item_query("p q".to_string(), "i".to_string())),
            pending: Pending::ItemLookup,
        }
    );
}

#[test]
fn item_delete_asks_for_the_delete() {
    let req = request("DELETE", "/dynamodb/item", Some("part=p&idx=i"), Body::Empty);
    assert_eq!(
        function_handler(req, &env()),
        Step::Call {
            request: BackendRequest::DeleteItem(delete_item("p".to_string(), "i".to_string())),
            pending: Pending::ItemChange,
        }
    );
    let missing = request("DELETE", "/dynamodb/item", Some("part=p"), Body::Empty);
    assert_eq!(responds(function_handler(missing, &env())), text(400, "idx is required"));
    let empty = request("DELETE", "/dynamodb/item", Some("part=&idx=i"), Body::Empty);
    assert_eq!(responds(function_handler(empty, &env())), text(400, "part is required"));
}

#[test]
fn item_post_writes_the_record() {
    let body = Body::Text("{\"part\":\"p\",\"idx\":\"i\",\"value\":\"v\",\"more\":1}".to_string());
    let step = function_handler(request("POST", "/dynamodb/item", None, body), &env());
    assert_eq!(
        step,
        Step::Call {
            request: BackendRequest::PutItem(put_item("p".to_string(), "i".to_string(), "v".to_string(), None)),
            pending: Pending::ItemChange,
        }
    );
}

#[test]
fn item_post_reads_a_binary_body_and_pk() {
    let body = Body::Binary(b"{\"value\":\"\",\"pk\":\"k\",\"idx\":\"i\",\"part\":\"p\"}".to_vec());
    let step = function_handler(request("POST", "/dynamodb/item", None, body), &env());
    assert_eq!(
        step,
        Step::Call {
            request: BackendRequest::PutItem(put_item("p".to_string(), "i".to_string(), String::new(), Some("k".to_string()))),
            pending: Pending::ItemChange,
        }
    );
}

#[test]
fn item_post_refuses_bad_bodies() {
    let post = |body: Body| responds(function_handler(request("POST", "/dynamodb/item", None, body), &env()));
    assert_eq!(post(Body::Empty), text(400, "empty body"));
    assert_eq!(post(Body::Unsupported), text(400, "unsupported body type"));
    assert_eq!(post(Body::Text("{\"part\":".to_string())), text(400, "invalid json body"));
    assert_eq!(post(Body::Text(String::new())), text(400, "invalid json body"));
    assert_eq!(post(Body::Binary(vec![0xff])), text(400, "invalid json body"));
    assert_eq!(post(Body::Text("[\"p\",\"i\",\"v\"]".to_string())), text(400, "invalid json body"));
}

#[test]
fn item_post_refuses_missing_and_empty_fields() {
    let post = |body: &str| responds(function_handler(request("POST", "/dynamodb/item", None, Body::Text(body.to_string())), &env()));
    assert_eq!(post("{}"), text(400, "part is required"));
    assert_eq!(post("{\"part\":\"\",\"idx\":\"i\",\"value\":\"v\"}"), text(400, "part is required"));
    assert_eq!(post("{\"part\":7,\"idx\":\"i\",\"value\":\"v\"}"), text(400, "part is required"));
    assert_eq!(post("{\"part\":\"p\",\"value\":\"v\"}"), text(400, "idx is required"));
    assert_eq!(post("{\"part\":\"p\",\"idx\":\"\",\"value\":\"v\"}"), text(400, "idx is required"));
    assert_eq!(post("{\"part\":\"p\",\"idx\":\"i\"}"), text(400, "value is required"));
    assert_eq!(post("{\"part\":\"p\",\"idx\":\"i\",\"value\":null}"), text(400, "value is required"));
}

#[test]
fn entity_routes_ask_the_entity_table() {
    assert_eq!(
        function_handler(get("/dynamodb/list", None), &env()),
        Step::Call { request: BackendRequest::Scan(scan_all()), pending: Pending::EntityRead }
    );
    assert_eq!(
        function_handler(get("/dynamodb/x1", None), &env()),
        Step::Call {
            request: BackendRequest::Query(query_by_id("x1".to_string())),
            pending: Pending::EntityRead,
        }
    );
    assert_eq!(
        function_handler(request("DELETE", "/dynamodb/x1", None, Body::Empty), &env()),
        Step::Call {
            request: BackendRequest::DeleteItem(delete_by_id("x1".to_string())),
            pending: Pending::EntityDelete { id: "x1".to_string() },
        }
    );
    assert_eq!(
        function_handler(request("DELETE", "/dynamodb/list", None, Body::Empty), &env()),
        Step::Call {
            request: BackendRequest::DeleteItem(delete_by_id("list".to_string())),
            pending: Pending::EntityDelete { id: "list".to_string() },
        }
    );
}

#[test]
fn entity_post_upserts() {
    let post = |body: &str| function_handler(request("POST", "/dynamodb", None, Body::Text(body.to_string())), &env());
    assert_eq!(
        post("{\"id\":\"x\",\"value\":\"y\"}"),
        Step::Call {
            request: BackendRequest::UpdateItem(upsert("x".to_string(), Some("y".to_string()))),
            pending: Pending::EntitySave,
        }
    );
    assert_eq!(
        post("{\"id\":\"x\"}"),
        Step::Call {
            request: BackendRequest::UpdateItem(upsert("x".to_string(), None)),
            pending: Pending::EntitySave,
        }
    );
    assert_eq!(responds(post("{\"value\":\"y\"}")), text(400, "id is required"));
    assert_eq!(responds(post("{\"id\":\"\"}")), text(400, "id is required"));
    assert_eq!(responds(post("nope")), text(400, "invalid json body"));
    let empty = function_handler(request("POST", "/dynamodb", None, Body::Empty), &env());
    assert_eq!(responds(empty), text(400, "empty body"));
}

#[test]
fn s3_list_scopes_the_prefix() {
    let list = |query: Option<&str>, prefix: &str| {
        assert_eq!(
            function_handler(get("/api/s3/list", query), &env()),
            Step::Call {
                request: BackendRequest::ListObjects(list_objects_request("bucket", prefix.to_string())),
                pending: Pending::ObjectList { prefix: prefix.to_string() },
            }
        );
    };
    list(None, "base/upload/");
    list(Some("part=p&idx=i"), "base/upload/p/i/");
    list(Some("part=p"), "base/upload/");
    list(Some("part=&idx=i"), "base/upload/");
    list(Some("part=p&idx="), "base/upload/");
}

#[test]
fn s3_list_without_a_base_path() {
    assert_eq!(
        function_handler(get("/api/s3/list", Some("part=p&idx=i")), &bare_env()),
        Step::Call {
            request: BackendRequest::ListObjects(list_objects_request("bucket", "upload/p/i/".to_string())),
            pending: Pending::ObjectList { prefix: "upload/p/i/".to_string() },
        }
    );
}

#[test]
fn upload_url_key_ends_with_the_filename() {
    let upload = |query: &str, key: &str, content_type: &str| {
        assert_eq!(
            function_handler(get("/api/s3/upload-url", Some(query)), &env()),
            Step::Call {
                request: BackendRequest::Presign(presign_upload("bucket", key.to_string(), content_type.to_string())),
                pending: Pending::SignedUrl,
            }
        );
    };
    upload("filename=f.txt", "base/upload/f.txt", "application/octet-stream");
    upload("filename=f.txt&part=p&idx=i", "base/upload/p/i/f.txt", "application/octet-stream");
    upload("filename=a%20b.txt&part=p&idx=", "base/upload/a b.txt", "application/octet-stream");
    upload("filename=f.txt&part=p", "base/upload/f.txt", "application/octet-stream");
    upload("filename=f.txt&contentType=image%2Fpng", "base/upload/f.txt", "image/png");
    upload("filename=f.txt&contentType=", "base/upload/f.txt", "");
}

#[test]
fn download_and_delete_url_keys_have_no_upload_folder() {
    assert_eq!(
        function_handler(get("/api/s3/download-url", Some("filename=f.txt&part=p&idx=i")), &env()),
        Step::Call {
            request: BackendRequest::Presign(presign_download("bucket", "base/p/i/f.txt".to_string())),
            pending: Pending::SignedUrl,
        }
    );
    assert_eq!(
        function_handler(get("/api/s3/download-url", Some("filename=f.txt")), &bare_env()),
        Step::Call {
            request: BackendRequest::Presign(presign_download("bucket", "f.txt".to_string())),
            pending: Pending::SignedUrl,
        }
    );
    assert_eq!(
        function_handler(get("/api/s3/delete-url", Some("filename=f.txt&idx=i")), &env()),
        Step::Call {
            request: BackendRequest::Presign(presign_delete("bucket", "base/f.txt".to_string())),
            pending: Pending::SignedUrl,
        }
    );
    assert_eq!(
        function_handler(get("/api/s3/delete-url", Some("filename=f.txt&idx=i&part=p")), &env()),
        Step::Call {
            request: BackendRequest::Presign(presign_delete("bucket", "base/p/i/f.txt".to_string())),
            pending: Pending::SignedUrl,
        }
    );
}

#[test]
fn signed_url_routes_need_a_filename() {
    for path in ["/api/s3/upload-url", "/api/s3/download-url", "/api/s3/delete-url"] {
        assert_eq!(responds(function_handler(get(path, None), &env())), text(400, "filename is required"));
        assert_eq!(responds(function_handler(get(path, Some("filename=&part=p&idx=i")), &env())), text(400, "filename is required"));
    }
}

#[test]
fn route_table_first_match_wins() {
    assert_eq!(route("OPTIONS", "/dynamodb/item"), Route::Preflight);
    assert_eq!(route("GET", "/helloWorld"), Route::Health);
    assert_eq!(route("GET", "/dynamodb/item"), Route::ItemGet);
    assert_eq!(route("POST", "/dynamodb/item"), Route::ItemPost);
    assert_eq!(route("DELETE", "/dynamodb/item"), Route::ItemDelete);
    assert_eq!(route("PATCH", "/dynamodb/item"), Route::NotFound);
    assert_eq!(route("GET", "/dynamodb/list"), Route::EntityList);
    assert_eq!(route("GET", "/dynamodb/abc"), Route::EntityGet("abc".to_string()));
    assert_eq!(route("POST", "/dynamodb"), Route::EntityPost);
    assert_eq!(route("POST", "/dynamodb/abc"), Route::NotFound);
    assert_eq!(route("GET", "/dynamodb"), Route::NotFound);
    assert_eq!(route("DELETE", "/dynamodb/abc"), Route::EntityDelete("abc".to_string()));
    assert_eq!(route("GET", "/api/s3/list"), Route::ObjectList);
    assert_eq!(route("GET", "/api/s3/upload-url"), Route::UploadUrl);
    assert_eq!(route("GET", "/api/s3/download-url"), Route::DownloadUrl);
    assert_eq!(route("GET", "/api/s3/delete-url"), Route::DeleteUrl);
    assert_eq!(route("POST", "/api/s3/list"), Route::NotFound);
    assert_eq!(route("GET", "/api/s3/list/"), Route::NotFound);
}

#[test]
fn path_entity_takes_one_segment() {
    assert_eq!(path_entity("/dynamodb/abc"), Some("abc".to_string()));
    assert_eq!(path_entity("/dynamodb/é"), Some("é".to_string()));
    assert_eq!(path_entity("/dynamodb/"), None);
    assert_eq!(path_entity("/dynamodb"), None);
    assert_eq!(path_entity("/dynamodb/a/b"), None);
    assert_eq!(path_entity("/dynamodb/a/"), None);
    assert_eq!(path_entity("/other/abc"), None);
}

#[test]
fn keys_are_built_from_base_scope_and_filename() {
    let p = Some("p".to_string());
    let i = Some("i".to_string());
    let empty = Some(String::new());
    assert_eq!(scope(&p, &i), "p/i/");
    assert_eq!(scope(&p, &None), "");
    assert_eq!(scope(&None, &i), "");
    assert_eq!(scope(&empty, &i), "");
    assert_eq!(scope(&p, &empty), "");
    assert_eq!(list_prefix("b/", &p, &i), "b/upload/p/i/");
    assert_eq!(list_prefix("", &None, &None), "upload/");
    assert_eq!(upload_key("b/", &p, &i, "f"), "b/upload/p/i/f");
    assert_eq!(upload_key("", &None, &i, "f"), "upload/f");
    assert_eq!(object_key("b/", &p, &i, "f"), "b/p/i/f");
    assert_eq!(object_key("b/", &p, &None, "f"), "b/f");
}

#[test]
fn status_outside_the_valid_range_becomes_200() {
    assert_eq!(status_code(200), 200);
    assert_eq!(status_code(100), 100);
    assert_eq!(status_code(999), 999);
    assert_eq!(status_code(99), 200);
    assert_eq!(status_code(1000), 200);
    assert_eq!(status_code(0), 200);
    assert_eq!(text_response(99, "x".to_string()), text(200, "x"));
    assert_eq!(json_response(1000, "[]".to_string()), json(200, "[]"));
}

#[test]
fn text_and_json_responses_carry_the_headers() {
    assert_eq!(text_response(404, "gone".to_string()), text(404, "gone"));
    assert_eq!(json_response(200, "{}".to_string()), json(200, "{}"));
}

#[test]
fn add_cors_headers_replaces_earlier_ones() {
    let mut response = Response {
        status: 200,
        headers: vec![
            ("Access-Control-Allow-Origin".to_string(), "https://example.org".to_string()),
            ("x-trace".to_string(), "1".to_string()),
        ],
        body: Body::Empty,
    };
    add_cors_headers(&mut response);
    let mut expected = vec![("x-trace".to_string(), "1".to_string())];
    expected.extend(cors());
    assert_eq!(response.headers, expected);
    assert_eq!(response.status, 200);
    assert_eq!(response.body, Body::Empty);
    add_cors_headers(&mut response);
    assert_eq!(response.headers, expected);
}

#[test]
fn insert_header_puts_the_new_entry_last() {
    let mut headers = vec![
        ("a".to_string(), "1".to_string()),
        ("b".to_string(), "2".to_string()),
        ("a".to_string(), "3".to_string()),
    ];
    insert_header(&mut headers, "a", "4");
    assert_eq!(headers, vec![("b".to_string(), "2".to_string()), ("a".to_string(), "4".to_string())]);
    insert_header(&mut headers, "c", "5");
    assert_eq!(headers.len(), 3);
    assert_eq!(headers[2], ("c".to_string(), "5".to_string()));
}

#[test]
fn body_object_says_why_a_body_holds_none() {
    assert_eq!(body_object(&Body::Empty), Err("empty body".to_string()));
    assert_eq!(body_object(&Body::Unsupported), Err("unsupported body type".to_string()));
    assert_eq!(body_object(&Body::Text("x".to_string())), Err("invalid json body".to_string()));
    assert_eq!(body_object(&Body::Binary(b"{\"a\":\"b\"}".to_vec())), Ok(vec![("a".to_string(), Some("b".to_string()))]));
}

#[test]
fn complete_item_lookup() {
    let item: Item = vec![s("part", "p"), s("idx", "i"), s("value", "v")];
    assert_eq!(complete(Pending::ItemLookup, BackendReply::Items(Some(vec![item]))), text(200, "v"));
    assert_eq!(complete(Pending::ItemLookup, BackendReply::Items(Some(Vec::new()))), text(200, "Value not found"));
    assert_eq!(complete(Pending::ItemLookup, BackendReply::Items(None)), text(200, "Value not found"));
    assert_eq!(complete(Pending::ItemLookup, BackendReply::Failed), text(500, "dynamodb error"));
    assert_eq!(complete(Pending::ItemLookup, BackendReply::Done), text(500, "dynamodb error"));
}

#[test]
fn complete_item_change() {
    assert_eq!(complete(Pending::ItemChange, BackendReply::Done), text(200, "Success"));
    assert_eq!(complete(Pending::ItemChange, BackendReply::Failed), text(500, "dynamodb error"));
    assert_eq!(complete(Pending::ItemChange, BackendReply::Url("u".to_string())), text(500, "dynamodb error"));
}

#[test]
fn complete_entity_routes() {
    let items: Vec<Item> = vec![vec![s("id", "a"), s("value", "1")], vec![s("id", "b")], vec![s("value", "x")]];
    assert_eq!(
        complete(Pending::EntityRead, BackendReply::Items(Some(items))),
        json(200, "[{\"id\":\"a\",\"value\":\"1\"},{\"id\":\"b\",\"value\":null}]")
    );
    assert_eq!(complete(Pending::EntityRead, BackendReply::Items(None)), json(200, "[]"));
    assert_eq!(complete(Pending::EntityRead, BackendReply::Failed), text(500, "dynamodb error"));
    assert_eq!(complete(Pending::EntitySave, BackendReply::Done), text(200, "Entity saved successfully."));
    assert_eq!(complete(Pending::EntitySave, BackendReply::Failed), text(500, "dynamodb error"));
    assert_eq!(
        complete(Pending::EntityDelete { id: "x1".to_string() }, BackendReply::Done),
        text(200, "Entity deleted successfully. (x1)")
    );
    assert_eq!(
        complete(Pending::EntityDelete { id: "x1".to_string() }, BackendReply::Failed),
        text(500, "dynamodb error")
    );
}

#[test]
fn complete_object_list() {
    let pending = || Pending::ObjectList { prefix: "upload/".to_string() };
    let reply = BackendReply::Objects {
        common_prefixes: Some(vec![Some("upload/a/".to_string())]),
        contents: Some(vec![Some("upload/".to_string()), Some("upload/f \"1\".txt".to_string())]),
    };
    assert_eq!(
        complete(pending(), reply),
        json(200, "{\"files\":[\"upload/f \\\"1\\\".txt\"],\"folders\":[\"upload/a/\"]}")
    );
    let empty = BackendReply::Objects { common_prefixes: None, contents: None };
    assert_eq!(complete(pending(), empty), json(200, "{\"files\":[],\"folders\":[]}"));
    assert_eq!(complete(pending(), BackendReply::Failed), text(500, "s3 error"));
    assert_eq!(complete(pending(), BackendReply::Items(None)), text(500, "s3 error"));
}

#[test]
fn complete_signed_url() {
    assert_eq!(
        complete(Pending::SignedUrl, BackendReply::Url("https://bucket.example/f?sig=1".to_string())),
        text(200, "https://bucket.example/f?sig=1")
    );
    assert_eq!(complete(Pending::SignedUrl, BackendReply::Failed), text(500, "s3 error"));
}

#[test]
fn write_listing_agrees_with_serde_json() {
    let folders = vec!["upload/a/".to_string(), "upload/\"b\"/".to_string()];
    let files = vec!["upload/x\n.txt".to_string()];
    let mut object = serde_json::Map::new();
    object.insert("folders".to_string(), serde_json::Value::from(folders.clone()));
    object.insert("files".to_string(), serde_json::Value::from(files.clone()));
    assert_eq!(write_listing(&folders, &files), serde_json::Value::Object(object).to_string());
}

#[test]
fn record_steps_over_plain_values() {
    let p = || Some("p".to_string());
    let i = || Some("i".to_string());
    assert_eq!(
        record_lookup(p(), i()),
        Step::Call {
            request: BackendRequest::Query(get_item_query("p".to_string(), "i".to_string())),
            pending: Pending::ItemLookup,
        }
    );
    assert_eq!(record_lookup(None, i()), refusal("part is required"));
    assert_eq!(record_lookup(Some(String::new()), None), refusal("part is required"));
    assert_eq!(record_lookup(p(), Some(String::new())), refusal("idx is required"));
    assert_eq!(
        record_delete(p(), i()),
        Step::Call {
            request: BackendRequest::DeleteItem(delete_item("p".to_string(), "i".to_string())),
            pending: Pending::ItemChange,
        }
    );
    assert_eq!(record_delete(p(), None), refusal("idx is required"));
    let members = vec![
        ("idx".to_string(), Some("i".to_string())),
        ("part".to_string(), Some("p".to_string())),
        ("pk".to_string(), None),
        ("value".to_string(), Some("v".to_string())),
    ];
    assert_eq!(
        record_write(&members),
        Step::Call {
            request: BackendRequest::PutItem(put_item("p".to_string(), "i".to_string(), "v".to_string(), None)),
            pending: Pending::ItemChange,
        }
    );
    assert_eq!(record_write(&members[..3].to_vec()), refusal("value is required"));
    assert_eq!(record_write(&Vec::new()), refusal("part is required"));
    assert_eq!(responds(refusal("why")), text(400, "why"));
}

#[test]
fn entity_and_object_steps_over_plain_values() {
    let p = Some("p".to_string());
    let i = Some("i".to_string());
    let f = || Some("f.txt".to_string());
    assert_eq!(
        entity_save(&vec![("id".to_string(), Some("x".to_string())), ("value".to_string(), Some(String::new()))]),
        Step::Call {
            request: BackendRequest::UpdateItem(upsert("x".to_string(), Some(String::new()))),
            pending: Pending::EntitySave,
        }
    );
    assert_eq!(entity_save(&vec![("id".to_string(), None)]), refusal("id is required"));
    assert_eq!(
        object_list(&p, &i, "b", "base/"),
        Step::Call {
            request: BackendRequest::ListObjects(list_objects_request("b", "base/upload/p/i/".to_string())),
            pending: Pending::ObjectList { prefix: "base/upload/p/i/".to_string() },
        }
    );
    assert_eq!(
        upload_url(f(), None, &p, &i, "b", ""),
        Step::Call {
            request: BackendRequest::Presign(presign_upload("b", "upload/p/i/f.txt".to_string(), "application/octet-stream".to_string())),
            pending: Pending::SignedUrl,
        }
    );
    assert_eq!(upload_url(None, Some("text/plain".to_string()), &p, &i, "b", ""), refusal("filename is required"));
    assert_eq!(
        download_url(f(), &p, &None, "b", "x/"),
        Step::Call {
            request: BackendRequest::Presign(presign_download("b", "x/f.txt".to_string())),
            pending: Pending::SignedUrl,
        }
    );
    assert_eq!(
        delete_url(f(), &p, &i, "b", "x/"),
        Step::Call {
            request: BackendRequest::Presign(presign_delete("b", "x/p/i/f.txt".to_string())),
            pending: Pending::SignedUrl,
        }
    );
    assert_eq!(delete_url(Some(String::new()), &p, &i, "b", "x/"), refusal("filename is required"));
}
