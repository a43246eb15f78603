//! The request router: from method, path, query string and body to one step,
//! and from a backend's reply to the response.
//!
//! Missing or empty key parts are refused with `400` before any backend is
//! asked. Record bodies name their index `idx`. Listings are scoped by `part` and
//! `idx`.

use vstd::prelude::*;
use vstd::string::*;
use vstd::utf8::encode_utf8;

use crate::backend::{
    BackendReply, BackendReplyView, BackendRequest, BackendRequestView, Pending, PendingView,
    Step, StepView,
};
use crate::dynamodb::{
    delete_by_id, delete_by_id_spec, delete_item, delete_item_spec, entities, entities_from_items,
    entities_json, get_item_query, get_item_query_spec, get_item_value, item_value, put_item,
    put_item_spec, query_by_id, query_by_id_spec, scan_all, scan_all_spec, upsert, upsert_spec,
    write_entities,
};
use crate::json::{
    member_text, object_members, read_object, string_array, string_member, write_string_array,
    Members, MembersView,
};
use crate::message::{
    insert_header, with_header, Body, BodyView, Environment, EnvironmentView, HeadersView,
    Request, RequestView, Response, ResponseView,
};
use crate::query::{lookup, param, parse_form};
use crate::s3::{
    files, folders, list_objects, list_objects_request, list_objects_request_spec,
    presign_delete, presign_download, presign_plain_spec, presign_upload, presign_upload_spec,
    Verb,
};
use crate::text::{after, contains_char, has_prefix, or_empty, provided, same_text, strip_prefix};

verus! {

/// The status that a response gets for `status`: itself where it lies in
/// `100..=999`, else `200`.
pub open spec fn valid_status(status: u16) -> u16 {
    if 100 <= status <= 999 {
        status
    } else {
        200
    }
}

/// `headers` after the three cross-origin headers are set.
pub open spec fn cors(headers: HeadersView) -> HeadersView {
    with_header(
        with_header(
            with_header(headers, "Access-Control-Allow-Origin"@, "*"@),
            "Access-Control-Allow-Methods"@,
            "GET,POST,DELETE,OPTIONS"@,
        ),
        "Access-Control-Allow-Headers"@,
        "Content-Type,Authorization"@,
    )
}

/// A plain-text response.
pub open spec fn text_response_spec(status: u16, body: Seq<char>) -> ResponseView {
    ResponseView {
        status: valid_status(status),
        headers: cors(Seq::empty()),
        body: BodyView::Text(body),
    }
}

/// A response whose body is JSON text.
pub open spec fn json_response_spec(status: u16, body: Seq<char>) -> ResponseView {
    ResponseView {
        status: valid_status(status),
        headers: cors(
            with_header(Seq::empty(), "content-type"@, "application/json; charset=utf-8"@),
        ),
        body: BodyView::Text(body),
    }
}

/// The response to a preflight request.
pub open spec fn preflight_spec() -> ResponseView {
    ResponseView { status: 200, headers: cors(Seq::empty()), body: BodyView::Empty }
}

/// The routes of the gateway.
#[derive(Debug, Clone, PartialEq, Eq)]
pub enum Route {
    Preflight,
    Health,
    ItemGet,
    ItemPost,
    ItemDelete,
    EntityList,
    EntityGet(String),
    EntityPost,
    EntityDelete(String),
    ObjectList,
    UploadUrl,
    DownloadUrl,
    DeleteUrl,
    NotFound,
}

/// The mathematical form of a `Route`.
pub enum RouteView {
    Preflight,
    Health,
    ItemGet,
    ItemPost,
    ItemDelete,
    EntityList,
    EntityGet(Seq<char>),
    EntityPost,
    EntityDelete(Seq<char>),
    ObjectList,
    UploadUrl,
    DownloadUrl,
    DeleteUrl,
    NotFound,
}

impl DeepView for Route {
    type V = RouteView;

    open spec fn deep_view(&self) -> RouteView {
        match self {
            Route::Preflight => RouteView::Preflight,
            Route::Health => RouteView::Health,
            Route::ItemGet => RouteView::ItemGet,
            Route::ItemPost => RouteView::ItemPost,
            Route::ItemDelete => RouteView::ItemDelete,
            Route::EntityList => RouteView::EntityList,
            Route::EntityGet(id) => RouteView::EntityGet(id@),
            Route::EntityPost => RouteView::EntityPost,
            Route::EntityDelete(id) => RouteView::EntityDelete(id@),
            Route::ObjectList => RouteView::ObjectList,
            Route::UploadUrl => RouteView::UploadUrl,
            Route::DownloadUrl => RouteView::DownloadUrl,
            Route::DeleteUrl => RouteView::DeleteUrl,
            Route::NotFound => RouteView::NotFound,
        }
    }
}

impl View for Route {
    type V = RouteView;

    open spec fn view(&self) -> RouteView {
        self.deep_view()
    }
}

/// The entity that `path` names: what follows `/dynamodb/`, where that is one
/// segment, not empty and without a further `/`.
pub open spec fn entity_id(path: Seq<char>) -> Option<Seq<char>> {
    let rest = after(path, "/dynamodb/"@.len());
    if has_prefix(path, "/dynamodb/"@) && rest.len() > 0 && !rest.contains('/') {
        Some(rest)
    } else {
        None
    }
}

/// The route table. The first line that fits decides: `OPTIONS` before every
/// path, and `/dynamodb/item` and `GET /dynamodb/list` before `/dynamodb/{id}`.
pub open spec fn route_spec(method: Seq<char>, path: Seq<char>) -> RouteView {
    if method == "OPTIONS"@ {
        RouteView::Preflight
    } else if method == "GET"@ && path == "/helloWorld"@ {
        RouteView::Health
    } else if path == "/dynamodb/item"@ {
        if method == "GET"@ {
            RouteView::ItemGet
        } else if method == "POST"@ {
            RouteView::ItemPost
        } else if method == "DELETE"@ {
            RouteView::ItemDelete
        } else {
            RouteView::NotFound
        }
    } else if method == "GET"@ && path == "/dynamodb/list"@ {
        RouteView::EntityList
    } else if method == "POST"@ && path == "/dynamodb"@ {
        RouteView::EntityPost
    } else if method == "GET"@ && entity_id(path) is Some {
        RouteView::EntityGet(entity_id(path)->0)
    } else if method == "DELETE"@ && entity_id(path) is Some {
        RouteView::EntityDelete(entity_id(path)->0)
    } else if method == "GET"@ && path == "/api/s3/list"@ {
        RouteView::ObjectList
    } else if method == "GET"@ && path == "/api/s3/upload-url"@ {
        RouteView::UploadUrl
    } else if method == "GET"@ && path == "/api/s3/download-url"@ {
        RouteView::DownloadUrl
    } else if method == "GET"@ && path == "/api/s3/delete-url"@ {
        RouteView::DeleteUrl
    } else {
        RouteView::NotFound
    }
}

/// The folder segment of an object key: `part/idx/` where both are provided,
/// else nothing.
pub open spec fn scope_spec(part: Option<Seq<char>>, idx: Option<Seq<char>>) -> Seq<char> {
    if provided(part) && provided(idx) {
        part->0 + "/"@ + idx->0 + "/"@
    } else {
        Seq::empty()
    }
}

/// The prefix that a listing asks for.
pub open spec fn list_prefix_spec(
    base_path: Seq<char>,
    part: Option<Seq<char>>,
    idx: Option<Seq<char>>,
) -> Seq<char> {
    base_path + "upload/"@ + scope_spec(part, idx)
}

/// The key of an upload.
pub open spec fn upload_key_spec(
    base_path: Seq<char>,
    part: Option<Seq<char>>,
    idx: Option<Seq<char>>,
    filename: Seq<char>,
) -> Seq<char> {
    base_path + "upload/"@ + scope_spec(part, idx) + filename
}

/// The key of a download or a delete.
pub open spec fn object_key_spec(
    base_path: Seq<char>,
    part: Option<Seq<char>>,
    idx: Option<Seq<char>>,
    filename: Seq<char>,
) -> Seq<char> {
    base_path + scope_spec(part, idx) + filename
}

/// The step that refuses a request with `400` and `message`.
pub open spec fn refuse(message: Seq<char>) -> StepView {
    StepView::Respond(text_response_spec(400, message))
}

/// The step on a lookup of the record `(part, idx)`: a part that is missing or
/// empty is refused, `part` before `idx`.
pub open spec fn record_lookup_spec(part: Option<Seq<char>>, idx: Option<Seq<char>>) -> StepView {
    if !provided(part) {
        refuse("part is required"@)
    } else if !provided(idx) {
        refuse("idx is required"@)
    } else {
        StepView::Call {
            request: BackendRequestView::Query(get_item_query_spec(part->0, idx->0)),
            pending: PendingView::ItemLookup,
        }
    }
}

/// The step on a delete of the record `(part, idx)`.
pub open spec fn record_delete_spec(part: Option<Seq<char>>, idx: Option<Seq<char>>) -> StepView {
    if !provided(part) {
        refuse("part is required"@)
    } else if !provided(idx) {
        refuse("idx is required"@)
    } else {
        StepView::Call {
            request: BackendRequestView::DeleteItem(delete_item_spec(part->0, idx->0)),
            pending: PendingView::ItemChange,
        }
    }
}

/// The step on a write of the record that `members` describe: `part` and `idx`
/// must be non-empty strings and `value` a string; `pk` is written where it is
/// a string.
pub open spec fn record_write_spec(members: MembersView) -> StepView {
    let part = member_text(members, "part"@);
    let idx = member_text(members, "idx"@);
    if !provided(part) {
        refuse("part is required"@)
    } else if !provided(idx) {
        refuse("idx is required"@)
    } else {
        match member_text(members, "value"@) {
            None => refuse("value is required"@),
            Some(value) => StepView::Call {
                request: BackendRequestView::PutItem(
                    put_item_spec(part->0, idx->0, value, member_text(members, "pk"@)),
                ),
                pending: PendingView::ItemChange,
            },
        }
    }
}

/// The step on an upsert of the entity that `members` describe: `id` must be a
/// non-empty string.
pub open spec fn entity_save_spec(members: MembersView) -> StepView {
    let id = member_text(members, "id"@);
    if !provided(id) {
        refuse("id is required"@)
    } else {
        StepView::Call {
            request: BackendRequestView::UpdateItem(
                upsert_spec(id->0, member_text(members, "value"@)),
            ),
            pending: PendingView::EntitySave,
        }
    }
}

/// The JSON object that a body holds, or the message that says why it holds
/// none.
pub open spec fn body_object_spec(body: BodyView) -> Result<MembersView, Seq<char>> {
    match body {
        BodyView::Empty => Err("empty body"@),
        BodyView::Unsupported => Err("unsupported body type"@),
        BodyView::Text(text) => match object_members(encode_utf8(text)) {
            Some(members) => Ok(members),
            None => Err("invalid json body"@),
        },
        BodyView::Binary(bytes) => match object_members(bytes) {
            Some(members) => Ok(members),
            None => Err("invalid json body"@),
        },
    }
}

/// The step on a listing scoped by `part` and `idx`.
pub open spec fn object_list_spec(
    part: Option<Seq<char>>,
    idx: Option<Seq<char>>,
    bucket: Seq<char>,
    base_path: Seq<char>,
) -> StepView {
    let prefix = list_prefix_spec(base_path, part, idx);
    StepView::Call {
        request: BackendRequestView::ListObjects(list_objects_request_spec(bucket, prefix)),
        pending: PendingView::ObjectList { prefix },
    }
}

/// The step on the signing of an upload: a file name is required; the content
/// type is `application/octet-stream` where none is given.
pub open spec fn upload_url_spec(
    filename: Option<Seq<char>>,
    content_type: Option<Seq<char>>,
    part: Option<Seq<char>>,
    idx: Option<Seq<char>>,
    bucket: Seq<char>,
    base_path: Seq<char>,
) -> StepView {
    if !provided(filename) {
        refuse("filename is required"@)
    } else {
        let content_type = match content_type {
            Some(given) => given,
            None => "application/octet-stream"@,
        };
        let key = upload_key_spec(base_path, part, idx, filename->0);
        StepView::Call {
            request: BackendRequestView::Presign(presign_upload_spec(bucket, key, content_type)),
            pending: PendingView::SignedUrl,
        }
    }
}

/// The step on the signing of a download or a delete: a file name is required.
pub open spec fn plain_url_spec(
    verb: Verb,
    filename: Option<Seq<char>>,
    part: Option<Seq<char>>,
    idx: Option<Seq<char>>,
    bucket: Seq<char>,
    base_path: Seq<char>,
) -> StepView {
    if !provided(filename) {
        refuse("filename is required"@)
    } else {
        let key = object_key_spec(base_path, part, idx, filename->0);
        StepView::Call {
            request: BackendRequestView::Presign(presign_plain_spec(verb, bucket, key)),
            pending: PendingView::SignedUrl,
        }
    }
}

/// The response to a request that fits no route.
pub open spec fn not_found_spec(method: Seq<char>, path: Seq<char>) -> ResponseView {
    text_response_spec(404, "not found: "@ + method + " "@ + path)
}

/// The gateway's step on a request, route by route. Query parameters are read
/// from the query string, the first of a name winning; bodies are read as one
/// JSON object.
pub open spec fn handle(req: RequestView, env: EnvironmentView) -> StepView {
    let bucket = or_empty(env.s3_bucket);
    let base_path = or_empty(env.s3_path);
    let part = param(req.query, "part"@);
    let idx = param(req.query, "idx"@);
    let filename = param(req.query, "filename"@);
    match route_spec(req.method, req.path) {
        RouteView::Preflight => StepView::Respond(preflight_spec()),
        RouteView::Health => StepView::Respond(text_response_spec(200, "OK"@)),
        RouteView::ItemGet => record_lookup_spec(part, idx),
        RouteView::ItemPost => match body_object_spec(req.body) {
            Ok(members) => record_write_spec(members),
            Err(message) => refuse(message),
        },
        RouteView::ItemDelete => record_delete_spec(part, idx),
        RouteView::EntityList => StepView::Call {
            request: BackendRequestView::Scan(scan_all_spec()),
            pending: PendingView::EntityRead,
        },
        RouteView::EntityGet(id) => StepView::Call {
            request: BackendRequestView::Query(query_by_id_spec(id)),
            pending: PendingView::EntityRead,
        },
        RouteView::EntityPost => match body_object_spec(req.body) {
            Ok(members) => entity_save_spec(members),
            Err(message) => refuse(message),
        },
        RouteView::EntityDelete(id) => StepView::Call {
            request: BackendRequestView::DeleteItem(delete_by_id_spec(id)),
            pending: PendingView::EntityDelete { id },
        },
        RouteView::ObjectList => object_list_spec(part, idx, bucket, base_path),
        RouteView::UploadUrl => upload_url_spec(
            filename,
            param(req.query, "contentType"@),
            part,
            idx,
            bucket,
            base_path,
        ),
        RouteView::DownloadUrl => plain_url_spec(
            Verb::Get,
            filename,
            part,
            idx,
            bucket,
            base_path,
        ),
        RouteView::DeleteUrl => plain_url_spec(
            Verb::Delete,
            filename,
            part,
            idx,
            bucket,
            base_path,
        ),
        RouteView::NotFound => StepView::Respond(not_found_spec(req.method, req.path)),
    }
}

/// The JSON object of a listing.
pub open spec fn listing_json(folders: Seq<Seq<char>>, files: Seq<Seq<char>>) -> Seq<char> {
    "{\"files\":"@ + string_array(files) + ",\"folders\":"@ + string_array(folders) + "}"@
}

/// The response once the backend's reply is in. A reply of a kind that does not
/// answer what was pending counts as a failure of that backend.
pub open spec fn completed(pending: PendingView, reply: BackendReplyView) -> ResponseView {
    match pending {
        PendingView::ItemLookup => match reply {
            BackendReplyView::Items(items) => match item_value(items) {
                Some(value) => text_response_spec(200, value),
                None => text_response_spec(200, "Value not found"@),
            },
            _ => text_response_spec(500, "dynamodb error"@),
        },
        PendingView::ItemChange => match reply {
            BackendReplyView::Done => text_response_spec(200, "Success"@),
            _ => text_response_spec(500, "dynamodb error"@),
        },
        PendingView::EntityRead => match reply {
            BackendReplyView::Items(items) => json_response_spec(
                200,
                entities_json(entities(items)),
            ),
            _ => text_response_spec(500, "dynamodb error"@),
        },
        PendingView::EntitySave => match reply {
            BackendReplyView::Done => text_response_spec(200, "Entity saved successfully."@),
            _ => text_response_spec(500, "dynamodb error"@),
        },
        PendingView::EntityDelete { id } => match reply {
            BackendReplyView::Done => text_response_spec(
                200,
                "Entity deleted successfully. ("@ + id + ")"@,
            ),
            _ => text_response_spec(500, "dynamodb error"@),
        },
        PendingView::ObjectList { prefix } => match reply {
            BackendReplyView::Objects { common_prefixes, contents } => json_response_spec(
                200,
                listing_json(folders(common_prefixes), files(contents, prefix)),
            ),
            _ => text_response_spec(500, "s3 error"@),
        },
        PendingView::SignedUrl => match reply {
            BackendReplyView::Url(url) => text_response_spec(200, url),
            _ => text_response_spec(500, "s3 error"@),
        },
    }
}

/// Sets the three cross-origin headers on `response`.
pub fn add_cors_headers(response: &mut Response)
    ensures
        final(response)@ == (ResponseView {
            headers: cors(old(response)@.headers),
            ..old(response)@
        }),
{
    let headers = &mut response.headers;
    insert_header(headers, "Access-Control-Allow-Origin", "*");
    insert_header(headers, "Access-Control-Allow-Methods", "GET,POST,DELETE,OPTIONS");
    insert_header(headers, "Access-Control-Allow-Headers", "Content-Type,Authorization");
}

/// The status code for `status`.
pub fn status_code(status: u16) -> (code: u16)
    ensures
        code == valid_status(status),
{
    if 100 <= status && status <= 999 {
        status
    } else {
        200
    }
}

/// A plain-text response with the cross-origin headers.
pub fn text_response(status: u16, body: String) -> (response: Response)
    ensures
        response@ == text_response_spec(status, body@),
{
    let mut response = Response {
        status: status_code(status),
        headers: Vec::new(),
        body: Body::Text(body),
    };
    assert(response.headers.deep_view() =~= Seq::<(Seq<char>, Seq<char>)>::empty());
    add_cors_headers(&mut response);
    response
}

/// A response with JSON text for a body, marked as such, with the cross-origin
/// headers.
pub fn json_response(status: u16, body: String) -> (response: Response)
    ensures
        response@ == json_response_spec(status, body@),
{
    let mut response = Response {
        status: status_code(status),
        headers: Vec::new(),
        body: Body::Text(body),
    };
    assert(response.headers.deep_view() =~= Seq::<(Seq<char>, Seq<char>)>::empty());
    insert_header(&mut response.headers, "content-type", "application/json; charset=utf-8");
    add_cors_headers(&mut response);
    response
}

/// The first value that the request's query string holds under `key`.
pub fn query_param(req: &Request, key: &str) -> (value: Option<String>)
    ensures
        value.deep_view() == param(req@.query, key@),
{
    match &req.query {
        Some(q) => {
            let pairs = parse_form(q.as_str());
            lookup(&pairs, key)
        },
        None => None,
    }
}

/// Reads the entity that `path` names.
pub fn path_entity(path: &str) -> (id: Option<String>)
    ensures
        id.deep_view() == entity_id(path@),
{
    match strip_prefix(path, "/dynamodb/") {
        Some(rest) => {
            if rest.as_str().is_empty() || contains_char(rest.as_str(), '/') {
                None
            } else {
                Some(rest)
            }
        },
        None => None,
    }
}

/// Finds the route of a request in the route table.
pub fn route(method: &str, path: &str) -> (found: Route)
    ensures
        found@ == route_spec(method@, path@),
{
    if same_text(method, "OPTIONS") {
        return Route::Preflight;
    }
    let get = same_text(method, "GET");
    let post = same_text(method, "POST");
    let delete = same_text(method, "DELETE");
    if get && same_text(path, "/helloWorld") {
        return Route::Health;
    }
    if same_text(path, "/dynamodb/item") {
        return if get {
            Route::ItemGet
        } else if post {
            Route::ItemPost
        } else if delete {
            Route::ItemDelete
        } else {
            Route::NotFound
        };
    }
    if get && same_text(path, "/dynamodb/list") {
        return Route::EntityList;
    }
    if post && same_text(path, "/dynamodb") {
        return Route::EntityPost;
    }
    if get || delete {
        match path_entity(path) {
            Some(id) => {
                return if get {
                    Route::EntityGet(id)
                } else {
                    Route::EntityDelete(id)
                };
            },
            None => {},
        }
    }
    if get && same_text(path, "/api/s3/list") {
        Route::ObjectList
    } else if get && same_text(path, "/api/s3/upload-url") {
        Route::UploadUrl
    } else if get && same_text(path, "/api/s3/download-url") {
        Route::DownloadUrl
    } else if get && same_text(path, "/api/s3/delete-url") {
        Route::DeleteUrl
    } else {
        Route::NotFound
    }
}

/// Builds the folder segment of an object key.
pub fn scope(part: &Option<String>, idx: &Option<String>) -> (segment: String)
    ensures
        segment@ == scope_spec(part.deep_view(), idx.deep_view()),
{
    match (part, idx) {
        (Some(p), Some(i)) => {
            if !p.as_str().is_empty() && !i.as_str().is_empty() {
                let mut segment = p.clone();
                segment.append("/");
                segment.append(i.as_str());
                segment.append("/");
                segment
            } else {
                String::new()
            }
        },
        _ => String::new(),
    }
}

/// Builds the prefix that a listing asks for.
pub fn list_prefix(base_path: &str, part: &Option<String>, idx: &Option<String>) -> (prefix:
    String)
    ensures
        prefix@ == list_prefix_spec(base_path@, part.deep_view(), idx.deep_view()),
{
    let mut prefix = base_path.to_owned();
    prefix.append("upload/");
    prefix.append(scope(part, idx).as_str());
    prefix
}

/// Builds the key of an upload.
pub fn upload_key(
    base_path: &str,
    part: &Option<String>,
    idx: &Option<String>,
    filename: &str,
) -> (key: String)
    ensures
        key@ == upload_key_spec(base_path@, part.deep_view(), idx.deep_view(), filename@),
{
    let mut key = list_prefix(base_path, part, idx);
    key.append(filename);
    key
}

/// Builds the key of a download or a delete.
pub fn object_key(
    base_path: &str,
    part: &Option<String>,
    idx: &Option<String>,
    filename: &str,
) -> (key: String)
    ensures
        key@ == object_key_spec(base_path@, part.deep_view(), idx.deep_view(), filename@),
{
    let mut key = base_path.to_owned();
    key.append(scope(part, idx).as_str());
    key.append(filename);
    key
}

/// The step that refuses a request with `400` and `message`.
pub fn refusal(message: &str) -> (step: Step)
    ensures
        step@ == refuse(message@),
{
    Step::Respond(text_response(400, message.to_owned()))
}

/// The text in `value`, where there is one and it is not empty.
fn filled(value: Option<String>) -> (text: Option<String>)
    ensures
        text is Some <==> provided(value.deep_view()),
        text is Some ==> text.deep_view() == value.deep_view(),
{
    match value {
        Some(v) => if v.as_str().is_empty() {
            None
        } else {
            Some(v)
        },
        None => None,
    }
}

/// Reads a request body as a JSON object.
pub fn body_object(body: &Body) -> (read: Result<Members, String>)
    ensures
        match read {
            Ok(members) => body_object_spec(body@) == Ok::<MembersView, Seq<char>>(
                members.deep_view(),
            ),
            Err(message) => body_object_spec(body@) == Err::<MembersView, Seq<char>>(message@),
        },
{
    match body {
        Body::Empty => Err(String::from_str("empty body")),
        Body::Unsupported => Err(String::from_str("unsupported body type")),
        Body::Text(text) => match read_object(text.as_str().as_bytes()) {
            Some(members) => Ok(members),
            None => Err(String::from_str("invalid json body")),
        },
        Body::Binary(bytes) => match read_object(bytes.as_slice()) {
            Some(members) => Ok(members),
            None => Err(String::from_str("invalid json body")),
        },
    }
}

/// Takes the step on a lookup of the record `(part, idx)`.
pub fn record_lookup(part: Option<String>, idx: Option<String>) -> (step: Step)
    ensures
        step@ == record_lookup_spec(part.deep_view(), idx.deep_view()),
{
    let part = match filled(part) {
        Some(text) => text,
        None => {
            return refusal("part is required");
        },
    };
    let idx = match filled(idx) {
        Some(text) => text,
        None => {
            return refusal("idx is required");
        },
    };
    Step::Call {
        request: BackendRequest::Query(get_item_query(part, idx)),
        pending: Pending::ItemLookup,
    }
}

/// Takes the step on a delete of the record `(part, idx)`.
pub fn record_delete(part: Option<String>, idx: Option<String>) -> (step: Step)
    ensures
        step@ == record_delete_spec(part.deep_view(), idx.deep_view()),
{
    let part = match filled(part) {
        Some(text) => text,
        None => {
            return refusal("part is required");
        },
    };
    let idx = match filled(idx) {
        Some(text) => text,
        None => {
            return refusal("idx is required");
        },
    };
    Step::Call {
        request: BackendRequest::DeleteItem(delete_item(part, idx)),
        pending: Pending::ItemChange,
    }
}

/// Takes the step on a write of the record that `members` describe.
pub fn record_write(members: &Members) -> (step: Step)
    ensures
        step@ == record_write_spec(members.deep_view()),
{
    let part = match filled(string_member(members, "part")) {
        Some(text) => text,
        None => {
            return refusal("part is required");
        },
    };
    let idx = match filled(string_member(members, "idx")) {
        Some(text) => text,
        None => {
            return refusal("idx is required");
        },
    };
    match string_member(members, "value") {
        Some(value) => Step::Call {
            request: BackendRequest::PutItem(
                put_item(part, idx, value, string_member(members, "pk")),
            ),
            pending: Pending::ItemChange,
        },
        None => refusal("value is required"),
    }
}

/// Takes the step on an upsert of the entity that `members` describe.
pub fn entity_save(members: &Members) -> (step: Step)
    ensures
        step@ == entity_save_spec(members.deep_view()),
{
    let id = match filled(string_member(members, "id")) {
        Some(text) => text,
        None => {
            return refusal("id is required");
        },
    };
    Step::Call {
        request: BackendRequest::UpdateItem(upsert(id, string_member(members, "value"))),
        pending: Pending::EntitySave,
    }
}

/// Takes the step on a listing scoped by `part` and `idx`.
pub fn object_list(
    part: &Option<String>,
    idx: &Option<String>,
    bucket: &str,
    base_path: &str,
) -> (step: Step)
    ensures
        step@ == object_list_spec(part.deep_view(), idx.deep_view(), bucket@, base_path@),
{
    let prefix = list_prefix(base_path, part, idx);
    Step::Call {
        request: BackendRequest::ListObjects(list_objects_request(bucket, prefix.clone())),
        pending: Pending::ObjectList { prefix },
    }
}

/// Takes the step on the signing of an upload.
pub fn upload_url(
    filename: Option<String>,
    content_type: Option<String>,
    part: &Option<String>,
    idx: &Option<String>,
    bucket: &str,
    base_path: &str,
) -> (step: Step)
    ensures
        step@ == upload_url_spec(
            filename.deep_view(),
            content_type.deep_view(),
            part.deep_view(),
            idx.deep_view(),
            bucket@,
            base_path@,
        ),
{
    let filename = match filled(filename) {
        Some(text) => text,
        None => {
            return refusal("filename is required");
        },
    };
    let content_type = match content_type {
        Some(given) => given,
        None => String::from_str("application/octet-stream"),
    };
    let key = upload_key(base_path, part, idx, filename.as_str());
    Step::Call {
        request: BackendRequest::Presign(presign_upload(bucket, key, content_type)),
        pending: Pending::SignedUrl,
    }
}

/// Takes the step on the signing of a download.
pub fn download_url(
    filename: Option<String>,
    part: &Option<String>,
    idx: &Option<String>,
    bucket: &str,
    base_path: &str,
) -> (step: Step)
    ensures
        step@ == plain_url_spec(
            Verb::Get,
            filename.deep_view(),
            part.deep_view(),
            idx.deep_view(),
            bucket@,
            base_path@,
        ),
{
    let filename = match filled(filename) {
        Some(text) => text,
        None => {
            return refusal("filename is required");
        },
    };
    let key = object_key(base_path, part, idx, filename.as_str());
    Step::Call {
        request: BackendRequest::Presign(presign_download(bucket, key)),
        pending: Pending::SignedUrl,
    }
}

/// Takes the step on the signing of a delete.
pub fn delete_url(
    filename: Option<String>,
    part: &Option<String>,
    idx: &Option<String>,
    bucket: &str,
    base_path: &str,
) -> (step: Step)
    ensures
        step@ == plain_url_spec(
            Verb::Delete,
            filename.deep_view(),
            part.deep_view(),
            idx.deep_view(),
            bucket@,
            base_path@,
        ),
{
    let filename = match filled(filename) {
        Some(text) => text,
        None => {
            return refusal("filename is required");
        },
    };
    let key = object_key(base_path, part, idx, filename.as_str());
    Step::Call {
        request: BackendRequest::Presign(presign_delete(bucket, key)),
        pending: Pending::SignedUrl,
    }
}

/// The response to a preflight request: no body, and the cross-origin headers.
pub fn preflight() -> (response: Response)
    ensures
        response@ == preflight_spec(),
{
    let mut response = Response { status: 200, headers: Vec::new(), body: Body::Empty };
    assert(response.headers.deep_view() =~= Seq::<(Seq<char>, Seq<char>)>::empty());
    add_cors_headers(&mut response);
    response
}

/// Takes the gateway's step on a request: the response, where the gateway can
/// give it at once, or the one backend request that the route calls for.
///
/// Every request but a preflight needs the bucket's name from the environment.
pub fn function_handler(req: Request, env: &Environment) -> (step: Step)
    requires
        req.method@ != "OPTIONS"@ ==> env.s3_bucket is Some,
    ensures
        step@ == handle(req@, env@),
{
    let found = route(req.method.as_str(), req.path.as_str());
    let bucket = match &env.s3_bucket {
        Some(name) => name.clone(),
        None => String::new(),
    };
    let base_path = match &env.s3_path {
        Some(path) => path.clone(),
        None => String::new(),
    };
    let part = query_param(&req, "part");
    let idx = query_param(&req, "idx");
    match found {
        Route::Preflight => Step::Respond(preflight()),
        Route::Health => Step::Respond(text_response(200, String::from_str("OK"))),
        Route::ItemGet => record_lookup(part, idx),
        Route::ItemPost => match body_object(&req.body) {
            Ok(members) => record_write(&members),
            Err(message) => refusal(message.as_str()),
        },
        Route::ItemDelete => record_delete(part, idx),
        Route::EntityList => Step::Call {
            request: BackendRequest::Scan(scan_all()),
            pending: Pending::EntityRead,
        },
        Route::EntityGet(id) => Step::Call {
            request: BackendRequest::Query(query_by_id(id)),
            pending: Pending::EntityRead,
        },
        Route::EntityPost => match body_object(&req.body) {
            Ok(members) => entity_save(&members),
            Err(message) => refusal(message.as_str()),
        },
        Route::EntityDelete(id) => Step::Call {
            request: BackendRequest::DeleteItem(delete_by_id(id.clone())),
            pending: Pending::EntityDelete { id },
        },
        Route::ObjectList => object_list(&part, &idx, bucket.as_str(), base_path.as_str()),
        Route::UploadUrl => upload_url(
            query_param(&req, "filename"),
            query_param(&req, "contentType"),
            &part,
            &idx,
            bucket.as_str(),
            base_path.as_str(),
        ),
        Route::DownloadUrl => download_url(
            query_param(&req, "filename"),
            &part,
            &idx,
            bucket.as_str(),
            base_path.as_str(),
        ),
        Route::DeleteUrl => delete_url(
            query_param(&req, "filename"),
            &part,
            &idx,
            bucket.as_str(),
            base_path.as_str(),
        ),
        Route::NotFound => {
            let mut message = String::from_str("not found: ");
            message.append(req.method.as_str());
            message.append(" ");
            message.append(req.path.as_str());
            Step::Respond(text_response(404, message))
        },
    }
}

/// Writes a listing as a JSON object.
pub fn write_listing(folders: &Vec<String>, files: &Vec<String>) -> (out: String)
    ensures
        out@ == listing_json(folders.deep_view(), files.deep_view()),
{
    let mut out = String::from_str("{\"files\":");
    out.append(write_string_array(files).as_str());
    out.append(",\"folders\":");
    out.append(write_string_array(folders).as_str());
    out.append("}");
    out
}

/// Shapes the response once the backend's reply to the pending request is in.
pub fn complete(pending: Pending, reply: BackendReply) -> (response: Response)
    ensures
        response@ == completed(pending@, reply@),
{
    match pending {
        Pending::ItemLookup => match reply {
            BackendReply::Items(items) => match get_item_value(items) {
                Some(value) => text_response(200, value),
                None => text_response(200, String::from_str("Value not found")),
            },
            _ => text_response(500, String::from_str("dynamodb error")),
        },
        Pending::ItemChange => match reply {
            BackendReply::Done => text_response(200, String::from_str("Success")),
            _ => text_response(500, String::from_str("dynamodb error")),
        },
        Pending::EntityRead => match reply {
            BackendReply::Items(items) => {
                let found = entities_from_items(&items);
                json_response(200, write_entities(&found))
            },
            _ => text_response(500, String::from_str("dynamodb error")),
        },
        Pending::EntitySave => match reply {
            BackendReply::Done => text_response(
                200,
                String::from_str("Entity saved successfully."),
            ),
            _ => text_response(500, String::from_str("dynamodb error")),
        },
        Pending::EntityDelete { id } => match reply {
            BackendReply::Done => {
                let mut message = String::from_str("Entity deleted successfully. (");
                message.append(id.as_str());
                message.append(")");
                text_response(200, message)
            },
            _ => text_response(500, String::from_str("dynamodb error")),
        },
        Pending::ObjectList { prefix } => match reply {
            BackendReply::Objects { common_prefixes, contents } => {
                let listing = list_objects(prefix.as_str(), &common_prefixes, &contents);
                json_response(200, write_listing(&listing.0, &listing.1))
            },
            _ => text_response(500, String::from_str("s3 error")),
        },
        Pending::SignedUrl => match reply {
            BackendReply::Url(url) => text_response(200, url),
            _ => text_response(500, String::from_str("s3 error")),
        },
    }
}

} // verus!
