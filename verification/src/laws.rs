//! What holds of the router on every request and every reply.

use vstd::prelude::*;

use crate::backend::{BackendReplyView, BackendRequestView, PendingView, StepView};
use crate::dynamodb::{
    distinct_names, entity_key, get_item_query_spec, put_item_spec, query_by_id_spec,
    record_key, record_key_names, upsert_spec, AttributeValueView, ItemView,
};
use crate::http_handler::{
    body_object_spec, completed, cors, entity_id, entity_save_spec, handle, object_key_spec,
    record_delete_spec, record_lookup_spec, record_write_spec, refuse, route_spec, scope_spec,
    text_response_spec, upload_key_spec, RouteView,
};
use crate::json::{member_text, MembersView};
use crate::memory::key_item;
use crate::message::{
    with_header, without_header, BodyView, EnvironmentView, HeadersView, RequestView,
    ResponseView,
};
use crate::query::param;
use crate::table_laws::{lemma_attribute_names_differ, lemma_written_item};
use crate::text::{has_suffix, provided};

verus! {

/// The three cross-origin headers.
pub open spec fn cors_headers() -> HeadersView {
    seq![
        ("Access-Control-Allow-Origin"@, "*"@),
        ("Access-Control-Allow-Methods"@, "GET,POST,DELETE,OPTIONS"@),
        ("Access-Control-Allow-Headers"@, "Content-Type,Authorization"@),
    ]
}

/// `headers` without the entries that bear the name of a cross-origin header.
pub open spec fn without_cors(headers: HeadersView) -> HeadersView {
    without_header(
        without_header(
            without_header(headers, "Access-Control-Allow-Origin"@),
            "Access-Control-Allow-Methods"@,
        ),
        "Access-Control-Allow-Headers"@,
    )
}

/// `headers` ends with the three cross-origin headers.
pub open spec fn closes_with_cors(headers: HeadersView) -> bool {
    headers.len() >= 3 && headers.subrange(headers.len() - 3, headers.len() as int)
        == cors_headers()
}

/// Dropping a name from a list that was built by appending.
proof fn lemma_without_push(headers: HeadersView, entry: (Seq<char>, Seq<char>), name: Seq<char>)
    ensures
        without_header(headers.push(entry), name) == if entry.0 == name {
            without_header(headers, name)
        } else {
            without_header(headers, name).push(entry)
        },
{
    let grown = headers.push(entry);
    assert(grown.drop_last() =~= headers);
    assert(grown.last() == entry);
    if entry.0 == name {
        assert(without_header(headers, name) + Seq::<(Seq<char>, Seq<char>)>::empty()
            =~= without_header(headers, name));
    } else {
        assert(without_header(headers, name) + seq![entry] =~= without_header(
            headers,
            name,
        ).push(entry));
    }
}

/// The names of the three cross-origin headers are different strings.
proof fn lemma_cors_names_differ()
    ensures
        "Access-Control-Allow-Origin"@ != "Access-Control-Allow-Methods"@,
        "Access-Control-Allow-Origin"@ != "Access-Control-Allow-Headers"@,
        "Access-Control-Allow-Methods"@ != "Access-Control-Allow-Headers"@,
{
    reveal_strlit("Access-Control-Allow-Origin");
    reveal_strlit("Access-Control-Allow-Methods");
    reveal_strlit("Access-Control-Allow-Headers");
    assert("Access-Control-Allow-Origin"@.len() == 27);
    assert("Access-Control-Allow-Methods"@.len() == 28);
    assert("Access-Control-Allow-Headers"@.len() == 28);
    assert("Access-Control-Allow-Methods"@[21] == 'M');
    assert("Access-Control-Allow-Headers"@[21] == 'H');
}

/// Setting the cross-origin headers on any header list puts exactly these three
/// at its end and leaves no earlier entry under their names.
pub proof fn law_cors_headers_come_last(headers: HeadersView)
    ensures
        cors(headers) == without_cors(headers) + cors_headers(),
        closes_with_cors(cors(headers)),
{
    lemma_cors_names_differ();
    let origin = ("Access-Control-Allow-Origin"@, "*"@);
    let methods = ("Access-Control-Allow-Methods"@, "GET,POST,DELETE,OPTIONS"@);
    let allowed = ("Access-Control-Allow-Headers"@, "Content-Type,Authorization"@);
    let h1 = without_header(headers, origin.0);
    lemma_without_push(h1, origin, methods.0);
    let h2 = without_header(h1, methods.0);
    lemma_without_push(h2, origin, allowed.0);
    lemma_without_push(h2.push(origin), methods, allowed.0);
    let h3 = without_header(h2, allowed.0);
    assert(cors(headers) =~= h3.push(origin).push(methods).push(allowed));
    assert(h3.push(origin).push(methods).push(allowed) =~= h3 + cors_headers());
    let all = cors(headers);
    assert(all.subrange(all.len() - 3, all.len() as int) =~= cors_headers());
}

/// A preflight request is answered at once, whatever its path, its query, its
/// body and the environment: `200`, no body, and the three cross-origin headers
/// and no others.
pub proof fn law_preflight(req: RequestView, env: EnvironmentView)
    requires
        req.method == "OPTIONS"@,
    ensures
        handle(req, env) == StepView::Respond(
            ResponseView { status: 200, headers: cors_headers(), body: BodyView::Empty },
        ),
{
    law_cors_headers_come_last(Seq::empty());
    assert(without_cors(Seq::empty()) =~= Seq::<(Seq<char>, Seq<char>)>::empty());
    assert(without_cors(Seq::empty()) + cors_headers() =~= cors_headers());
}

/// Every response that the gateway gives, at once or after a backend's reply,
/// ends its headers with the three cross-origin headers.
pub proof fn law_every_response_carries_cors(
    req: RequestView,
    env: EnvironmentView,
    pending: PendingView,
    reply: BackendReplyView,
)
    ensures
        handle(req, env) matches StepView::Respond(response) ==> closes_with_cors(
            response.headers,
        ),
        closes_with_cors(completed(pending, reply).headers),
{
    law_cors_headers_come_last(Seq::empty());
    law_cors_headers_come_last(
        with_header(Seq::empty(), "content-type"@, "application/json; charset=utf-8"@),
    );
}

/// A request that fits no route is answered with `404` and a body that repeats
/// its method and its path.
pub proof fn law_not_found(req: RequestView, env: EnvironmentView)
    requires
        route_spec(req.method, req.path) is NotFound,
    ensures
        handle(req, env) == StepView::Respond(
            text_response_spec(404, "not found: "@ + req.method + " "@ + req.path),
        ),
{
}

/// The entity routes take their `id` from the path behind `/dynamodb/`, and
/// never shadow the record routes: `item` is no entity to either, and `list` is
/// none to `GET`.
pub proof fn law_entity_routes(method: Seq<char>, path: Seq<char>)
    ensures
        route_spec(method, path) matches RouteView::EntityGet(id) ==> method == "GET"@ && path
            == "/dynamodb/"@ + id && id != "item"@ && id != "list"@,
        route_spec(method, path) matches RouteView::EntityDelete(id) ==> method == "DELETE"@
            && path == "/dynamodb/"@ + id && id != "item"@,
{
    reveal_strlit("/dynamodb/");
    reveal_strlit("/dynamodb/item");
    reveal_strlit("/dynamodb/list");
    reveal_strlit("item");
    reveal_strlit("list");
    reveal_strlit("GET");
    reveal_strlit("DELETE");
    if entity_id(path) is Some {
        let id = entity_id(path)->0;
        assert(path =~= "/dynamodb/"@ + id);
        if id == "item"@ {
            assert(path =~= "/dynamodb/item"@);
        }
        if id == "list"@ {
            assert(path =~= "/dynamodb/list"@);
        }
    }
}

/// The key of an upload ends with the file name as it was given. Right before
/// it stands `part/idx/` where both were provided, and else the `upload/` folder
/// itself. The key of a download or a delete ends with the file name too.
pub proof fn law_keys_end_with_the_filename(
    base_path: Seq<char>,
    part: Option<Seq<char>>,
    idx: Option<Seq<char>>,
    filename: Seq<char>,
)
    ensures
        has_suffix(upload_key_spec(base_path, part, idx, filename), filename),
        provided(part) && provided(idx) ==> upload_key_spec(base_path, part, idx, filename)
            == base_path + "upload/"@ + part->0 + "/"@ + idx->0 + "/"@ + filename,
        !(provided(part) && provided(idx)) ==> upload_key_spec(base_path, part, idx, filename)
            == base_path + "upload/"@ + filename,
        has_suffix(object_key_spec(base_path, part, idx, filename), filename),
{
    let plain = object_key_spec(base_path, part, idx, filename);
    assert(plain.subrange(plain.len() - filename.len(), plain.len() as int) =~= filename);
    let key = upload_key_spec(base_path, part, idx, filename);
    let head = base_path + "upload/"@ + scope_spec(part, idx);
    assert(key == head + filename);
    assert(key.subrange(key.len() - filename.len(), key.len() as int) =~= filename);
    if provided(part) && provided(idx) {
        assert(key =~= base_path + "upload/"@ + part->0 + "/"@ + idx->0 + "/"@ + filename);
    } else {
        assert(key =~= base_path + "upload/"@ + filename);
    }
}

/// The key attributes are non-empty strings, each of them.
pub open spec fn filled(key: ItemView) -> bool {
    forall|at: int|
        0 <= at < key.len() ==> ((#[trigger] key[at]).1 matches AttributeValueView::S(text)
            && text.len() > 0)
}

/// The key that `request` names, and the key of the item that it writes, hold
/// non-empty strings only.
pub open spec fn names_a_filled_key(request: BackendRequestView) -> bool {
    match request {
        BackendRequestView::Query(query) => filled(query.key),
        BackendRequestView::DeleteItem(delete) => filled(delete.key),
        BackendRequestView::UpdateItem(update) => filled(update.key),
        BackendRequestView::PutItem(put) => key_item(put.item, record_key_names()) matches Some(
            key,
        ) && filled(key),
        _ => true,
    }
}

/// Every attribute list of `request` bears each name once.
pub open spec fn names_each_attribute_once(request: BackendRequestView) -> bool {
    match request {
        BackendRequestView::Query(query) => distinct_names(query.key) && distinct_names(
            query.expression_attribute_values,
        ),
        BackendRequestView::PutItem(put) => distinct_names(put.item),
        BackendRequestView::DeleteItem(delete) => distinct_names(delete.key),
        BackendRequestView::UpdateItem(update) => distinct_names(update.key) && distinct_names(
            update.set,
        ) && distinct_names(update.expression_attribute_values),
        _ => true,
    }
}

/// On the record routes a key part that is missing or empty is refused before
/// any backend is asked, `part` before `idx`; with both parts there, the lookup
/// and the delete go to the backend.
pub proof fn law_key_parts_are_required(req: RequestView, env: EnvironmentView)
    requires
        route_spec(req.method, req.path) is ItemGet || route_spec(req.method, req.path)
            is ItemDelete,
    ensures
        !provided(param(req.query, "part"@)) ==> handle(req, env) == refuse("part is required"@),
        provided(param(req.query, "part"@)) && !provided(param(req.query, "idx"@)) ==> handle(
            req,
            env,
        ) == refuse("idx is required"@),
        provided(param(req.query, "part"@)) && provided(param(req.query, "idx"@)) ==> handle(
            req,
            env,
        ) is Call,
{
}

/// The requests for the record `(part, idx)` name a filled key, and each
/// attribute once.
proof fn lemma_record_requests(
    part: Seq<char>,
    idx: Seq<char>,
    value: Seq<char>,
    pk: Option<Seq<char>>,
)
    requires
        part.len() > 0,
        idx.len() > 0,
    ensures
        filled(record_key(part, idx)),
        distinct_names(record_key(part, idx)),
        distinct_names(get_item_query_spec(part, idx).expression_attribute_values),
        key_item(put_item_spec(part, idx, value, pk).item, record_key_names()) == Some(
            record_key(part, idx),
        ),
        distinct_names(put_item_spec(part, idx, value, pk).item),
{
    lemma_attribute_names_differ();
    lemma_written_item(part, idx, value, pk);
}

/// The requests for the entity `id` name a filled key, and each attribute once.
proof fn lemma_entity_requests(id: Seq<char>, value: Option<Seq<char>>)
    requires
        id.len() > 0,
    ensures
        filled(entity_key(id)),
        distinct_names(entity_key(id)),
        distinct_names(query_by_id_spec(id).expression_attribute_values),
        distinct_names(upsert_spec(id, value).set),
        distinct_names(upsert_spec(id, value).expression_attribute_values),
{
}

/// The same of whatever the record routes ask.
proof fn lemma_record_steps(
    part: Option<Seq<char>>,
    idx: Option<Seq<char>>,
    members: MembersView,
)
    ensures
        record_lookup_spec(part, idx) matches StepView::Call { request, .. }
            ==> names_a_filled_key(request) && names_each_attribute_once(request),
        record_delete_spec(part, idx) matches StepView::Call { request, .. }
            ==> names_a_filled_key(request) && names_each_attribute_once(request),
        record_write_spec(members) matches StepView::Call { request, .. } ==> names_a_filled_key(
            request,
        ) && names_each_attribute_once(request),
{
    if provided(part) && provided(idx) {
        lemma_record_requests(part->0, idx->0, Seq::empty(), None);
    }
    let part = member_text(members, "part"@);
    let idx = member_text(members, "idx"@);
    if provided(part) && provided(idx) && member_text(members, "value"@) is Some {
        lemma_record_requests(
            part->0,
            idx->0,
            member_text(members, "value"@)->0,
            member_text(members, "pk"@),
        );
    }
}

/// The same of what an upsert asks.
proof fn lemma_entity_save_step(members: MembersView)
    ensures
        entity_save_spec(members) matches StepView::Call { request, .. } ==> names_a_filled_key(
            request,
        ) && names_each_attribute_once(request),
{
    let id = member_text(members, "id"@);
    if provided(id) {
        lemma_entity_requests(id->0, member_text(members, "value"@));
    }
}

/// The same of whatever the gateway asks, route by route.
proof fn lemma_table_requests(req: RequestView, env: EnvironmentView)
    ensures
        handle(req, env) matches StepView::Call { request, .. } ==> names_a_filled_key(request)
            && names_each_attribute_once(request),
{
    let part = param(req.query, "part"@);
    let idx = param(req.query, "idx"@);
    match route_spec(req.method, req.path) {
        RouteView::ItemGet => {
            lemma_record_steps(part, idx, Seq::empty());
        },
        RouteView::ItemDelete => {
            lemma_record_steps(part, idx, Seq::empty());
        },
        RouteView::ItemPost => {
            if let Ok(members) = body_object_spec(req.body) {
                lemma_record_steps(part, idx, members);
            }
        },
        RouteView::EntityPost => {
            if let Ok(members) = body_object_spec(req.body) {
                lemma_entity_save_step(members);
            }
        },
        RouteView::EntityGet(id) => {
            lemma_entity_requests(id, None);
        },
        RouteView::EntityDelete(id) => {
            lemma_entity_requests(id, None);
        },
        _ => {},
    }
}

/// No request reaches a table with an empty key: whatever the gateway asks of a
/// table, the key that it names, and the key of the item that it writes, hold
/// non-empty strings only.
pub proof fn law_keys_are_never_empty(req: RequestView, env: EnvironmentView)
    ensures
        handle(req, env) matches StepView::Call { request, .. } ==> names_a_filled_key(request),
{
    lemma_table_requests(req, env);
}

/// Whatever the gateway asks of a table, no attribute list in the request names
/// an attribute twice, so that the lists mean the same when read as maps.
pub proof fn law_requests_name_each_attribute_once(req: RequestView, env: EnvironmentView)
    ensures
        handle(req, env) matches StepView::Call { request, .. } ==> names_each_attribute_once(
            request,
        ),
{
    lemma_table_requests(req, env);
}

} // verus!
