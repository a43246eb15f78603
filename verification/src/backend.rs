//! What the gateway asks of its two backends, what they answer, and the step
//! that the gateway takes on a request: it either answers at once or puts one
//! request to a backend and waits.

use vstd::prelude::*;

use crate::dynamodb::{
    DeleteItemInput, DeleteItemInputView, Item, ItemView, PutItemInput, PutItemInputView,
    QueryInput, QueryInputView, ScanInput, ScanInputView, UpdateItemInput, UpdateItemInputView,
};
use crate::message::{Response, ResponseView};
use crate::s3::{ListObjectsInput, ListObjectsInputView, PresignInput, PresignInputView};

verus! {

/// One request to a backend.
#[derive(Debug, Clone, PartialEq, Eq)]
pub enum BackendRequest {
    Query(QueryInput),
    PutItem(PutItemInput),
    DeleteItem(DeleteItemInput),
    Scan(ScanInput),
    UpdateItem(UpdateItemInput),
    ListObjects(ListObjectsInput),
    Presign(PresignInput),
}

/// The mathematical form of a `BackendRequest`.
pub enum BackendRequestView {
    Query(QueryInputView),
    PutItem(PutItemInputView),
    DeleteItem(DeleteItemInputView),
    Scan(ScanInputView),
    UpdateItem(UpdateItemInputView),
    ListObjects(ListObjectsInputView),
    Presign(PresignInputView),
}

impl DeepView for BackendRequest {
    type V = BackendRequestView;

    open spec fn deep_view(&self) -> BackendRequestView {
        match self {
            BackendRequest::Query(q) => BackendRequestView::Query(q@),
            BackendRequest::PutItem(p) => BackendRequestView::PutItem(p@),
            BackendRequest::DeleteItem(d) => BackendRequestView::DeleteItem(d@),
            BackendRequest::Scan(s) => BackendRequestView::Scan(s@),
            BackendRequest::UpdateItem(u) => BackendRequestView::UpdateItem(u@),
            BackendRequest::ListObjects(l) => BackendRequestView::ListObjects(l@),
            BackendRequest::Presign(p) => BackendRequestView::Presign(p@),
        }
    }
}

impl View for BackendRequest {
    type V = BackendRequestView;

    open spec fn view(&self) -> BackendRequestView {
        self.deep_view()
    }
}

/// What came back from a backend. `Failed` stands for every error; `Items` for
/// the answer to a query or a scan; `Done` for a write, an update or a delete that
/// went through; `Objects` for the answer to a listing; `Url` for a signed URL.
#[derive(Debug, Clone, PartialEq, Eq)]
pub enum BackendReply {
    Failed,
    Items(Option<Vec<Item>>),
    Done,
    Objects { common_prefixes: Option<Vec<Option<String>>>, contents: Option<Vec<Option<String>>> },
    Url(String),
}

/// The mathematical form of a `BackendReply`.
pub enum BackendReplyView {
    Failed,
    Items(Option<Seq<ItemView>>),
    Done,
    Objects {
        common_prefixes: Option<Seq<Option<Seq<char>>>>,
        contents: Option<Seq<Option<Seq<char>>>>,
    },
    Url(Seq<char>),
}

impl DeepView for BackendReply {
    type V = BackendReplyView;

    open spec fn deep_view(&self) -> BackendReplyView {
        match self {
            BackendReply::Failed => BackendReplyView::Failed,
            BackendReply::Items(items) => BackendReplyView::Items(items.deep_view()),
            BackendReply::Done => BackendReplyView::Done,
            BackendReply::Objects { common_prefixes, contents } => BackendReplyView::Objects {
                common_prefixes: common_prefixes.deep_view(),
                contents: contents.deep_view(),
            },
            BackendReply::Url(url) => BackendReplyView::Url(url@),
        }
    }
}

impl View for BackendReply {
    type V = BackendReplyView;

    open spec fn view(&self) -> BackendReplyView {
        self.deep_view()
    }
}

/// What the gateway is waiting for while a backend works: enough to shape the
/// response once the reply is in.
#[derive(Debug, Clone, PartialEq, Eq)]
pub enum Pending {
    /// The value of a record was asked for.
    ItemLookup,
    /// A record is being written or deleted.
    ItemChange,
    /// Entities were asked for.
    EntityRead,
    /// An entity is being saved.
    EntitySave,
    /// The entity `id` is being deleted.
    EntityDelete { id: String },
    /// The keys under `prefix` were asked for.
    ObjectList { prefix: String },
    /// A URL is being signed.
    SignedUrl,
}

/// The mathematical form of a `Pending`.
pub enum PendingView {
    ItemLookup,
    ItemChange,
    EntityRead,
    EntitySave,
    EntityDelete { id: Seq<char> },
    ObjectList { prefix: Seq<char> },
    SignedUrl,
}

impl DeepView for Pending {
    type V = PendingView;

    open spec fn deep_view(&self) -> PendingView {
        match self {
            Pending::ItemLookup => PendingView::ItemLookup,
            Pending::ItemChange => PendingView::ItemChange,
            Pending::EntityRead => PendingView::EntityRead,
            Pending::EntitySave => PendingView::EntitySave,
            Pending::EntityDelete { id } => PendingView::EntityDelete { id: id@ },
            Pending::ObjectList { prefix } => PendingView::ObjectList { prefix: prefix@ },
            Pending::SignedUrl => PendingView::SignedUrl,
        }
    }
}

impl View for Pending {
    type V = PendingView;

    open spec fn view(&self) -> PendingView {
        self.deep_view()
    }
}

/// The gateway's step on a request.
#[derive(Debug, Clone, PartialEq, Eq)]
pub enum Step {
    /// The response is ready.
    Respond(Response),
    /// `request` goes to a backend; the reply and `pending` give the response.
    Call { request: BackendRequest, pending: Pending },
}

/// The mathematical form of a `Step`.
pub enum StepView {
    Respond(ResponseView),
    Call { request: BackendRequestView, pending: PendingView },
}

impl DeepView for Step {
    type V = StepView;

    open spec fn deep_view(&self) -> StepView {
        match self {
            Step::Respond(response) => StepView::Respond(response@),
            Step::Call { request, pending } => StepView::Call {
                request: request@,
                pending: pending@,
            },
        }
    }
}

impl View for Step {
    type V = StepView;

    open spec fn view(&self) -> StepView {
        self.deep_view()
    }
}

} // verus!
