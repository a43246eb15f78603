//! The plain values that pass between the gateway and its host: a request, the
//! process environment, and a response.

use vstd::prelude::*;

verus! {

/// A header list: names with their values, in the order in which they were set.
pub type Headers = Vec<(String, String)>;

/// The mathematical form of `Headers`.
pub type HeadersView = Seq<(Seq<char>, Seq<char>)>;

/// The body of a request or of a response. `Unsupported` stands for a request
/// body of a kind that the gateway does not read.
#[derive(Debug, Clone, PartialEq, Eq)]
pub enum Body {
    Empty,
    Text(String),
    Binary(Vec<u8>),
    Unsupported,
}

/// The mathematical form of a `Body`.
pub enum BodyView {
    Empty,
    Text(Seq<char>),
    Binary(Seq<u8>),
    Unsupported,
}

impl DeepView for Body {
    type V = BodyView;

    open spec fn deep_view(&self) -> BodyView {
        match self {
            Body::Empty => BodyView::Empty,
            Body::Text(s) => BodyView::Text(s@),
            Body::Binary(b) => BodyView::Binary(b@),
            Body::Unsupported => BodyView::Unsupported,
        }
    }
}

impl View for Body {
    type V = BodyView;

    open spec fn view(&self) -> BodyView {
        self.deep_view()
    }
}

/// An incoming request: method, path, the raw query string where the URL has
/// one, and the body.
#[derive(Debug, Clone, PartialEq, Eq)]
pub struct Request {
    pub method: String,
    pub path: String,
    pub query: Option<String>,
    pub body: Body,
}

/// The mathematical form of a `Request`.
pub struct RequestView {
    pub method: Seq<char>,
    pub path: Seq<char>,
    pub query: Option<Seq<char>>,
    pub body: BodyView,
}

impl DeepView for Request {
    type V = RequestView;

    open spec fn deep_view(&self) -> RequestView {
        RequestView {
            method: self.method@,
            path: self.path@,
            query: self.query.deep_view(),
            body: self.body@,
        }
    }
}

impl View for Request {
    type V = RequestView;

    open spec fn view(&self) -> RequestView {
        self.deep_view()
    }
}

/// What the process environment holds under `s3_bucket` and `s3_path`.
#[derive(Debug, Clone, PartialEq, Eq)]
pub struct Environment {
    pub s3_bucket: Option<String>,
    pub s3_path: Option<String>,
}

/// The mathematical form of an `Environment`.
pub struct EnvironmentView {
    pub s3_bucket: Option<Seq<char>>,
    pub s3_path: Option<Seq<char>>,
}

impl DeepView for Environment {
    type V = EnvironmentView;

    open spec fn deep_view(&self) -> EnvironmentView {
        EnvironmentView {
            s3_bucket: self.s3_bucket.deep_view(),
            s3_path: self.s3_path.deep_view(),
        }
    }
}

impl View for Environment {
    type V = EnvironmentView;

    open spec fn view(&self) -> EnvironmentView {
        self.deep_view()
    }
}

/// An outgoing response.
#[derive(Debug, Clone, PartialEq, Eq)]
pub struct Response {
    pub status: u16,
    pub headers: Headers,
    pub body: Body,
}

/// The mathematical form of a `Response`.
pub struct ResponseView {
    pub status: u16,
    pub headers: HeadersView,
    pub body: BodyView,
}

impl DeepView for Response {
    type V = ResponseView;

    open spec fn deep_view(&self) -> ResponseView {
        ResponseView {
            status: self.status,
            headers: self.headers.deep_view(),
            body: self.body@,
        }
    }
}

impl View for Response {
    type V = ResponseView;

    open spec fn view(&self) -> ResponseView {
        self.deep_view()
    }
}

/// `headers` without the entries named `name`.
pub open spec fn without_header(headers: HeadersView, name: Seq<char>) -> HeadersView
    decreases headers.len(),
{
    if headers.len() == 0 {
        Seq::empty()
    } else {
        without_header(headers.drop_last(), name) + if headers.last().0 == name {
            Seq::empty()
        } else {
            seq![headers.last()]
        }
    }
}

/// `headers` after `name` is set to `value`: earlier entries of that name go, and
/// the new one comes last.
pub open spec fn with_header(headers: HeadersView, name: Seq<char>, value: Seq<char>)
    -> HeadersView {
    without_header(headers, name).push((name, value))
}

/// Sets the header `name` to `value`, in place of any entry of that name. Names
/// are compared as they are written.
pub fn insert_header(headers: &mut Headers, name: &str, value: &str)
    ensures
        final(headers).deep_view() == with_header(old(headers).deep_view(), name@, value@),
{
    let mut kept: Headers = Vec::new();
    let mut i: usize = 0;
    assert(headers.deep_view().take(0) =~= Seq::<(Seq<char>, Seq<char>)>::empty());
    assert(kept.deep_view() =~= Seq::<(Seq<char>, Seq<char>)>::empty());
    while i < headers.len()
        invariant
            i <= headers.len(),
            *headers == *old(headers),
            headers.deep_view().len() == headers.len(),
            kept.deep_view() == without_header(headers.deep_view().take(i as int), name@),
        decreases headers.len() - i,
    {
        proof {
            let now = headers.deep_view().take(i + 1);
            assert(now.drop_last() =~= headers.deep_view().take(i as int));
            assert(now.last() == headers[i as int].deep_view());
        }
        let ghost before = kept.deep_view();
        if !crate::text::same_text(headers[i].0.as_str(), name) {
            kept.push((headers[i].0.clone(), headers[i].1.clone()));
            assert(kept.deep_view() =~= before + seq![headers[i as int].deep_view()]);
        } else {
            assert(kept.deep_view() =~= before + Seq::<(Seq<char>, Seq<char>)>::empty());
        }
        i += 1;
    }
    assert(headers.deep_view().take(headers.len() as int) =~= headers.deep_view());
    let ghost before = kept.deep_view();
    kept.push((name.to_owned(), value.to_owned()));
    assert(kept.deep_view() =~= before.push((name@, value@)));
    *headers = kept;
}

} // verus!
