//! Descriptions of the requests that an adapter wants sent. Nothing here
//! performs a request: a description is handed to whoever owns the
//! connection.

use vstd::prelude::*;

verus! {

/// The view of a list of pairs of strings.
pub open spec fn pairs_view(pairs: Seq<(String, String)>) -> Seq<(Seq<char>, Seq<char>)> {
    Seq::new(pairs.len(), |i: int| (pairs[i].0@, pairs[i].1@))
}

/// What a `Json` value holds, with strings as character sequences.
pub enum JsonView {
    Null,
    Bool(bool),
    /// A whole number.
    Number(int),
    /// A number that is not whole.
    Fraction,
    Text(Seq<char>),
    /// A string whose characters are the JSON text of the value inside.
    Encoded(Box<JsonView>),
    List(Seq<JsonView>),
    Object(Seq<(Seq<char>, JsonView)>),
}

/// A JSON value as far as the platforms' payloads need one. The members of an
/// object keep their order.
#[derive(Debug)]
pub enum Json {
    Null,
    Bool(bool),
    Number(i64),
    Text(String),
    /// A string whose characters are the JSON text of the value inside.
    Encoded(Box<Json>),
    List(Vec<Json>),
    Object(Vec<(String, Json)>),
}

impl Json {
    /// The value with its strings as character sequences.
    pub open spec fn model(&self) -> JsonView
        decreases self,
    {
        match self {
            Json::Null => JsonView::Null,
            Json::Bool(b) => JsonView::Bool(*b),
            Json::Number(n) => JsonView::Number(*n as int),
            Json::Text(s) => JsonView::Text(s@),
            Json::Encoded(inner) => JsonView::Encoded(Box::new(inner.model())),
            Json::List(items) => JsonView::List(
                Seq::new(
                    items@.len(),
                    |i: int|
                        if 0 <= i < items@.len() {
                            items@[i].model()
                        } else {
                            JsonView::Null
                        },
                ),
            ),
            Json::Object(members) => JsonView::Object(
                Seq::new(
                    members@.len(),
                    |i: int|
                        if 0 <= i < members@.len() {
                            (members@[i].0@, members@[i].1.model())
                        } else {
                            (Seq::empty(), JsonView::Null)
                        },
                ),
            ),
        }
    }
}

impl View for Json {
    type V = JsonView;

    open spec fn view(&self) -> JsonView {
        self.model()
    }
}

/// A JSON string.
pub fn json_text(s: &str) -> (j: Json)
    ensures
        j@ == JsonView::Text(s@),
{
    Json::Text(s.to_string())
}

/// A JSON string, or `null` where there is none.
pub fn json_opt_text(s: &Option<String>) -> (j: Json)
    ensures
        j@ == match *s {
            Some(t) => JsonView::Text(t@),
            None => JsonView::Null,
        },
{
    match s {
        Some(t) => Json::Text(t.clone()),
        None => Json::Null,
    }
}

/// A JSON number, or `null` where there is none.
pub fn json_opt_number(n: Option<i64>) -> (j: Json)
    ensures
        j@ == match n {
            Some(v) => JsonView::Number(v as int),
            None => JsonView::Null,
        },
{
    match n {
        Some(v) => Json::Number(v),
        None => Json::Null,
    }
}

/// Collects the members of a JSON object, in order.
pub struct ObjectBuilder {
    members: Vec<(String, Json)>,
}

impl View for ObjectBuilder {
    type V = Seq<(Seq<char>, JsonView)>;

    closed spec fn view(&self) -> Seq<(Seq<char>, JsonView)> {
        Seq::new(self.members@.len(), |i: int| (self.members@[i].0@, self.members@[i].1@))
    }
}

impl ObjectBuilder {
    /// No members yet.
    pub fn new() -> (b: ObjectBuilder)
        ensures
            b@ == Seq::<(Seq<char>, JsonView)>::empty(),
    {
        let b = ObjectBuilder { members: Vec::new() };
        assert(b@ =~= Seq::<(Seq<char>, JsonView)>::empty());
        b
    }

    /// Adds the member `key` with `value`.
    pub fn with(self, key: &str, value: Json) -> (b: ObjectBuilder)
        ensures
            b@ == self@.push((key@, value@)),
    {
        let mut members = self.members;
        members.push((key.to_string(), value));
        let b = ObjectBuilder { members };
        assert(b@ =~= self@.push((key@, value@)));
        b
    }

    /// Adds the string member `key`.
    pub fn text(self, key: &str, value: &str) -> (b: ObjectBuilder)
        ensures
            b@ == self@.push((key@, JsonView::Text(value@))),
    {
        self.with(key, Json::Text(value.to_string()))
    }

    /// Adds the number member `key`.
    pub fn number(self, key: &str, value: i64) -> (b: ObjectBuilder)
        ensures
            b@ == self@.push((key@, JsonView::Number(value as int))),
    {
        self.with(key, Json::Number(value))
    }

    /// Adds the boolean member `key`.
    pub fn flag(self, key: &str, value: bool) -> (b: ObjectBuilder)
        ensures
            b@ == self@.push((key@, JsonView::Bool(value))),
    {
        self.with(key, Json::Bool(value))
    }

    /// The object of the members added so far.
    pub fn build(self) -> (j: Json)
        ensures
            j@ == JsonView::Object(self@),
    {
        let j = Json::Object(self.members);
        assert(j@->Object_0 =~= self@);
        j
    }
}

/// A JSON array of `items`.
pub fn json_list(items: Vec<Json>) -> (j: Json)
    ensures
        j@ == JsonView::List(Seq::new(items@.len(), |i: int| items@[i]@)),
{
    let ghost expected = Seq::new(items@.len(), |i: int| items@[i]@);
    let j = Json::List(items);
    assert(j@->List_0 =~= expected);
    j
}

/// How a request is made.
#[derive(Debug, Clone, Copy, PartialEq, Eq, Structural)]
pub enum HttpMethod {
    Get,
    Post,
    Patch,
    Delete,
}

/// What a `MultipartForm` holds.
pub struct MultipartFormView {
    pub text_fields: Seq<(Seq<char>, Seq<char>)>,
    pub file_field: Seq<char>,
    pub file_path: Seq<char>,
    pub file_name: Seq<char>,
    pub mime_type: Option<Seq<char>>,
}

/// A form with one file. The file is named by its path: whoever sends the
/// form reads it.
#[derive(Debug)]
pub struct MultipartForm {
    pub text_fields: Vec<(String, String)>,
    pub file_field: String,
    pub file_path: String,
    pub file_name: String,
    pub mime_type: Option<String>,
}

impl View for MultipartForm {
    type V = MultipartFormView;

    open spec fn view(&self) -> MultipartFormView {
        MultipartFormView {
            text_fields: pairs_view(self.text_fields@),
            file_field: self.file_field@,
            file_path: self.file_path@,
            file_name: self.file_name@,
            mime_type: crate::im::gateway::opt_text(self.mime_type),
        }
    }
}

/// What an `HttpBody` holds.
pub enum HttpBodyView {
    Empty,
    Json(JsonView),
    Multipart(MultipartFormView),
}

/// The body of a request.
#[derive(Debug)]
pub enum HttpBody {
    Empty,
    Json(Json),
    Multipart(MultipartForm),
}

impl View for HttpBody {
    type V = HttpBodyView;

    open spec fn view(&self) -> HttpBodyView {
        match self {
            HttpBody::Empty => HttpBodyView::Empty,
            HttpBody::Json(j) => HttpBodyView::Json(j@),
            HttpBody::Multipart(f) => HttpBodyView::Multipart(f@),
        }
    }
}

/// What an `HttpRequest` holds.
pub struct HttpRequestView {
    pub method: HttpMethod,
    pub url: Seq<char>,
    pub query: Seq<(Seq<char>, Seq<char>)>,
    pub headers: Seq<(Seq<char>, Seq<char>)>,
    pub body: HttpBodyView,
}

/// One request to a platform: where it goes and what it carries.
#[derive(Debug)]
pub struct HttpRequest {
    pub method: HttpMethod,
    pub url: String,
    pub query: Vec<(String, String)>,
    pub headers: Vec<(String, String)>,
    pub body: HttpBody,
}

impl View for HttpRequest {
    type V = HttpRequestView;

    open spec fn view(&self) -> HttpRequestView {
        HttpRequestView {
            method: self.method,
            url: self.url@,
            query: pairs_view(self.query@),
            headers: pairs_view(self.headers@),
            body: self.body@,
        }
    }
}

/// The requests of a list, each by its view.
pub open spec fn requests_view(requests: Seq<HttpRequest>) -> Seq<HttpRequestView> {
    Seq::new(requests.len(), |i: int| requests[i]@)
}

/// A list of pairs of strings, built one pair at a time.
pub struct Pairs {
    pairs: Vec<(String, String)>,
}

impl View for Pairs {
    type V = Seq<(Seq<char>, Seq<char>)>;

    closed spec fn view(&self) -> Seq<(Seq<char>, Seq<char>)> {
        pairs_view(self.pairs@)
    }
}

impl Pairs {
    /// No pairs.
    pub fn new() -> (p: Pairs)
        ensures
            p@ == Seq::<(Seq<char>, Seq<char>)>::empty(),
    {
        let p = Pairs { pairs: Vec::new() };
        assert(p@ =~= Seq::<(Seq<char>, Seq<char>)>::empty());
        p
    }

    /// Adds the pair of `name` and `value`.
    pub fn with(self, name: &str, value: &str) -> (p: Pairs)
        ensures
            p@ == self@.push((name@, value@)),
    {
        let mut pairs = self.pairs;
        pairs.push((name.to_string(), value.to_string()));
        let p = Pairs { pairs };
        assert(p@ =~= self@.push((name@, value@)));
        p
    }

    /// The pairs as a vector.
    pub fn build(self) -> (v: Vec<(String, String)>)
        ensures
            pairs_view(v@) == self@,
    {
        self.pairs
    }
}

impl HttpRequest {
    /// A request without query, headers or body.
    pub fn new(method: HttpMethod, url: String) -> (r: HttpRequest)
        ensures
            r@ == (HttpRequestView {
                method,
                url: url@,
                query: Seq::empty(),
                headers: Seq::empty(),
                body: HttpBodyView::Empty,
            }),
    {
        let r = HttpRequest { method, url, query: Vec::new(), headers: Vec::new(), body: HttpBody::Empty };
        assert(pairs_view(r.query@) =~= Seq::empty());
        assert(pairs_view(r.headers@) =~= Seq::empty());
        r
    }

    /// The same request with a JSON body.
    pub fn json(self, body: Json) -> (r: HttpRequest)
        ensures
            r@ == (HttpRequestView { body: HttpBodyView::Json(body@), ..self@ }),
    {
        HttpRequest { body: HttpBody::Json(body), ..self }
    }

    /// The same request with a form as body.
    pub fn multipart(self, form: MultipartForm) -> (r: HttpRequest)
        ensures
            r@ == (HttpRequestView { body: HttpBodyView::Multipart(form@), ..self@ }),
    {
        HttpRequest { body: HttpBody::Multipart(form), ..self }
    }

    /// The same request with one more header.
    pub fn header(self, name: &str, value: &str) -> (r: HttpRequest)
        ensures
            r@ == (HttpRequestView { headers: self@.headers.push((name@, value@)), ..self@ }),
    {
        let mut headers = self.headers;
        headers.push((name.to_string(), value.to_string()));
        let r = HttpRequest { headers, ..self };
        assert(pairs_view(r.headers@) =~= self@.headers.push((name@, value@)));
        r
    }

    /// The same request with one more query parameter.
    pub fn param(self, name: &str, value: &str) -> (r: HttpRequest)
        ensures
            r@ == (HttpRequestView { query: self@.query.push((name@, value@)), ..self@ }),
    {
        let mut query = self.query;
        query.push((name.to_string(), value.to_string()));
        let r = HttpRequest { query, ..self };
        assert(pairs_view(r.query@) =~= self@.query.push((name@, value@)));
        r
    }
}

/// What an `HttpReply` holds.
pub struct HttpReplyView {
    pub status: u16,
    pub status_line: Seq<char>,
    pub body: Seq<char>,
}

/// The answer to a request: the status code, the status as the platform's
/// client prints it, and the body as text.
#[derive(Debug)]
pub struct HttpReply {
    pub status: u16,
    pub status_line: String,
    pub body: String,
}

impl View for HttpReply {
    type V = HttpReplyView;

    open spec fn view(&self) -> HttpReplyView {
        HttpReplyView { status: self.status, status_line: self.status_line@, body: self.body@ }
    }
}

/// Whether a status code reports success.
pub open spec fn is_success(status: u16) -> bool {
    200 <= status <= 299
}

impl HttpReply {
    /// Whether the status reports success.
    pub fn succeeded(&self) -> (b: bool)
        ensures
            b == is_success(self.status),
    {
        200 <= self.status && self.status <= 299
    }
}

} // verus!
