use vstd::prelude::*;
use vstd::string::*;

verus! {

/// HTTP status `200 OK`.
pub const STATUS_OK: u16 = 200;

/// HTTP status `303 See Other`.
pub const STATUS_SEE_OTHER: u16 = 303;

/// One response header: its name and its raw value.
pub struct HeaderPair {
    pub name: String,
    pub value: Vec<u8>,
}

pub struct HeaderPairView {
    pub name: Seq<char>,
    pub value: Seq<u8>,
}

impl View for HeaderPair {
    type V = HeaderPairView;

    open spec fn view(&self) -> HeaderPairView {
        HeaderPairView { name: self.name@, value: self.value@ }
    }
}

impl HeaderPair {
    pub fn duplicate(&self) -> (r: HeaderPair)
        ensures
            r@ == self@,
    {
        let value = self.value.clone();
        assert(value@ =~= self.value@);
        HeaderPair { name: self.name.clone(), value }
    }
}

/// An HTTP response as plain values: status, headers in order, body bytes.
pub struct HttpResponse {
    pub status: u16,
    pub headers: Vec<HeaderPair>,
    pub body: Vec<u8>,
}

pub struct ResponseView {
    pub status: u16,
    pub headers: Seq<HeaderPairView>,
    pub body: Seq<u8>,
}

pub open spec fn headers_view(hs: Seq<HeaderPair>) -> Seq<HeaderPairView> {
    hs.map_values(|h: HeaderPair| h@)
}

impl View for HttpResponse {
    type V = ResponseView;

    open spec fn view(&self) -> ResponseView {
        ResponseView { status: self.status, headers: headers_view(self.headers@), body: self.body@ }
    }
}

/// The response that sends the client on to `to`.
pub open spec fn redirect_view(to: Seq<u8>) -> ResponseView {
    ResponseView {
        status: STATUS_SEE_OTHER,
        headers: seq![HeaderPairView { name: "location"@, value: to }],
        body: Seq::empty(),
    }
}

/// The response that carries `content` as an HTML page.
pub open spec fn html_view(content: Seq<u8>) -> ResponseView {
    ResponseView {
        status: STATUS_OK,
        headers: seq![
            HeaderPairView { name: "content-type"@, value: "text/html; charset=utf-8"@.map_values(|c: char| c as u8) },
        ],
        body: content,
    }
}

/// The empty `200 OK` response.
pub open spec fn empty_view() -> ResponseView {
    ResponseView { status: STATUS_OK, headers: Seq::empty(), body: Seq::empty() }
}

impl HttpResponse {
    pub fn duplicate(&self) -> (r: HttpResponse)
        ensures
            r@ == self@,
    {
        let mut headers: Vec<HeaderPair> = Vec::new();
        let mut i: usize = 0;
        while i < self.headers.len()
            invariant
                i <= self.headers.len(),
                headers.len() == i,
                forall|j: int| 0 <= j < i ==> #[trigger] headers[j]@ == self.headers[j]@,
            decreases self.headers.len() - i,
        {
            headers.push(self.headers[i].duplicate());
            i = i + 1;
        }
        let body = self.body.clone();
        assert(body@ =~= self.body@);
        assert(headers_view(headers@) =~= headers_view(self.headers@));
        HttpResponse { status: self.status, headers, body }
    }
}

/// Builds the responses that handlers return.
pub struct RenderBuilder {}

/// A fresh builder.
pub fn render() -> RenderBuilder {
    RenderBuilder::new()
}

/// The empty `200 OK` response.
pub fn empty() -> (r: HttpResponse)
    ensures
        r@ == empty_view(),
{
    let r = HttpResponse { status: STATUS_OK, headers: Vec::new(), body: Vec::new() };
    assert(r@.headers =~= Seq::<HeaderPairView>::empty());
    assert(r@.body =~= Seq::<u8>::empty());
    r
}

/// A `200 OK` response whose body is the text `t`.
pub fn text(t: &str) -> (r: HttpResponse)
    ensures
        r@ == (ResponseView { status: STATUS_OK, headers: Seq::empty(), body: t.spec_bytes() }),
{
    let r = HttpResponse { status: STATUS_OK, headers: Vec::new(), body: t.as_bytes_vec() };
    assert(r@.headers =~= Seq::<HeaderPairView>::empty());
    r
}

impl RenderBuilder {
    pub fn new() -> RenderBuilder {
        RenderBuilder {  }
    }

    /// A page of HTML.
    pub fn html(self, content: &str) -> (r: HttpResponse)
        ensures
            r@ == html_view(content.spec_bytes()),
    {
        let ct = "text/html; charset=utf-8";
        proof {
            reveal_strlit("text/html; charset=utf-8");
        }
        assert(ct.is_ascii());
        let value = ct.as_bytes_vec();
        proof {
            vstd::string::is_ascii_spec_bytes(ct);
            assert(value@ =~= "text/html; charset=utf-8"@.map_values(|c: char| c as u8));
        }
        let mut headers: Vec<HeaderPair> = Vec::new();
        headers.push(HeaderPair { name: String::from_str("content-type"), value });
        let r = HttpResponse { status: STATUS_OK, headers, body: content.as_bytes_vec() };
        assert(r@.headers =~= html_view(content.spec_bytes()).headers);
        r
    }

    /// A `303 See Other` to `to`, with an empty body.
    pub fn redirect(self, to: &str) -> (r: HttpResponse)
        ensures
            r@ == redirect_view(to.spec_bytes()),
    {
        let mut headers: Vec<HeaderPair> = Vec::new();
        headers.push(HeaderPair { name: String::from_str("location"), value: to.as_bytes_vec() });
        let r = HttpResponse { status: STATUS_SEE_OTHER, headers, body: Vec::new() };
        assert(r@.headers =~= redirect_view(to.spec_bytes()).headers);
        assert(r@.body =~= Seq::<u8>::empty());
        r
    }
}

} // verus!
