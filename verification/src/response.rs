use vstd::prelude::*;

verus! {

/// One resolved HTTP response: created per request, handed to the server,
/// then discarded.
pub struct HttpResponse {
    pub status: u16,
    pub content_type: String,
    pub etag: Option<String>,
    pub body: Vec<u8>,
}

/// The mathematical value of an [`HttpResponse`].
#[verifier::ext_equal]
pub struct SpecResponse {
    pub status: u16,
    pub content_type: Seq<char>,
    pub etag: Option<Seq<char>>,
    pub body: Seq<u8>,
}

impl View for HttpResponse {
    type V = SpecResponse;

    open spec fn view(&self) -> SpecResponse {
        SpecResponse {
            status: self.status,
            content_type: self.content_type@,
            etag: match self.etag {
                Option::Some(s) => Option::Some(s@),
                Option::None => Option::None,
            },
            body: self.body@,
        }
    }
}

/// The bytes of the ASCII text `Not found`.
pub open spec fn not_found_body() -> Seq<u8> {
    seq![78u8, 111u8, 116u8, 32u8, 102u8, 111u8, 117u8, 110u8, 100u8]
}

/// The response for a missing asset under the strict policy: plain-text 404.
pub open spec fn spec_not_found() -> SpecResponse {
    SpecResponse {
        status: 404,
        content_type: "text/plain"@,
        etag: Option::None,
        body: not_found_body(),
    }
}

/// Builds the plain-text 404 response.
pub fn not_found() -> (r: HttpResponse)
    ensures
        r@ == spec_not_found(),
{
    let mut body: Vec<u8> = Vec::new();
    body.push(78);
    body.push(111);
    body.push(116);
    body.push(32);
    body.push(102);
    body.push(111);
    body.push(117);
    body.push(110);
    body.push(100);
    proof {
        assert(body@ =~= not_found_body());
    }
    let r = HttpResponse {
        status: 404,
        content_type: "text/plain".to_owned(),
        etag: Option::None,
        body,
    };
    proof {
        assert(r@ =~= spec_not_found());
    }
    r
}

} // verus!
