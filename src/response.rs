//! The response buffer of a request context.

use vstd::prelude::*;

verus! {

/// The bytes of a request.
pub type Request = Vec<u8>;

/// The bytes of a response.
pub type ResponseData = Vec<u8>;

/// A response buffer.
#[derive(Clone, Debug)]
pub struct Response(ResponseData);

impl View for Response {
    type V = Seq<u8>;

    closed spec fn view(&self) -> Seq<u8> {
        self.0@
    }
}

impl Default for Response {
    /// The empty response.
    fn default() -> (r: Response)
        ensures
            r@ == Seq::<u8>::empty(),
    {
        Response(Vec::new())
    }
}

impl Response {
    /// A response holding `data`.
    pub fn from(data: ResponseData) -> (r: Response)
        ensures
            r@ == data@,
    {
        Response(data)
    }

    /// The bytes of the response.
    pub fn get_response_data(&self) -> (r: &ResponseData)
        ensures
            r@ == self@,
    {
        &self.0
    }
}

} // verus!
