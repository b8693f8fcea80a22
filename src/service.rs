//! The fixed answers of the service: its greeting and its cross-origin
//! response headers.
use vstd::prelude::*;

verus! {

/// The greeting that the root route answers with.
pub fn hello() -> (r: String)
    ensures
        r@ == "Todo API written in Rust"@,
{
    String::from_str("Todo API written in Rust")
}

/// The catch-all handler of preflight requests: it does nothing, and the
/// response it leads to carries the cross-origin headers like any other.
pub fn all_options() {
}

/// The cross-origin policy added to every response: any origin, the common
/// methods, any request header, credentials allowed.
pub struct Cors;

/// The header pairs that every response carries, in the order they are set.
pub open spec fn cors_headers() -> Seq<(Seq<char>, Seq<char>)> {
    seq![
        ("Access-Control-Allow-Origin"@, "*"@),
        ("Access-Control-Allow-Methods"@, "POST, PATCH, PUT, DELETE, HEAD, OPTIONS, GET"@),
        ("Access-Control-Allow-Headers"@, "*"@),
        ("Access-Control-Allow-Credentials"@, "true"@),
    ]
}

impl Cors {
    /// The name under which the policy is attached to the responses.
    pub fn name(&self) -> (r: String)
        ensures
            r@ == "Cross-Origin-Resource-Sharing Fairing"@,
    {
        String::from_str("Cross-Origin-Resource-Sharing Fairing")
    }

    /// The headers to set on a response, as name and value.
    pub fn headers(&self) -> (r: Vec<(String, String)>)
        ensures
            r@.len() == cors_headers().len(),
            forall|k: int|
                0 <= k < r@.len() ==> (#[trigger] r@[k]).0@ == cors_headers()[k].0 && r@[k].1@
                    == cors_headers()[k].1,
    {
        let r = vec![
            (String::from_str("Access-Control-Allow-Origin"), String::from_str("*")),
            (
                String::from_str("Access-Control-Allow-Methods"),
                String::from_str("POST, PATCH, PUT, DELETE, HEAD, OPTIONS, GET"),
            ),
            (String::from_str("Access-Control-Allow-Headers"), String::from_str("*")),
            (String::from_str("Access-Control-Allow-Credentials"), String::from_str("true")),
        ];
        r
    }
}

} // verus!
