use vstd::prelude::*;

verus! {

/// The answer to a health probe.
#[derive(Clone, Debug)]
pub struct HttpReply {
    pub status: u16,
    pub content_type: String,
    pub body: String,
}

pub open spec fn health_body() -> Seq<char> {
    "{\"status\":\"ok\",\"service\":\"proxy-service\"}"@
}

pub open spec fn json_content_type() -> Seq<char> {
    "application/json"@
}

/// Answers a health probe: `200 OK` with a fixed JSON body, whatever the
/// method and path.
pub fn handle_http_request(_method: &str, _path: &str) -> (r: HttpReply)
    ensures
        r.status == 200,
        r.content_type@ == json_content_type(),
        r.body@ == health_body(),
{
    HttpReply {
        status: 200,
        content_type: "application/json".to_owned(),
        body: "{\"status\":\"ok\",\"service\":\"proxy-service\"}".to_owned(),
    }
}

} // verus!
