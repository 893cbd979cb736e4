//! The two HTTP entry shapes, path-based GET and JSON-body POST, reduced to
//! one call and routed.

use vstd::prelude::*;
use crate::dispatch::{dispatched, BodyField, unexpected_error, unexpected_view, unrouted_response, Response, Route, RPCCall};
use crate::hexcodec::{all_hex_digits, decode_hex, hex_decoded, is_hex_char, is_hex_digit, without_0x};
use crate::server::{selector_key, Server};

verus! {

/// The fields of a POST request body.
pub struct CCIPReadMiddlewareRequest {
    pub sender: String,
    pub calldata: String,
}

/// The text without `suffix` at its end, if it ends so.
pub open spec fn strip_suffix_spec(text: Seq<char>, suffix: Seq<char>) -> Seq<char> {
    if suffix.len() <= text.len() && text.skip(text.len() - suffix.len()) == suffix {
        text.take(text.len() - suffix.len())
    } else {
        text
    }
}

/// The bytes that call data text stands for: after the suffix is stripped,
/// `0x` and then an even number of hex digits and nothing else; `None` for
/// any other text.
pub open spec fn calldata_bytes(text: Seq<char>, suffix: Seq<char>) -> Option<Seq<u8>> {
    let t = strip_suffix_spec(text, suffix);
    if t.len() >= 2 && t[0] == '0' && t[1] == 'x' && t.skip(2).len() % 2 == 0 && all_hex_digits(
        t.skip(2),
    ) {
        Some(hex_decoded(t.skip(2)))
    } else {
        None
    }
}

/// The answer a gateway request gets without a handler being involved: 500
/// when its call data text does not parse, else as the call data routes.
pub open spec fn gateway_response<H>(server: Server<H>, calldata: Seq<char>) -> Option<
    (u16, BodyField, Seq<char>),
> {
    match calldata_bytes(calldata, ".json"@) {
        None => Some(unexpected_view()),
        Some(b) => unrouted_response(server, b),
    }
}

/// What a gateway request is owed: the fixed answer where one is owed,
/// else the entry for the call data's selector, invoked with the call.
pub open spec fn gateway_route_ok<H>(
    server: Server<H>,
    sender: Seq<char>,
    calldata: Seq<char>,
    r: Route,
) -> bool {
    &&& gateway_response(server, calldata) matches Some(v) ==> r matches Route::Respond(resp)
        && resp@ == v
    &&& gateway_response(server, calldata) is None ==> (calldata_bytes(calldata, ".json"@) matches Some(
        b,
    ) && dispatched(server, sender, b, r))
}

/// Whether the text ends with `suffix`.
pub fn ends_with(text: &str, suffix: &str) -> (r: bool)
    ensures
        r == (suffix@.len() <= text@.len() && text@.skip(text@.len() - suffix@.len()) == suffix@),
{
    let n = text.unicode_len();
    let m = suffix.unicode_len();
    if m > n {
        return false;
    }
    let start = n - m;
    let mut i: usize = 0;
    while i < m
        invariant
            n == text@.len(),
            m == suffix@.len(),
            start == n - m,
            i <= m,
            forall|k: int| 0 <= k < i ==> text@[start + k] == suffix@[k],
        decreases m - i,
    {
        if text.get_char(start + i) != suffix.get_char(i) {
            assert(text@.skip(start as int)[i as int] != suffix@[i as int]);
            return false;
        }
        i = i + 1;
    }
    assert(text@.skip(start as int) =~= suffix@);
    true
}

/// Reads call data text: strips `suffix` if the text ends with it, then
/// requires `0x` and decodes the hex after it.
pub fn parse_calldata(text: &str, suffix: &str) -> (r: Option<Vec<u8>>)
    ensures
        r is Some == calldata_bytes(text@, suffix@) is Some,
        r matches Some(v) ==> calldata_bytes(text@, suffix@) == Some(v@),
{
    let n = text.unicode_len();
    let t = if ends_with(text, suffix) {
        text.substring_char(0, n - suffix.unicode_len())
    } else {
        text.substring_char(0, n)
    };
    proof {
        assert(text@.subrange(0, n as int) =~= text@);
        assert(t@ == strip_suffix_spec(text@, suffix@));
    }
    let len = t.unicode_len();
    if len < 2 || t.get_char(0) != '0' || t.get_char(1) != 'x' {
        return None;
    }
    let hex = t.substring_char(2, len);
    assert(hex@ =~= t@.skip(2));
    let n_hex = len - 2;
    let mut i: usize = 0;
    while i < n_hex
        invariant
            n_hex == hex@.len(),
            i <= n_hex,
            t@ == strip_suffix_spec(text@, suffix@),
            hex@ == t@.skip(2),
            forall|k: int| 0 <= k < i ==> is_hex_digit(#[trigger] hex@[k]),
        decreases n_hex - i,
    {
        if !is_hex_char(hex.get_char(i)) {
            assert(!all_hex_digits(t@.skip(2)));
            return None;
        }
        i = i + 1;
    }
    assert(without_0x(hex@) == hex@) by {
        if hex@.len() >= 2 {
            assert(is_hex_digit(hex@[1]));
        }
    }
    decode_hex(hex)
}

/// Routes a request given as sender and call data text: a generic 500 when
/// the text does not parse, else as `Server::route` does for the call.
pub fn gateway<H>(server: &Server<H>, sender: String, calldata: &str) -> (r: Route)
    requires
        server.wf(),
    ensures
        gateway_route_ok(*server, sender@, calldata@, r),
{
    proof {
        reveal_strlit(".json");
    }
    match parse_calldata(calldata, ".json") {
        None => Route::Respond(unexpected_error()),
        Some(data) => server.route(RPCCall { to: sender, data }),
    }
}

/// The GET entry: sender and call data taken from the request path.
pub fn gateway_get<H>(server: &Server<H>, sender: String, calldata: String) -> (r: Route)
    requires
        server.wf(),
    ensures
        gateway_route_ok(*server, sender@, calldata@, r),
{
    gateway(server, sender, calldata.as_str())
}

/// The POST entry: sender and call data taken from the JSON body.
pub fn gateway_post<H>(server: &Server<H>, request: CCIPReadMiddlewareRequest) -> (r: Route)
    requires
        server.wf(),
    ensures
        gateway_route_ok(*server, request.sender@, request.calldata@, r),
{
    gateway(server, request.sender, request.calldata.as_str())
}

/// Both routes answer at once, with the same status and body.
pub open spec fn same_answer(a: Route, b: Route) -> bool {
    match (a, b) {
        (Route::Respond(x), Route::Respond(y)) => x@ == y@,
        _ => false,
    }
}

/// Both routes invoke the same entry with equal arguments and calls.
pub open spec fn same_invocation(a: Route, b: Route) -> bool {
    match (a, b) {
        (
            Route::Invoke { key: i, args: x, call: c },
            Route::Invoke { key: j, args: y, call: d },
        ) => i == j && x@ == y@ && c.to@ == d.to@ && c.data@ == d.data@,
        _ => false,
    }
}

/// Two requests with the same sender and call data, whether both came by
/// GET, both by POST, or one each way, are routed alike: both get the same
/// answer at once, or both invoke the same entry with the same arguments
/// and the same call.
pub proof fn lemma_requests_agree<H>(
    server: Server<H>,
    sender: Seq<char>,
    calldata: Seq<char>,
    first: Route,
    second: Route,
)
    requires
        server.wf(),
        gateway_route_ok(server, sender, calldata, first),
        gateway_route_ok(server, sender, calldata, second),
    ensures
        same_answer(first, second) || same_invocation(first, second),
{
    if gateway_response(server, calldata) is None {
        let b = calldata_bytes(calldata, ".json"@).unwrap();
        match (first, second) {
            (Route::Invoke { key: i, .. }, Route::Invoke { key: j, .. }) => {
                assert(selector_key(server.entries()[i].selector@) == i);
                assert(selector_key(server.entries()[j].selector@) == j);
            },
            (Route::Invoke { key: i, .. }, Route::Respond(_)) => {
                assert(server.entries()[i].selector@ == b.take(4));
            },
            (Route::Respond(_), Route::Invoke { key: j, .. }) => {
                assert(server.entries()[j].selector@ == b.take(4));
            },
            _ => {},
        }
    }
}

} // verus!
