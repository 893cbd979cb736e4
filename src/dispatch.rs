//! Dispatch of one call: selector lookup, argument decoding, and the
//! status and body that each outcome is answered with.

use vstd::prelude::*;
use vstd::slice::slice_subrange;
use crate::abi::{abi_decoded, abi_encoding, decode_input, encode_tokens};
use crate::hexcodec::{
    encode_hex, hex_decodable, hex_decoded, hex_of, lemma_hex_round_trip, without_0x,
};
use crate::selector::selector_from;
use crate::server::{selector_key, Server};

verus! {

/// The one key of a JSON response body.
#[derive(Debug, Clone, Copy, PartialEq, Eq, Structural)]
pub enum BodyField {
    /// `{"data": ...}`, on success.
    Data,
    /// `{"message": ...}`, on failure.
    Message,
}

/// A status code and the JSON body `{"<field>": "<text>"}`.
#[derive(Debug)]
pub struct Response {
    pub status: u16,
    pub field: BodyField,
    pub text: String,
}

impl View for Response {
    type V = (u16, BodyField, Seq<char>);

    open spec fn view(&self) -> (u16, BodyField, Seq<char>) {
        (self.status, self.field, self.text@)
    }
}

/// A raw call: the target address, as given, and the call data.
#[derive(Debug)]
pub struct RPCCall {
    pub to: String,
    pub data: Vec<u8>,
}

/// What to do with a call: answer it now, or invoke the handler of the
/// entry under `key` with the decoded arguments and the call itself.
pub enum Route {
    Respond(Response),
    Invoke { key: u32, args: Vec<ethers_core::abi::Token>, call: RPCCall },
}

/// The message naming a selector that has no handler.
pub open spec fn not_found_text(selector: Seq<u8>) -> Seq<char> {
    "No implementation for function with selector 0x"@ + hex_of(selector)
}

/// 404, for a selector that no handler is registered for.
pub open spec fn not_found_view(selector: Seq<u8>) -> (u16, BodyField, Seq<char>) {
    (404, BodyField::Message, not_found_text(selector))
}

/// 500, for every failure that is not a missing handler.
pub open spec fn unexpected_view() -> (u16, BodyField, Seq<char>) {
    (500, BodyField::Message, "Unexpected error"@)
}

/// `0x` and the hex of the bytes.
pub open spec fn data_text(encoded: Seq<u8>) -> Seq<char> {
    "0x"@ + hex_of(encoded)
}

/// 200, with the ABI-encoded result.
pub open spec fn data_view(encoded: Seq<u8>) -> (u16, BodyField, Seq<char>) {
    (200, BodyField::Data, data_text(encoded))
}

/// The answer that call data gets without a handler being involved: 404
/// when it is too short for a selector, rendering what bytes there are, or
/// when its selector is not registered.
pub open spec fn unrouted_response<H>(server: Server<H>, calldata: Seq<u8>) -> Option<
    (u16, BodyField, Seq<char>),
> {
    if calldata.len() < 4 {
        Some(not_found_view(calldata))
    } else if !server.handles(calldata.take(4)) {
        Some(not_found_view(calldata.take(4)))
    } else {
        None
    }
}

/// Where call data has a registered selector: either the entry for it is
/// invoked with the arguments its function decodes from the bytes after
/// the selector and with the call unchanged, or, when they do not decode,
/// the generic 500 is the answer.
pub open spec fn dispatched<H>(server: Server<H>, to: Seq<char>, data: Seq<u8>, r: Route) -> bool {
    match r {
        Route::Invoke { key, args, call } => {
            &&& server.entries().contains_key(key)
            &&& server.entries()[key].selector@ == data.take(4)
            &&& abi_decoded(server.entries()[key].function, data.skip(4)) == Some(args@)
            &&& call.to@ == to
            &&& call.data@ == data
        },
        Route::Respond(resp) => {
            &&& resp@ == unexpected_view()
            &&& forall|k: u32| #[trigger]
                server.entries().contains_key(k) && server.entries()[k].selector@ == data.take(4)
                    ==> abi_decoded(server.entries()[k].function, data.skip(4)) is None
        },
    }
}

/// The 404 answer for a selector without a handler.
pub fn not_found(selector: &[u8]) -> (r: Response)
    ensures
        r@ == not_found_view(selector@),
{
    let mut text = String::from_str("No implementation for function with selector 0x");
    let h = encode_hex(selector);
    text.append(h.as_str());
    Response { status: 404, field: BodyField::Message, text }
}

/// The generic 500 answer.
pub fn unexpected_error() -> (r: Response)
    ensures
        r@ == unexpected_view(),
{
    Response { status: 500, field: BodyField::Message, text: String::from_str("Unexpected error") }
}

/// The 200 answer carrying an ABI-encoded result.
pub fn success(encoded: &[u8]) -> (r: Response)
    ensures
        r@ == data_view(encoded@),
{
    let mut text = String::from_str("0x");
    let h = encode_hex(encoded);
    text.append(h.as_str());
    Response { status: 200, field: BodyField::Data, text }
}

/// The answer once the handler has run: its tokens ABI-encoded on success,
/// the generic 500 on any failure.
pub fn complete<E>(outcome: Result<Vec<ethers_core::abi::Token>, E>) -> (r: Response)
    ensures
        outcome is Err ==> r@ == unexpected_view(),
        outcome matches Ok(t) ==> r@ == data_view(abi_encoding(t@)),
{
    match outcome {
        Ok(tokens) => {
            let encoded = encode_tokens(tokens.as_slice());
            success(encoded.as_slice())
        },
        Err(_) => unexpected_error(),
    }
}

impl<H> Server<H> {
    /// Routes call data: 404 when it holds no registered selector, 500 when
    /// its arguments do not decode by the matched function's input types,
    /// and otherwise the entry to invoke with the decoded arguments.
    pub fn route(&self, call: RPCCall) -> (r: Route)
        requires
            self.wf(),
        ensures
            unrouted_response(*self, call.data@) matches Some(v) ==> r matches Route::Respond(resp)
                && resp@ == v,
            unrouted_response(*self, call.data@) is None ==> dispatched(
                *self,
                call.to@,
                call.data@,
                r,
            ),
    {
        let calldata = call.data.as_slice();
        proof {
            broadcast use vstd::array::group_array_axioms;
        }
        match selector_from(calldata) {
            Err(_) => Route::Respond(not_found(calldata)),
            Ok(selector) => match self.lookup(&selector) {
                None => {
                    let s = selector.as_slice();
                    assert(s@ == selector@);
                    Route::Respond(not_found(s))
                },
                Some(key) => match self.entry(key) {
                    None => Route::Respond(unexpected_error()),
                    Some(entry) => {
                        let rest = slice_subrange(calldata, 4, calldata.len());
                        assert(rest@ =~= call.data@.skip(4));
                        match decode_input(&entry.function, rest) {
                            Ok(args) => Route::Invoke { key, args, call },
                            Err(_) => {
                                assert forall|k: u32| #[trigger]
                                    self.entries().contains_key(k) && self.entries()[k].selector@
                                        == call.data@.take(4) implies k == key by {
                                    assert(selector_key(self.entries()[k].selector@) == k);
                                }
                                Route::Respond(unexpected_error())
                            },
                        }
                    },
                },
            },
        }
    }
}

/// The `data` field of a successful answer, hex-decoded, gives back the
/// ABI-encoded bytes it was made from.
pub proof fn lemma_data_round_trip(encoded: Seq<u8>)
    ensures
        hex_decodable(data_text(encoded)),
        hex_decoded(data_text(encoded)) == encoded,
{
    let h = hex_of(encoded);
    let t = data_text(encoded);
    reveal_strlit("0x");
    lemma_hex_round_trip(encoded);
    assert(t.skip(2) =~= h);
    assert(without_0x(t) == h);
    assert(without_0x(h) == h);
    assert(hex_decoded(t) =~= hex_decoded(h));
}

} // verus!
