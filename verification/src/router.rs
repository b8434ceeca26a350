//! The front end's decisions: which endpoint a request addresses, and how a
//! request moves from arrival to completion or failure.

use crate::error::GatewayError;
use crate::mapping::{backend_model, MappingTables};
use crate::monitor::Protocol;
use crate::security::{bearer_header, key_accepted, text_of, ProxySecurityConfig};
use crate::text::{chars_end_with, chars_of, is_prefix_of, is_suffix_of, same_text, starts_with};
use crate::token_manager::{Selection, TokenManager};
use vstd::prelude::*;
use vstd::string::{StrSliceExecFns, StringExecFns};

verus! {

/// The endpoint a request addresses.
#[derive(Debug)]
pub struct Route {
    pub protocol: Protocol,
    /// The model named in the path, for endpoints that carry it there.
    pub model: Option<String>,
}

/// The model that a path of the form `/v1beta/models/{model}:generateContent`
/// names. The model is not empty and holds no `/`.
pub open spec fn path_model(path: Seq<char>) -> Option<Seq<char>> {
    let head = "/v1beta/models/"@;
    let tail = ":generateContent"@;
    let model = path.subrange(head.len() as int, path.len() - tail.len());
    if is_prefix_of(head, path) && is_suffix_of(tail, path) && path.len() > head.len() + tail.len()
        && !model.contains('/') {
        Some(model)
    } else {
        None
    }
}

/// The endpoint for a method and a path, both taken literally. Only `POST`
/// is served.
pub open spec fn routed(method: Seq<char>, path: Seq<char>) -> Option<(Protocol, Option<Seq<char>>)> {
    if method != "POST"@ {
        None
    } else if path == "/v1/chat/completions"@ {
        Some((Protocol::OpenAi, None))
    } else if path == "/v1/messages"@ {
        Some((Protocol::Anthropic, None))
    } else {
        match path_model(path) {
            Some(model) => Some((Protocol::Gemini, Some(model))),
            None => None,
        }
    }
}

/// The model named in a path of the third endpoint's form.
#[verifier::loop_isolation(false)]
pub fn model_in_path(path: &str) -> (model: Option<String>)
    ensures
        match model {
            Some(name) => path_model(path@) == Some(name@),
            None => path_model(path@) is None,
        },
{
    let head = chars_of("/v1beta/models/");
    let tail = chars_of(":generateContent");
    let chars = chars_of(path);
    if !starts_with(path, "/v1beta/models/") || !chars_end_with(&chars, &tail) {
        return None;
    }
    if chars.len() - head.len() <= tail.len() {
        return None;
    }
    let from = head.len();
    let to = chars.len() - tail.len();
    let mut k: usize = from;
    while k < to
        invariant
            from <= k <= to <= chars.len(),
            forall|n: int| from <= n < k ==> chars@[n] != '/',
        decreases to - k,
    {
        if chars[k] == '/' {
            proof {
                let model = path@.subrange(from as int, to as int);
                assert(model[k - from] == '/');
                assert(model.contains('/'));
            }
            return None;
        }
        k += 1;
    }
    let name = path.substring_char(from, to);
    proof {
        let model = path@.subrange(from as int, to as int);
        if model.contains('/') {
            let n = choose|n: int| 0 <= n < model.len() && model[n] == '/';
            assert(chars@[from + n] == '/');
        }
    }
    Some(name.to_owned())
}

/// The endpoint that a request with this method and path addresses, if
/// there is one. Paths are matched to the letter.
pub fn route(method: &str, path: &str) -> (found: Option<Route>)
    ensures
        match found {
            Some(route) => routed(method@, path@) == Some(
                (
                    route.protocol,
                    match route.model {
                        Some(model) => Some(model@),
                        None => None,
                    },
                ),
            ),
            None => routed(method@, path@) is None,
        },
{
    if !same_text(method, "POST") {
        return None;
    }
    if same_text(path, "/v1/chat/completions") {
        return Some(Route { protocol: Protocol::OpenAi, model: None });
    }
    if same_text(path, "/v1/messages") {
        return Some(Route { protocol: Protocol::Anthropic, model: None });
    }
    match model_in_path(path) {
        Some(model) => Some(Route { protocol: Protocol::Gemini, model: Some(model) }),
        None => None,
    }
}

/// What is settled once a request has passed the guard and an account has
/// been picked for it.
#[derive(Debug)]
pub struct Dispatch {
    /// The model name the backend is asked for.
    pub backend_model: String,
    pub selection: Selection,
}

/// Admits a request: checks its key, translates its model name, and picks
/// an account for the translated name. A request with a wrong or missing
/// key is turned away before the pool is looked at: the pool stays as it
/// is, its count of selections included.
pub fn begin_request(
    security: &ProxySecurityConfig,
    tables: &MappingTables,
    pool: &mut TokenManager,
    protocol: Protocol,
    presented: Option<&str>,
    model: &str,
) -> (admitted: Result<Dispatch, GatewayError>)
    ensures
        !key_accepted(security.api_key@, text_of(presented)) ==> {
            &&& admitted matches Err(error)
            &&& error == GatewayError::Unauthorized
            &&& *final(pool) == *old(pool)
        },
        key_accepted(security.api_key@, text_of(presented)) ==> {
            let wanted = backend_model(
                protocol,
                tables.anthropic@,
                tables.openai@,
                tables.custom@,
                model@,
            );
            match admitted {
                Ok(dispatch) => {
                    &&& dispatch.backend_model@ == wanted
                    &&& old(pool).selection_made(
                        *final(pool),
                        wanted,
                        Seq::<String>::empty(),
                        Ok(dispatch.selection),
                    )
                },
                Err(error) => old(pool).selection_made(
                    *final(pool),
                    wanted,
                    Seq::<String>::empty(),
                    Err(error),
                ),
            }
        },
{
    match security.authorize(presented) {
        Err(error) => Err(error),
        Ok(_) => {
            let backend_model = tables.resolve_model(protocol, model);
            match pool.select(backend_model.as_str()) {
                Ok(selection) => Ok(Dispatch { backend_model, selection }),
                Err(error) => Err(error),
            }
        },
    }
}

/// A chunk of the backend's stream as the client receives it: one
/// server-sent event that carries the chunk as its data.
pub open spec fn framed(chunk: Seq<char>) -> Seq<char> {
    "data: "@ + chunk + "\n\n"@
}

/// Re-frames one chunk of the backend's stream for the client.
pub fn frame_chunk(chunk: &str) -> (frame: String)
    ensures
        frame@ == framed(chunk@),
{
    String::from_str("data: ").concat(chunk).concat("\n\n")
}

/// Passes a stream on, chunk by chunk. It holds no chunk back: each one
/// leaves re-framed before the next is taken.
#[derive(Debug)]
pub struct StreamRelay {
    forwarded: u64,
}

impl StreamRelay {
    /// How many chunks have been passed on.
    pub closed spec fn passed(self) -> u64 {
        self.forwarded
    }

    pub fn new() -> (relay: StreamRelay)
        ensures
            relay.passed() == 0,
    {
        StreamRelay { forwarded: 0 }
    }

    pub fn forwarded(&self) -> (count: u64)
        ensures
            count == self.passed(),
    {
        self.forwarded
    }

    /// Takes the next chunk from the backend and hands out its frame.
    pub fn forward(&mut self, chunk: &str) -> (frame: String)
        ensures
            frame@ == framed(chunk@),
            final(self).passed() == if old(self).passed() == u64::MAX {
                u64::MAX
            } else {
                (old(self).passed() + 1) as u64
            },
    {
        if self.forwarded < u64::MAX {
            self.forwarded = self.forwarded + 1;
        }
        frame_chunk(chunk)
    }
}

/// Re-frames a whole run of chunks: as many frames as chunks, in the same
/// order.
pub fn relay_all(chunks: &Vec<String>) -> (frames: Vec<String>)
    ensures
        frames@.len() == chunks@.len(),
        forall|k: int| 0 <= k < chunks@.len() ==> (#[trigger] frames@[k])@ == framed(chunks@[k]@),
{
    let mut relay = StreamRelay::new();
    let mut frames: Vec<String> = Vec::new();
    let mut k: usize = 0;
    while k < chunks.len()
        invariant
            k <= chunks.len(),
            frames@.len() == k,
            forall|n: int| 0 <= n < k ==> (#[trigger] frames@[n])@ == framed(chunks@[n]@),
        decreases chunks.len() - k,
    {
        let frame = relay.forward(chunks[k].as_str());
        frames.push(frame);
        k += 1;
    }
    frames
}

/// What a client's payload says, once it has been decoded: the model it
/// names, if it names one, and whether it asks for a streamed response.
#[derive(Debug)]
pub struct ClientRequest {
    pub model: Option<String>,
    pub stream: Option<bool>,
}

/// A request that has been understood.
#[derive(Debug)]
pub struct ParsedRequest {
    /// The model as the client names it.
    pub model: String,
    pub streaming: bool,
}

/// The model a request asks for: the one in the path, where the endpoint
/// carries it there, else the one in the payload. It may not be empty.
pub open spec fn requested_model(in_path: Option<String>, decoded: Option<ClientRequest>) -> Option<
    Seq<char>,
> {
    match decoded {
        None => None,
        Some(request) => {
            let named = match in_path {
                Some(model) => Some(model),
                None => request.model,
            };
            match named {
                Some(model) => if model@.len() > 0 {
                    Some(model@)
                } else {
                    None
                },
                None => None,
            }
        },
    }
}

/// Takes a request in: `decoded` is what its payload says, or nothing if
/// the payload could not be decoded. A payload that cannot be decoded, or
/// a request that names no model, is a bad request. A request streams
/// only if its payload asks for it.
pub fn accept_request(route: Route, decoded: Option<ClientRequest>) -> (accepted: Result<
    ParsedRequest,
    GatewayError,
>)
    ensures
        match accepted {
            Ok(request) => {
                &&& requested_model(route.model, decoded) == Some(request.model@)
                &&& request.streaming == (decoded->0.stream == Some(true))
            },
            Err(error) => {
                &&& error == GatewayError::BadRequest
                &&& requested_model(route.model, decoded) is None
            },
        },
{
    match decoded {
        None => Err(GatewayError::BadRequest),
        Some(request) => {
            let streaming = match request.stream {
                Some(flag) => flag,
                None => false,
            };
            let named = match route.model {
                Some(model) => Some(model),
                None => request.model,
            };
            match named {
                Some(model) => {
                    if model.as_str().unicode_len() > 0 {
                        Ok(ParsedRequest { model, streaming })
                    } else {
                        Err(GatewayError::BadRequest)
                    }
                },
                None => Err(GatewayError::BadRequest),
            }
        },
    }
}

/// The call that goes to the backend.
#[derive(Debug)]
pub struct BackendCall {
    /// The account the call is made for.
    pub account_id: String,
    /// The model name the backend is asked for.
    pub model: String,
    /// The value of the `Authorization` header.
    pub authorization: String,
    pub streaming: bool,
    pub body: String,
}

/// Puts the call to the backend together: it asks for the translated
/// model, carries the token of the picked account in its `Authorization`
/// header, and streams if the client asked for that.
pub fn backend_call(dispatch: &Dispatch, streaming: bool, body: String) -> (call: BackendCall)
    ensures
        call.account_id@ == dispatch.selection.account_id@,
        call.model@ == dispatch.backend_model@,
        call.authorization@ == "Bearer "@ + dispatch.selection.access_token@,
        call.streaming == streaming,
        call.body == body,
{
    BackendCall {
        account_id: dispatch.selection.account_id.clone(),
        model: dispatch.backend_model.clone(),
        authorization: bearer_header(dispatch.selection.access_token.as_str()),
        streaming,
        body,
    }
}

} // verus!
