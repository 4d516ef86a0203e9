//! The server-side envelope: every frame the server writes to a stream.

use vstd::prelude::*;
use vstd::string::StringExecFns;
use crate::json::BodyField;
use crate::json::FieldValue;
use crate::json::JsonVal;
use crate::json::members_view;
use crate::json::render_body_into;
use crate::json::smem;
use crate::json::spec_render_body;

verus! {

/// The encoded error body: the message and the echoed request payload.
pub open spec fn spec_err_body(msg: Seq<char>, payload: Seq<char>) -> Seq<char> {
    spec_render_body(
        seq![smem("message"@, JsonVal::Str(msg)), smem("body"@, JsonVal::Str(payload))],
    )
}

/// One frame written by the server: a message type, an `"OK"` / `"ERROR"`
/// status, and a body string (often itself an encoded object).
#[derive(Clone, Debug)]
pub struct ServerMessage {
    pub message_type: String,
    pub status: String,
    pub body: String,
}

/// Body of an error response: a human-readable message plus enough of the
/// original request for the client to reconcile its state.
#[derive(Clone, Debug)]
pub struct ErrorResponseBody {
    pub message: String,
    pub body: String,
}

impl ErrorResponseBody {
    /// Encodes this error body as its wire object.
    pub fn encode(&self) -> (r: String)
        ensures
            r@ == spec_err_body(self.message@, self.body@),
    {
        let mut fields: Vec<BodyField> = Vec::new();
        fields.push(
            BodyField { key: "message".to_owned(), value: FieldValue::Str(self.message.clone()) },
        );
        fields.push(BodyField { key: "body".to_owned(), value: FieldValue::Str(self.body.clone()) });
        let mut out = String::new();
        render_body_into(&mut out, &fields);
        proof {
            assert(members_view(fields@) =~= seq![
                smem("message"@, JsonVal::Str(self.message@)),
                smem("body"@, JsonVal::Str(self.body@)),
            ]);
            assert(out@ =~= spec_err_body(self.message@, self.body@));
        }
        out
    }
}

impl ServerMessage {
    /// Builds a frame from its three fields verbatim.
    pub fn new(message_type: String, status: String, body: String) -> (r: ServerMessage)
        ensures
            r.message_type == message_type,
            r.status == status,
            r.body == body,
    {
        ServerMessage { message_type, status, body }
    }

    /// An event push: the event type as message type, status `"OK"`.
    pub fn event(message_type: String, body: String) -> (r: ServerMessage)
        ensures
            r.message_type == message_type,
            r.status@ == "OK"@,
            r.body == body,
    {
        ServerMessage { message_type, status: "OK".to_owned(), body }
    }

    /// A successful response: message type `"response_<subcategory>"`,
    /// status `"OK"`.
    pub fn ok_response(message_type: String, body: String) -> (r: ServerMessage)
        ensures
            r.message_type@ == "response_"@ + message_type@,
            r.status@ == "OK"@,
            r.body == body,
    {
        let mut full_type = String::from_str("response_");
        full_type.append(message_type.as_str());
        ServerMessage { message_type: full_type, status: "OK".to_owned(), body }
    }

    /// A failed response: message type `"response_<subcategory>"`,
    /// status `"ERROR"`.
    pub fn error_response(message_type: String, body: String) -> (r: ServerMessage)
        ensures
            r.message_type@ == "response_"@ + message_type@,
            r.status@ == "ERROR"@,
            r.body == body,
    {
        let mut full_type = String::from_str("response_");
        full_type.append(message_type.as_str());
        ServerMessage { message_type: full_type, status: "ERROR".to_owned(), body }
    }
}

} // verus!
