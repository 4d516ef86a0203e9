//! The wire envelopes: the client request frame, the init frame and the
//! server frame, each encoded as one canonical JSON object, and the
//! splitting of a message type into category and subcategory.

use vstd::prelude::*;
use vstd::string::StrSliceExecFns;
use vstd::string::StringExecFns;
use crate::json::BodyField;
use crate::json::JsonMember;
use crate::json::lemma_body_roundtrip;
use crate::json::lemma_string_roundtrip;
use crate::json::members_view;
use crate::json::members_wf;
use crate::json::parse_body;
use crate::json::parse_string;
use crate::json::render_body_into;
use crate::json::render_string_into;
use crate::json::spec_parse_body;
use crate::json::spec_parse_string;
use crate::json::spec_render_body;
use crate::json::spec_render_string;
use crate::json::starts_with;
use crate::json::str_to_chars;
use crate::json::match_lit;
use crate::server_msg::ServerMessage;
use crate::util::push_char;

verus! {

/// One request from a client: its message type and its body fields.
pub struct ClientFrame {
    pub message_type: String,
    pub body: Vec<BodyField>,
}

/// The first frame on every stream: the handshake naming an event
/// category and a context id.
pub struct InitMessage {
    pub message_type: String,
    pub event_category: String,
    pub context_id: String,
}

/// A request frame as it appears on the wire.
pub open spec fn spec_render_request(mt: Seq<char>, ms: Seq<JsonMember>) -> Seq<char> {
    "{\"messageType\":"@ + spec_render_string(mt) + ",\"body\":"@ + spec_render_body(ms) + "}"@
}

/// A server frame as it appears on the wire: the body is one string
/// token.
pub open spec fn spec_render_server(mt: Seq<char>, status: Seq<char>, body: Seq<char>) -> Seq<
    char,
> {
    "{\"messageType\":"@ + spec_render_string(mt) + ",\"status\":"@ + spec_render_string(status)
        + ",\"body\":"@ + spec_render_string(body) + "}"@
}

/// An init frame as it appears on the wire.
pub open spec fn spec_render_init(mt: Seq<char>, cat: Seq<char>, ctx: Seq<char>) -> Seq<char> {
    "{\"messageType\":"@ + spec_render_string(mt) + ",\"eventCategory\":"@ + spec_render_string(
        cat,
    ) + ",\"contextId\":"@ + spec_render_string(ctx) + "}"@
}

/// Parses a whole request frame: the text must be exactly one frame.
pub open spec fn spec_parse_request(s: Seq<char>) -> Option<(Seq<char>, Seq<JsonMember>)> {
    let lit1 = "{\"messageType\":"@;
    if starts_with(s, lit1) {
        match spec_parse_string(s.skip(lit1.len() as int)) {
            Some(mtp) => {
                let n = lit1.len() + mtp.1;
                let lit2 = ",\"body\":"@;
                if starts_with(s.skip(n), lit2) {
                    match spec_parse_body(s.skip(n + lit2.len() as int)) {
                        Some(bp) => {
                            let k = n + lit2.len() + bp.1;
                            if k + 1 == s.len() && s[k] == '}' {
                                Some((mtp.0, bp.0))
                            } else {
                                None
                            }
                        },
                        None => None,
                    }
                } else {
                    None
                }
            },
            None => None,
        }
    } else {
        None
    }
}

/// Parses a whole server frame: the text must be exactly one frame.
pub open spec fn spec_parse_server(s: Seq<char>) -> Option<(Seq<char>, Seq<char>, Seq<char>)> {
    let lit1 = "{\"messageType\":"@;
    if starts_with(s, lit1) {
        match spec_parse_string(s.skip(lit1.len() as int)) {
            Some(mtp) => {
                let n = lit1.len() + mtp.1;
                let lit2 = ",\"status\":"@;
                if starts_with(s.skip(n), lit2) {
                    match spec_parse_string(s.skip(n + lit2.len() as int)) {
                        Some(stp) => {
                            let n2 = n + lit2.len() + stp.1;
                            let lit3 = ",\"body\":"@;
                            if starts_with(s.skip(n2), lit3) {
                                match spec_parse_string(s.skip(n2 + lit3.len() as int)) {
                                    Some(bp) => {
                                        let k = n2 + lit3.len() + bp.1;
                                        if k + 1 == s.len() && s[k] == '}' {
                                            Some((mtp.0, stp.0, bp.0))
                                        } else {
                                            None
                                        }
                                    },
                                    None => None,
                                }
                            } else {
                                None
                            }
                        },
                        None => None,
                    }
                } else {
                    None
                }
            },
            None => None,
        }
    } else {
        None
    }
}

/// Parses a whole init frame: the text must be exactly one frame.
pub open spec fn spec_parse_init(s: Seq<char>) -> Option<(Seq<char>, Seq<char>, Seq<char>)> {
    let lit1 = "{\"messageType\":"@;
    if starts_with(s, lit1) {
        match spec_parse_string(s.skip(lit1.len() as int)) {
            Some(mtp) => {
                let n = lit1.len() + mtp.1;
                let lit2 = ",\"eventCategory\":"@;
                if starts_with(s.skip(n), lit2) {
                    match spec_parse_string(s.skip(n + lit2.len() as int)) {
                        Some(cp) => {
                            let n2 = n + lit2.len() + cp.1;
                            let lit3 = ",\"contextId\":"@;
                            if starts_with(s.skip(n2), lit3) {
                                match spec_parse_string(s.skip(n2 + lit3.len() as int)) {
                                    Some(xp) => {
                                        let k = n2 + lit3.len() + xp.1;
                                        if k + 1 == s.len() && s[k] == '}' {
                                            Some((mtp.0, cp.0, xp.0))
                                        } else {
                                            None
                                        }
                                    },
                                    None => None,
                                }
                            } else {
                                None
                            }
                        },
                        None => None,
                    }
                } else {
                    None
                }
            },
            None => None,
        }
    } else {
        None
    }
}

/// Decoding an encoded request frame gives the same message type and the
/// same body fields back.
pub proof fn lemma_request_roundtrip(mt: Seq<char>, ms: Seq<JsonMember>)
    requires
        members_wf(ms),
    ensures
        spec_parse_request(spec_render_request(mt, ms)) == Some((mt, ms)),
{
    let lit1 = "{\"messageType\":"@;
    let lit2 = ",\"body\":"@;
    let s = spec_render_request(mt, ms);
    reveal_strlit("{\"messageType\":");
    reveal_strlit(",\"body\":");
    reveal_strlit("}");
    assert(starts_with(s, lit1)) by {
        assert(s.take(lit1.len() as int) =~= lit1);
    }
    assert(s.skip(lit1.len() as int) =~= spec_render_string(mt) + (lit2 + spec_render_body(ms)
        + "}"@));
    lemma_string_roundtrip(mt, lit2 + spec_render_body(ms) + "}"@);
    let n = lit1.len() + spec_render_string(mt).len();
    assert(s.skip(n as int) =~= lit2 + spec_render_body(ms) + "}"@);
    assert(starts_with(s.skip(n as int), lit2)) by {
        assert(s.skip(n as int).take(lit2.len() as int) =~= lit2);
    }
    assert(s.skip(n + lit2.len() as int) =~= spec_render_body(ms) + "}"@);
    lemma_body_roundtrip(ms, "}"@);
    let k = n + lit2.len() + spec_render_body(ms).len();
    assert(s[k as int] == '}');
    assert(k + 1 == s.len());
}

/// Decoding an encoded server frame gives the same three fields back.
pub proof fn lemma_server_roundtrip(mt: Seq<char>, status: Seq<char>, body: Seq<char>)
    ensures
        spec_parse_server(spec_render_server(mt, status, body)) == Some((mt, status, body)),
{
    let lit1 = "{\"messageType\":"@;
    let lit2 = ",\"status\":"@;
    let lit3 = ",\"body\":"@;
    let s = spec_render_server(mt, status, body);
    reveal_strlit("{\"messageType\":");
    reveal_strlit(",\"status\":");
    reveal_strlit(",\"body\":");
    reveal_strlit("}");
    assert(starts_with(s, lit1)) by {
        assert(s.take(lit1.len() as int) =~= lit1);
    }
    assert(s.skip(lit1.len() as int) =~= spec_render_string(mt) + (lit2 + spec_render_string(
        status,
    ) + lit3 + spec_render_string(body) + "}"@));
    lemma_string_roundtrip(mt, lit2 + spec_render_string(status) + lit3 + spec_render_string(body)
        + "}"@);
    let n = lit1.len() + spec_render_string(mt).len();
    assert(s.skip(n as int) =~= lit2 + spec_render_string(status) + lit3 + spec_render_string(body)
        + "}"@);
    assert(starts_with(s.skip(n as int), lit2)) by {
        assert(s.skip(n as int).take(lit2.len() as int) =~= lit2);
    }
    assert(s.skip(n + lit2.len() as int) =~= spec_render_string(status) + (lit3 + spec_render_string(body)
        + "}"@));
    lemma_string_roundtrip(status, lit3 + spec_render_string(body) + "}"@);
    let n2 = n + lit2.len() + spec_render_string(status).len();
    assert(s.skip(n2 as int) =~= lit3 + spec_render_string(body) + "}"@);
    assert(starts_with(s.skip(n2 as int), lit3)) by {
        assert(s.skip(n2 as int).take(lit3.len() as int) =~= lit3);
    }
    assert(s.skip(n2 + lit3.len() as int) =~= spec_render_string(body) + "}"@);
    lemma_string_roundtrip(body, "}"@);
    let k = n2 + lit3.len() + spec_render_string(body).len();
    assert(s[k as int] == '}');
    assert(k + 1 == s.len());
}

/// Decoding an encoded init frame gives the same three fields back.
pub proof fn lemma_init_roundtrip(mt: Seq<char>, cat: Seq<char>, ctx: Seq<char>)
    ensures
        spec_parse_init(spec_render_init(mt, cat, ctx)) == Some((mt, cat, ctx)),
{
    let lit1 = "{\"messageType\":"@;
    let lit2 = ",\"eventCategory\":"@;
    let lit3 = ",\"contextId\":"@;
    let s = spec_render_init(mt, cat, ctx);
    reveal_strlit("{\"messageType\":");
    reveal_strlit(",\"eventCategory\":");
    reveal_strlit(",\"contextId\":");
    reveal_strlit("}");
    assert(starts_with(s, lit1)) by {
        assert(s.take(lit1.len() as int) =~= lit1);
    }
    assert(s.skip(lit1.len() as int) =~= spec_render_string(mt) + (lit2 + spec_render_string(cat)
        + lit3 + spec_render_string(ctx) + "}"@));
    lemma_string_roundtrip(mt, lit2 + spec_render_string(cat) + lit3 + spec_render_string(ctx)
        + "}"@);
    let n = lit1.len() + spec_render_string(mt).len();
    assert(s.skip(n as int) =~= lit2 + spec_render_string(cat) + lit3 + spec_render_string(ctx)
        + "}"@);
    assert(starts_with(s.skip(n as int), lit2)) by {
        assert(s.skip(n as int).take(lit2.len() as int) =~= lit2);
    }
    assert(s.skip(n + lit2.len() as int) =~= spec_render_string(cat) + (lit3 + spec_render_string(ctx)
        + "}"@));
    lemma_string_roundtrip(cat, lit3 + spec_render_string(ctx) + "}"@);
    let n2 = n + lit2.len() + spec_render_string(cat).len();
    assert(s.skip(n2 as int) =~= lit3 + spec_render_string(ctx) + "}"@);
    assert(starts_with(s.skip(n2 as int), lit3)) by {
        assert(s.skip(n2 as int).take(lit3.len() as int) =~= lit3);
    }
    assert(s.skip(n2 + lit3.len() as int) =~= spec_render_string(ctx) + "}"@);
    lemma_string_roundtrip(ctx, "}"@);
    let k = n2 + lit3.len() + spec_render_string(ctx).len();
    assert(s[k as int] == '}');
    assert(k + 1 == s.len());
}

/// Encodes a request frame.
pub fn encode_request(message_type: &str, body: &Vec<BodyField>) -> (r: String)
    ensures
        r@ == spec_render_request(message_type@, members_view(body@)),
{
    let mut out = String::from_str("{\"messageType\":");
    render_string_into(&mut out, message_type);
    out.append(",\"body\":");
    render_body_into(&mut out, body);
    push_char(&mut out, '}');
    proof {
        reveal_strlit("}");
        assert("}"@ =~= seq!['}']);
        assert(out@ =~= spec_render_request(message_type@, members_view(body@)));
    }
    out
}

/// Encodes a server frame.
pub fn encode_server_message(m: &ServerMessage) -> (r: String)
    ensures
        r@ == spec_render_server(m.message_type@, m.status@, m.body@),
{
    let mut out = String::from_str("{\"messageType\":");
    render_string_into(&mut out, m.message_type.as_str());
    out.append(",\"status\":");
    render_string_into(&mut out, m.status.as_str());
    out.append(",\"body\":");
    render_string_into(&mut out, m.body.as_str());
    push_char(&mut out, '}');
    proof {
        reveal_strlit("}");
        assert("}"@ =~= seq!['}']);
        assert(out@ =~= spec_render_server(m.message_type@, m.status@, m.body@));
    }
    out
}

/// Encodes an init frame.
pub fn encode_init(m: &InitMessage) -> (r: String)
    ensures
        r@ == spec_render_init(m.message_type@, m.event_category@, m.context_id@),
{
    let mut out = String::from_str("{\"messageType\":");
    render_string_into(&mut out, m.message_type.as_str());
    out.append(",\"eventCategory\":");
    render_string_into(&mut out, m.event_category.as_str());
    out.append(",\"contextId\":");
    render_string_into(&mut out, m.context_id.as_str());
    push_char(&mut out, '}');
    proof {
        reveal_strlit("}");
        assert("}"@ =~= seq!['}']);
        assert(out@ =~= spec_render_init(m.message_type@, m.event_category@, m.context_id@));
    }
    out
}

/// Decodes a request frame; the whole text must be one frame.
pub fn decode_request(text: &str) -> (r: Option<ClientFrame>)
    ensures
        match r {
            Some(f) => {
                &&& spec_parse_request(text@) matches Some(m)
                &&& f.message_type@ == m.0
                &&& members_view(f.body@) == m.1
            },
            None => spec_parse_request(text@) is None,
        },
{
    let s = str_to_chars(text);
    let slen = s.len();
    let lit1 = "{\"messageType\":";
    let l1 = lit1.unicode_len();
    if !match_lit(&s, 0, lit1) {
        proof {
            assert(s@.skip(0int) =~= s@);
        }
        return None;
    }
    proof {
        assert(s@.skip(0int) =~= s@);
        assert(l1 <= s@.len()) by {
            assert(starts_with(s@, lit1@));
        }
    }
    let mtp = match parse_string(&s, l1) {
        Some(p) => p,
        None => {
            proof {
                assert(spec_parse_string(s@.skip(l1 as int)) is None);
            }
            return None;
        },
    };
    let n = mtp.1;
    let lit2 = ",\"body\":";
    if !match_lit(&s, n, lit2) {
        return None;
    }
    let l2 = lit2.unicode_len();
    proof {
        assert(starts_with(s@.skip(n as int), lit2@));
        assert(n + l2 <= s@.len());
        assert(s@.skip(n as int).skip(l2 as int) =~= s@.skip((n + l2) as int));
    }
    let bp = match parse_body(&s, n + l2) {
        Some(p) => p,
        None => {
            return None;
        },
    };
    let k = bp.1;
    if k < s.len() && k + 1 == s.len() && s[k] == '}' {
        Some(ClientFrame { message_type: mtp.0, body: bp.0 })
    } else {
        None
    }
}

/// Decodes a server frame; the whole text must be one frame.
pub fn decode_server_message(text: &str) -> (r: Option<ServerMessage>)
    ensures
        match r {
            Some(m) => {
                &&& spec_parse_server(text@) matches Some(t)
                &&& m.message_type@ == t.0
                &&& m.status@ == t.1
                &&& m.body@ == t.2
            },
            None => spec_parse_server(text@) is None,
        },
{
    let s = str_to_chars(text);
    let slen = s.len();
    let lit1 = "{\"messageType\":";
    let l1 = lit1.unicode_len();
    if !match_lit(&s, 0, lit1) {
        proof {
            assert(s@.skip(0int) =~= s@);
        }
        return None;
    }
    proof {
        assert(s@.skip(0int) =~= s@);
        assert(l1 <= s@.len()) by {
            assert(starts_with(s@, lit1@));
        }
    }
    let mtp = match parse_string(&s, l1) {
        Some(p) => p,
        None => {
            return None;
        },
    };
    let n = mtp.1;
    let lit2 = ",\"status\":";
    if !match_lit(&s, n, lit2) {
        return None;
    }
    let l2 = lit2.unicode_len();
    proof {
        assert(starts_with(s@.skip(n as int), lit2@));
        assert(n + l2 <= s@.len());
        assert(s@.skip(n as int).skip(l2 as int) =~= s@.skip((n + l2) as int));
    }
    let stp = match parse_string(&s, n + l2) {
        Some(p) => p,
        None => {
            return None;
        },
    };
    let n2 = stp.1;
    let lit3 = ",\"body\":";
    if !match_lit(&s, n2, lit3) {
        return None;
    }
    let l3 = lit3.unicode_len();
    proof {
        assert(starts_with(s@.skip(n2 as int), lit3@));
        assert(n2 + l3 <= s@.len());
        assert(s@.skip(n2 as int).skip(l3 as int) =~= s@.skip((n2 + l3) as int));
    }
    let bp = match parse_string(&s, n2 + l3) {
        Some(p) => p,
        None => {
            return None;
        },
    };
    let k = bp.1;
    if k < s.len() && k + 1 == s.len() && s[k] == '}' {
        Some(ServerMessage { message_type: mtp.0, status: stp.0, body: bp.0 })
    } else {
        None
    }
}

/// Decodes an init frame; the whole text must be one frame.
pub fn decode_init(text: &str) -> (r: Option<InitMessage>)
    ensures
        match r {
            Some(m) => {
                &&& spec_parse_init(text@) matches Some(t)
                &&& m.message_type@ == t.0
                &&& m.event_category@ == t.1
                &&& m.context_id@ == t.2
            },
            None => spec_parse_init(text@) is None,
        },
{
    let s = str_to_chars(text);
    let slen = s.len();
    let lit1 = "{\"messageType\":";
    let l1 = lit1.unicode_len();
    if !match_lit(&s, 0, lit1) {
        proof {
            assert(s@.skip(0int) =~= s@);
        }
        return None;
    }
    proof {
        assert(s@.skip(0int) =~= s@);
        assert(l1 <= s@.len()) by {
            assert(starts_with(s@, lit1@));
        }
    }
    let mtp = match parse_string(&s, l1) {
        Some(p) => p,
        None => {
            return None;
        },
    };
    let n = mtp.1;
    let lit2 = ",\"eventCategory\":";
    if !match_lit(&s, n, lit2) {
        return None;
    }
    let l2 = lit2.unicode_len();
    proof {
        assert(starts_with(s@.skip(n as int), lit2@));
        assert(n + l2 <= s@.len());
        assert(s@.skip(n as int).skip(l2 as int) =~= s@.skip((n + l2) as int));
    }
    let cp = match parse_string(&s, n + l2) {
        Some(p) => p,
        None => {
            return None;
        },
    };
    let n2 = cp.1;
    let lit3 = ",\"contextId\":";
    if !match_lit(&s, n2, lit3) {
        return None;
    }
    let l3 = lit3.unicode_len();
    proof {
        assert(starts_with(s@.skip(n2 as int), lit3@));
        assert(n2 + l3 <= s@.len());
        assert(s@.skip(n2 as int).skip(l3 as int) =~= s@.skip((n2 + l3) as int));
    }
    let xp = match parse_string(&s, n2 + l3) {
        Some(p) => p,
        None => {
            return None;
        },
    };
    let k = xp.1;
    if k < s.len() && k + 1 == s.len() && s[k] == '}' {
        Some(InitMessage { message_type: mtp.0, event_category: cp.0, context_id: xp.0 })
    } else {
        None
    }
}

/// The position of the first underscore in a message type, if any.
pub open spec fn first_underscore(s: Seq<char>) -> Option<int> {
    if exists|i: int| 0 <= i < s.len() && s[i] == '_' {
        Some(choose|i: int| 0 <= i < s.len() && s[i] == '_' && (forall|j: int|
            0 <= j < i ==> s[j] != '_'))
    } else {
        None
    }
}

/// Splits `"<category>_<subcategory>"` at its underscores: the text
/// before the first underscore, and the text between the first and the
/// second (or the end). A type without an underscore does not split.
pub fn split_message_type(message_type: &str) -> (r: Option<(String, String)>)
    ensures
        match r {
            Some(p) => {
                &&& exists|i: int|
                    0 <= i < message_type@.len() && message_type@[i] == '_' && p.0@
                        == message_type@.take(i) && (forall|j: int|
                        0 <= j < i ==> message_type@[j] != '_') && (p.1@ == between_underscores(
                        message_type@,
                        i,
                    ))
            },
            None => forall|i: int|
                0 <= i < message_type@.len() ==> message_type@[i] != '_',
        },
{
    let s = str_to_chars(message_type);
    let n = s.len();
    let mut u1: usize = 0;
    while u1 < n
        invariant
            u1 <= n,
            n == message_type@.len(),
            s@ == message_type@,
            forall|j: int| 0 <= j < u1 ==> message_type@[j] != '_',
        decreases n - u1,
    {
        if s[u1] == '_' {
            // Found the first underscore; collect the two parts.
            let mut cat = String::new();
            let mut j: usize = 0;
            while j < u1
                invariant
                    j <= u1 < n,
                    n == message_type@.len(),
                    s@ == message_type@,
                    cat@ == message_type@.take(u1 as int).take(j as int),
                decreases u1 - j,
            {
                push_char(&mut cat, s[j]);
                proof {
                    assert(message_type@.take(u1 as int).take(j + 1) =~= message_type@.take(
                        u1 as int,
                    ).take(j as int).push(message_type@[j as int]));
                }
                j = j + 1;
            }
            proof {
                assert(message_type@.take(u1 as int).take(u1 as int) =~= message_type@.take(
                    u1 as int,
                ));
            }
            let mut sub = String::new();
            let mut k: usize = u1 + 1;
            while k < n && s[k] != '_'
                invariant
                    u1 + 1 <= k <= n,
                    u1 < n,
                    n == message_type@.len(),
                    s@ == message_type@,
                    forall|j2: int| u1 + 1 <= j2 < k ==> message_type@[j2] != '_',
                    sub@ == message_type@.subrange(u1 + 1, k as int),
                decreases n - k,
            {
                push_char(&mut sub, s[k]);
                proof {
                    assert(message_type@.subrange(u1 + 1, k + 1) =~= message_type@.subrange(
                        u1 + 1,
                        k as int,
                    ).push(message_type@[k as int]));
                }
                k = k + 1;
            }
            proof {
                if k < n {
                    assert(message_type@[k as int] == '_');
                    assert(sub@ == between_underscores(message_type@, u1 as int)) by {
                        assert(second_underscore(message_type@, u1 as int) == Some(k as int));
                    }
                } else {
                    assert(sub@ == between_underscores(message_type@, u1 as int)) by {
                        assert(second_underscore(message_type@, u1 as int) is None);
                    }
                }
            }
            return Some((cat, sub));
        }
        u1 = u1 + 1;
    }
    None
}

/// The position of the next underscore strictly after `from`, if any.
pub open spec fn second_underscore(s: Seq<char>, from: int) -> Option<int> {
    if exists|i: int| from < i < s.len() && s[i] == '_' {
        Some(choose|i: int| from < i < s.len() && s[i] == '_' && (forall|j: int|
            from < j < i ==> s[j] != '_'))
    } else {
        None
    }
}

/// The text between the first underscore and the next one, or the end.
pub open spec fn between_underscores(s: Seq<char>, u1: int) -> Seq<char> {
    match second_underscore(s, u1) {
        Some(u2) => s.subrange(u1 + 1, u2),
        None => s.subrange(u1 + 1, s.len() as int),
    }
}

} // verus!
