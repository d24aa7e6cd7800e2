//! Messages between the engine and its frontend, and their text form.
//!
//! Each message travels as one compact JSON record tagged with the variant's
//! name, for instance `{"EngineLog":{"message":"ready"}}` or `{"Stop":{}}`.
use vstd::prelude::*;
use crate::text::{
    chars_of, digits, has_at, is_digit, lemma_has_at_concat, lemma_parse_digits,
    lemma_parse_quoted, parse_quoted, parse_u32, push_char, push_digits, push_quoted, quoted,
    read_char, read_quoted, read_u32, same_text,
};

verus! {

/// What the engine tells its frontend.
#[derive(Debug, Clone, PartialEq, Eq)]
pub enum EngineMessage {
    EngineStarted,
    EngineStopped,
    EngineLog { message: String },
    EngineError { message: String },
    EngineVersion { version: String },
    ClientConnected { client_name: String },
    ClientDisconnected,
    ClientRejected { reason: String },
    DeviceConnected { name: String, index: u32, identifier: String, display_name: String },
    DeviceDisconnected { index: u32 },
}

/// What the frontend asks of the engine.
#[derive(Debug, Clone, Copy, PartialEq, Eq)]
pub enum IntifaceMessage {
    RequestEngineVersion { expected_version: u32 },
    Stop,
}

/// Mathematical form of an [`EngineMessage`]: strings as character sequences.
pub enum EngineMessageView {
    EngineStarted,
    EngineStopped,
    EngineLog { message: Seq<char> },
    EngineError { message: Seq<char> },
    EngineVersion { version: Seq<char> },
    ClientConnected { client_name: Seq<char> },
    ClientDisconnected,
    ClientRejected { reason: Seq<char> },
    DeviceConnected {
        name: Seq<char>,
        index: u32,
        identifier: Seq<char>,
        display_name: Seq<char>,
    },
    DeviceDisconnected { index: u32 },
}

impl View for EngineMessage {
    type V = EngineMessageView;

    open spec fn view(&self) -> EngineMessageView {
        match self {
            EngineMessage::EngineStarted => EngineMessageView::EngineStarted,
            EngineMessage::EngineStopped => EngineMessageView::EngineStopped,
            EngineMessage::EngineLog { message } => EngineMessageView::EngineLog {
                message: message@,
            },
            EngineMessage::EngineError { message } => EngineMessageView::EngineError {
                message: message@,
            },
            EngineMessage::EngineVersion { version } => EngineMessageView::EngineVersion {
                version: version@,
            },
            EngineMessage::ClientConnected { client_name } => EngineMessageView::ClientConnected {
                client_name: client_name@,
            },
            EngineMessage::ClientDisconnected => EngineMessageView::ClientDisconnected,
            EngineMessage::ClientRejected { reason } => EngineMessageView::ClientRejected {
                reason: reason@,
            },
            EngineMessage::DeviceConnected { name, index, identifier, display_name } =>
                EngineMessageView::DeviceConnected {
                name: name@,
                index: *index,
                identifier: identifier@,
                display_name: display_name@,
            },
            EngineMessage::DeviceDisconnected { index } => EngineMessageView::DeviceDisconnected {
                index: *index,
            },
        }
    }
}

// ---------------------------------------------------------------------------
// Text form
// ---------------------------------------------------------------------------
/// `{"name":{fields}}`
pub open spec fn record(name: Seq<char>, fields: Seq<char>) -> Seq<char> {
    seq!['{'] + quoted(name) + seq![':', '{'] + fields + seq!['}', '}']
}

/// `"key":"value"`
pub open spec fn str_field(key: Seq<char>, v: Seq<char>) -> Seq<char> {
    quoted(key) + seq![':'] + quoted(v)
}

/// `"key":123`
pub open spec fn num_field(key: Seq<char>, n: u32) -> Seq<char> {
    quoted(key) + seq![':'] + digits(n as nat)
}

pub open spec fn device_fields(
    name: Seq<char>,
    index: u32,
    identifier: Seq<char>,
    display_name: Seq<char>,
) -> Seq<char> {
    str_field("name"@, name) + seq![','] + num_field("index"@, index) + seq![','] + str_field(
        "identifier"@,
        identifier,
    ) + seq![','] + str_field("display_name"@, display_name)
}

/// The text of an engine message.
pub open spec fn encode_engine(m: EngineMessageView) -> Seq<char> {
    match m {
        EngineMessageView::EngineStarted => record("EngineStarted"@, Seq::empty()),
        EngineMessageView::EngineStopped => record("EngineStopped"@, Seq::empty()),
        EngineMessageView::EngineLog { message } => record(
            "EngineLog"@,
            str_field("message"@, message),
        ),
        EngineMessageView::EngineError { message } => record(
            "EngineError"@,
            str_field("message"@, message),
        ),
        EngineMessageView::EngineVersion { version } => record(
            "EngineVersion"@,
            str_field("version"@, version),
        ),
        EngineMessageView::ClientConnected { client_name } => record(
            "ClientConnected"@,
            str_field("client_name"@, client_name),
        ),
        EngineMessageView::ClientDisconnected => record("ClientDisconnected"@, Seq::empty()),
        EngineMessageView::ClientRejected { reason } => record(
            "ClientRejected"@,
            str_field("reason"@, reason),
        ),
        EngineMessageView::DeviceConnected { name, index, identifier, display_name } => record(
            "DeviceConnected"@,
            device_fields(name, index, identifier, display_name),
        ),
        EngineMessageView::DeviceDisconnected { index } => record(
            "DeviceDisconnected"@,
            num_field("index"@, index),
        ),
    }
}

/// The text of a frontend request.
pub open spec fn encode_intiface(m: IntifaceMessage) -> Seq<char> {
    match m {
        IntifaceMessage::RequestEngineVersion { expected_version } => record(
            "RequestEngineVersion"@,
            num_field("expected_version"@, expected_version),
        ),
        IntifaceMessage::Stop => record("Stop"@, Seq::empty()),
    }
}

// ---------------------------------------------------------------------------
// Reading the text form back
// ---------------------------------------------------------------------------
/// Reads `{"name":{` and gives the name and the position of the fields.
pub open spec fn parse_head(t: Seq<char>) -> Option<(Seq<char>, int)> {
    if has_at(t, 0, seq!['{']) {
        match parse_quoted(t, 1) {
            Some((name, q)) => if has_at(t, q, seq![':', '{']) {
                Some((name, q + 2))
            } else {
                None
            },
            None => None,
        }
    } else {
        None
    }
}

/// `}}` ends the text at `p`.
pub open spec fn is_end(t: Seq<char>, p: int) -> bool {
    p + 2 == t.len() && has_at(t, p, seq!['}', '}'])
}

pub open spec fn parse_str_field(t: Seq<char>, p: int, key: Seq<char>) -> Option<(Seq<char>, int)> {
    match parse_quoted(t, p) {
        Some((k, q)) => if k == key && has_at(t, q, seq![':']) {
            parse_quoted(t, q + 1)
        } else {
            None
        },
        None => None,
    }
}

pub open spec fn parse_num_field(t: Seq<char>, p: int, key: Seq<char>) -> Option<(u32, int)> {
    match parse_quoted(t, p) {
        Some((k, q)) => if k == key && has_at(t, q, seq![':']) {
            parse_u32(t, q + 1)
        } else {
            None
        },
        None => None,
    }
}

/// One string field, then the end.
pub open spec fn parse_str_record(t: Seq<char>, p: int, key: Seq<char>) -> Option<Seq<char>> {
    match parse_str_field(t, p, key) {
        Some((v, q)) => if is_end(t, q) {
            Some(v)
        } else {
            None
        },
        None => None,
    }
}

/// One number field, then the end.
pub open spec fn parse_num_record(t: Seq<char>, p: int, key: Seq<char>) -> Option<u32> {
    match parse_num_field(t, p, key) {
        Some((v, q)) => if is_end(t, q) {
            Some(v)
        } else {
            None
        },
        None => None,
    }
}

pub open spec fn parse_device(t: Seq<char>, p: int) -> Option<EngineMessageView> {
    match parse_str_field(t, p, "name"@) {
        None => None,
        Some((name, after_name)) => if !has_at(t, after_name, seq![',']) {
            None
        } else {
            match parse_num_field(t, after_name + 1, "index"@) {
                None => None,
                Some((index, after_index)) => if !has_at(t, after_index, seq![',']) {
                    None
                } else {
                    match parse_str_field(t, after_index + 1, "identifier"@) {
                        None => None,
                        Some((identifier, after_identifier)) => if !has_at(t, after_identifier, seq![',']) {
                            None
                        } else {
                            match parse_str_record(t, after_identifier + 1, "display_name"@) {
                                None => None,
                                Some(display_name) => Some(
                                    EngineMessageView::DeviceConnected {
                                        name,
                                        index,
                                        identifier,
                                        display_name,
                                    },
                                ),
                            }
                        },
                    }
                },
            }
        },
    }
}

/// The engine message that a text stands for, if any.
pub open spec fn decode_engine(t: Seq<char>) -> Option<EngineMessageView> {
    match parse_head(t) {
        None => None,
        Some((name, p)) => if name == "EngineStarted"@ {
            if is_end(t, p) {
                Some(EngineMessageView::EngineStarted)
            } else {
                None
            }
        } else if name == "EngineStopped"@ {
            if is_end(t, p) {
                Some(EngineMessageView::EngineStopped)
            } else {
                None
            }
        } else if name == "ClientDisconnected"@ {
            if is_end(t, p) {
                Some(EngineMessageView::ClientDisconnected)
            } else {
                None
            }
        } else if name == "EngineLog"@ {
            match parse_str_record(t, p, "message"@) {
                Some(v) => Some(EngineMessageView::EngineLog { message: v }),
                None => None,
            }
        } else if name == "EngineError"@ {
            match parse_str_record(t, p, "message"@) {
                Some(v) => Some(EngineMessageView::EngineError { message: v }),
                None => None,
            }
        } else if name == "EngineVersion"@ {
            match parse_str_record(t, p, "version"@) {
                Some(v) => Some(EngineMessageView::EngineVersion { version: v }),
                None => None,
            }
        } else if name == "ClientConnected"@ {
            match parse_str_record(t, p, "client_name"@) {
                Some(v) => Some(EngineMessageView::ClientConnected { client_name: v }),
                None => None,
            }
        } else if name == "ClientRejected"@ {
            match parse_str_record(t, p, "reason"@) {
                Some(v) => Some(EngineMessageView::ClientRejected { reason: v }),
                None => None,
            }
        } else if name == "DeviceConnected"@ {
            parse_device(t, p)
        } else if name == "DeviceDisconnected"@ {
            match parse_num_record(t, p, "index"@) {
                Some(v) => Some(EngineMessageView::DeviceDisconnected { index: v }),
                None => None,
            }
        } else {
            None
        },
    }
}

/// The frontend request that a text stands for, if any.
pub open spec fn decode_intiface(t: Seq<char>) -> Option<IntifaceMessage> {
    match parse_head(t) {
        None => None,
        Some((name, p)) => if name == "Stop"@ {
            if is_end(t, p) {
                Some(IntifaceMessage::Stop)
            } else {
                None
            }
        } else if name == "RequestEngineVersion"@ {
            match parse_num_record(t, p, "expected_version"@) {
                Some(v) => Some(IntifaceMessage::RequestEngineVersion { expected_version: v }),
                None => None,
            }
        } else {
            None
        },
    }
}

} // verus!

verus! {

/// Where the fields of a record named `name` begin.
pub open spec fn fields_start(name: Seq<char>) -> int {
    quoted(name).len() as int + 3
}

proof fn lemma_whole(t: Seq<char>)
    ensures
        has_at(t, 0, t),
{
    assert(t.subrange(0, t.len() as int) =~= t);
}

/// Where a record stands, its head reads back, its fields follow, and `}}` ends it.
proof fn lemma_record(name: Seq<char>, fields: Seq<char>, t: Seq<char>)
    requires
        t == record(name, fields),
    ensures
        parse_head(t) == Some((name, fields_start(name))),
        has_at(t, fields_start(name), fields),
        is_end(t, fields_start(name) + fields.len()),
{
    let c = seq!['{'] + quoted(name);
    let b = c + seq![':', '{'];
    let a = b + fields;
    lemma_whole(t);
    lemma_has_at_concat(t, 0, a, seq!['}', '}']);
    lemma_has_at_concat(t, 0, b, fields);
    lemma_has_at_concat(t, 0, c, seq![':', '{']);
    lemma_has_at_concat(t, 0, seq!['{'], quoted(name));
    lemma_parse_quoted(name, t, 1);
}

proof fn lemma_str_field(t: Seq<char>, p: int, key: Seq<char>, v: Seq<char>)
    requires
        has_at(t, p, str_field(key, v)),
    ensures
        parse_str_field(t, p, key) == Some((v, p + str_field(key, v).len())),
{
    let a = quoted(key) + seq![':'];
    lemma_has_at_concat(t, p, a, quoted(v));
    lemma_has_at_concat(t, p, quoted(key), seq![':']);
    lemma_parse_quoted(key, t, p);
    lemma_parse_quoted(v, t, p + a.len());
}

proof fn lemma_num_field(t: Seq<char>, p: int, key: Seq<char>, n: u32)
    requires
        has_at(t, p, num_field(key, n)),
        p + num_field(key, n).len() < t.len(),
        !is_digit(t[p + num_field(key, n).len()]),
    ensures
        parse_num_field(t, p, key) == Some((n, p + num_field(key, n).len())),
{
    let a = quoted(key) + seq![':'];
    lemma_has_at_concat(t, p, a, digits(n as nat));
    lemma_has_at_concat(t, p, quoted(key), seq![':']);
    lemma_parse_quoted(key, t, p);
    lemma_parse_digits(n as nat, t, p + a.len());
}

proof fn lemma_char_at(t: Seq<char>, p: int, c: char)
    requires
        has_at(t, p, seq![c]),
    ensures
        t[p] == c,
{
    assert(t.subrange(p, p + 1)[0] == t[p]);
}

proof fn lemma_str_record(name: Seq<char>, key: Seq<char>, v: Seq<char>, t: Seq<char>)
    requires
        t == record(name, str_field(key, v)),
    ensures
        parse_head(t) == Some((name, fields_start(name))),
        parse_str_record(t, fields_start(name), key) == Some(v),
{
    lemma_record(name, str_field(key, v), t);
    lemma_str_field(t, fields_start(name), key, v);
}

#[verifier::rlimit(100)]
proof fn lemma_num_record(name: Seq<char>, key: Seq<char>, n: u32, t: Seq<char>)
    requires
        t == record(name, num_field(key, n)),
    ensures
        parse_head(t) == Some((name, fields_start(name))),
        parse_num_record(t, fields_start(name), key) == Some(n),
{
    let p = fields_start(name);
    lemma_record(name, num_field(key, n), t);
    assert(has_at(t, p + num_field(key, n).len(), seq!['}'])) by {
        lemma_has_at_concat(t, p + num_field(key, n).len(), seq!['}'], seq!['}']);
        assert(seq!['}'] + seq!['}'] =~= seq!['}', '}']);
    }
    lemma_char_at(t, p + num_field(key, n).len(), '}');
    lemma_num_field(t, p, key, n);
}

proof fn lemma_device_layout(
    t: Seq<char>,
    p: int,
    name: Seq<char>,
    index: u32,
    identifier: Seq<char>,
    display_name: Seq<char>,
)
    requires
        has_at(t, p, device_fields(name, index, identifier, display_name)),
    ensures
        ({
            let f1 = str_field("name"@, name);
            let f2 = num_field("index"@, index);
            let f3 = str_field("identifier"@, identifier);
            let f4 = str_field("display_name"@, display_name);
            let after_name = p + f1.len();
            let after_index = after_name + 1 + f2.len();
            let after_identifier = after_index + 1 + f3.len();
            &&& has_at(t, p, f1)
            &&& has_at(t, after_name, seq![','])
            &&& has_at(t, after_name + 1, f2)
            &&& has_at(t, after_index, seq![','])
            &&& has_at(t, after_index + 1, f3)
            &&& has_at(t, after_identifier, seq![','])
            &&& has_at(t, after_identifier + 1, f4)
            &&& after_identifier + 1 + f4.len() == p + device_fields(name, index, identifier, display_name).len()
        }),
{
    let f1 = str_field("name"@, name);
    let f2 = num_field("index"@, index);
    let f3 = str_field("identifier"@, identifier);
    let f4 = str_field("display_name"@, display_name);
    let s1 = f1 + seq![','];
    let s2 = s1 + f2;
    let s3 = s2 + seq![','];
    let s4 = s3 + f3;
    let s5 = s4 + seq![','];
    lemma_has_at_concat(t, p, s5, f4);
    lemma_has_at_concat(t, p, s4, seq![',']);
    lemma_has_at_concat(t, p, s3, f3);
    lemma_has_at_concat(t, p, s2, seq![',']);
    lemma_has_at_concat(t, p, s1, f2);
    lemma_has_at_concat(t, p, f1, seq![',']);
}

proof fn lemma_device_record(
    name: Seq<char>,
    index: u32,
    identifier: Seq<char>,
    display_name: Seq<char>,
    t: Seq<char>,
)
    requires
        t == record("DeviceConnected"@, device_fields(name, index, identifier, display_name)),
    ensures
        parse_head(t) == Some(("DeviceConnected"@, fields_start("DeviceConnected"@))),
        parse_device(t, fields_start("DeviceConnected"@)) == Some(
            EngineMessageView::DeviceConnected { name, index, identifier, display_name },
        ),
{
    let p = fields_start("DeviceConnected"@);
    let f1 = str_field("name"@, name);
    let f2 = num_field("index"@, index);
    let f3 = str_field("identifier"@, identifier);
    let f4 = str_field("display_name"@, display_name);
    let after_name = p + f1.len();
    let after_index = after_name + 1 + f2.len();
    let after_identifier = after_index + 1 + f3.len();
    lemma_record("DeviceConnected"@, device_fields(name, index, identifier, display_name), t);
    lemma_device_layout(t, p, name, index, identifier, display_name);
    lemma_str_field(t, p, "name"@, name);
    lemma_char_at(t, after_index, ',');
    lemma_num_field(t, after_name + 1, "index"@, index);
    lemma_str_field(t, after_index + 1, "identifier"@, identifier);
    lemma_str_field(t, after_identifier + 1, "display_name"@, display_name);
}

proof fn lemma_names_distinct()
    ensures
        "EngineStopped"@ != "EngineStarted"@,
        "ClientDisconnected"@ != "EngineStarted"@,
        "ClientDisconnected"@ != "EngineStopped"@,
        "EngineLog"@ != "EngineStarted"@,
        "EngineLog"@ != "EngineStopped"@,
        "EngineLog"@ != "ClientDisconnected"@,
        "EngineError"@ != "EngineStarted"@,
        "EngineError"@ != "EngineStopped"@,
        "EngineError"@ != "ClientDisconnected"@,
        "EngineError"@ != "EngineLog"@,
        "EngineVersion"@ != "EngineStarted"@,
        "EngineVersion"@ != "EngineStopped"@,
        "EngineVersion"@ != "ClientDisconnected"@,
        "EngineVersion"@ != "EngineLog"@,
        "EngineVersion"@ != "EngineError"@,
        "ClientConnected"@ != "EngineStarted"@,
        "ClientConnected"@ != "EngineStopped"@,
        "ClientConnected"@ != "ClientDisconnected"@,
        "ClientConnected"@ != "EngineLog"@,
        "ClientConnected"@ != "EngineError"@,
        "ClientConnected"@ != "EngineVersion"@,
        "ClientRejected"@ != "EngineStarted"@,
        "ClientRejected"@ != "EngineStopped"@,
        "ClientRejected"@ != "ClientDisconnected"@,
        "ClientRejected"@ != "EngineLog"@,
        "ClientRejected"@ != "EngineError"@,
        "ClientRejected"@ != "EngineVersion"@,
        "ClientRejected"@ != "ClientConnected"@,
        "DeviceConnected"@ != "EngineStarted"@,
        "DeviceConnected"@ != "EngineStopped"@,
        "DeviceConnected"@ != "ClientDisconnected"@,
        "DeviceConnected"@ != "EngineLog"@,
        "DeviceConnected"@ != "EngineError"@,
        "DeviceConnected"@ != "EngineVersion"@,
        "DeviceConnected"@ != "ClientConnected"@,
        "DeviceConnected"@ != "ClientRejected"@,
        "DeviceDisconnected"@ != "EngineStarted"@,
        "DeviceDisconnected"@ != "EngineStopped"@,
        "DeviceDisconnected"@ != "ClientDisconnected"@,
        "DeviceDisconnected"@ != "EngineLog"@,
        "DeviceDisconnected"@ != "EngineError"@,
        "DeviceDisconnected"@ != "EngineVersion"@,
        "DeviceDisconnected"@ != "ClientConnected"@,
        "DeviceDisconnected"@ != "ClientRejected"@,
        "DeviceDisconnected"@ != "DeviceConnected"@,
        "RequestEngineVersion"@ != "Stop"@,
{
    reveal_strlit("EngineStarted");
    reveal_strlit("EngineStopped");
    reveal_strlit("ClientDisconnected");
    reveal_strlit("EngineLog");
    reveal_strlit("EngineError");
    reveal_strlit("EngineVersion");
    reveal_strlit("ClientConnected");
    reveal_strlit("ClientRejected");
    reveal_strlit("DeviceConnected");
    reveal_strlit("DeviceDisconnected");
    reveal_strlit("RequestEngineVersion");
    reveal_strlit("Stop");
    assert("EngineStarted"@.len() == 13);
    assert("EngineStopped"@.len() == 13);
    assert("ClientDisconnected"@.len() == 18);
    assert("EngineLog"@.len() == 9);
    assert("EngineError"@.len() == 11);
    assert("EngineVersion"@.len() == 13);
    assert("ClientConnected"@.len() == 15);
    assert("ClientRejected"@.len() == 14);
    assert("DeviceConnected"@.len() == 15);
    assert("DeviceDisconnected"@.len() == 18);
    assert("RequestEngineVersion"@.len() == 20);
    assert("Stop"@.len() == 4);
    assert("EngineStopped"@[8] != "EngineStarted"@[8]);
    assert("EngineVersion"@[6] != "EngineStarted"@[6]);
    assert("EngineVersion"@[6] != "EngineStopped"@[6]);
    assert("DeviceConnected"@[0] != "ClientConnected"@[0]);
    assert("DeviceDisconnected"@[0] != "ClientDisconnected"@[0]);
}

/// Reading back the text of any engine message gives the same message.
#[verifier::rlimit(100)]
pub proof fn lemma_engine_round_trip(m: EngineMessageView)
    ensures
        decode_engine(encode_engine(m)) == Some(m),
{
    let t = encode_engine(m);
    lemma_names_distinct();
    match m {
        EngineMessageView::EngineStarted => lemma_record("EngineStarted"@, Seq::empty(), t),
        EngineMessageView::EngineStopped => lemma_record("EngineStopped"@, Seq::empty(), t),
        EngineMessageView::ClientDisconnected => lemma_record(
            "ClientDisconnected"@,
            Seq::empty(),
            t,
        ),
        EngineMessageView::EngineLog { message } => lemma_str_record(
            "EngineLog"@,
            "message"@,
            message,
            t,
        ),
        EngineMessageView::EngineError { message } => lemma_str_record(
            "EngineError"@,
            "message"@,
            message,
            t,
        ),
        EngineMessageView::EngineVersion { version } => lemma_str_record(
            "EngineVersion"@,
            "version"@,
            version,
            t,
        ),
        EngineMessageView::ClientConnected { client_name } => lemma_str_record(
            "ClientConnected"@,
            "client_name"@,
            client_name,
            t,
        ),
        EngineMessageView::ClientRejected { reason } => lemma_str_record(
            "ClientRejected"@,
            "reason"@,
            reason,
            t,
        ),
        EngineMessageView::DeviceConnected { name, index, identifier, display_name } =>
            lemma_device_record(name, index, identifier, display_name, t),
        EngineMessageView::DeviceDisconnected { index } => lemma_num_record(
            "DeviceDisconnected"@,
            "index"@,
            index,
            t,
        ),
    }
}

/// Reading back the text of any frontend request gives the same request.
pub proof fn lemma_intiface_round_trip(m: IntifaceMessage)
    ensures
        decode_intiface(encode_intiface(m)) == Some(m),
{
    let t = encode_intiface(m);
    lemma_names_distinct();
    match m {
        IntifaceMessage::Stop => lemma_record("Stop"@, Seq::empty(), t),
        IntifaceMessage::RequestEngineVersion { expected_version } => lemma_num_record(
            "RequestEngineVersion"@,
            "expected_version"@,
            expected_version,
            t,
        ),
    }
}

} // verus!

verus! {

fn push_head(out: &mut String, name: &str)
    ensures
        final(out)@ == old(out)@ + (seq!['{'] + quoted(name@) + seq![':', '{']),
{
    push_char(out, '{');
    push_quoted(out, name);
    push_char(out, ':');
    push_char(out, '{');
    assert(out@ =~= old(out)@ + (seq!['{'] + quoted(name@) + seq![':', '{']));
}

fn push_tail(out: &mut String)
    ensures
        final(out)@ == old(out)@ + seq!['}', '}'],
{
    push_char(out, '}');
    push_char(out, '}');
    assert(out@ =~= old(out)@ + seq!['}', '}']);
}

fn push_str_field(out: &mut String, key: &str, v: &String)
    ensures
        final(out)@ == old(out)@ + str_field(key@, v@),
{
    push_quoted(out, key);
    push_char(out, ':');
    push_quoted(out, v.as_str());
    assert(out@ =~= old(out)@ + str_field(key@, v@));
}

fn push_num_field(out: &mut String, key: &str, n: u32)
    ensures
        final(out)@ == old(out)@ + num_field(key@, n),
{
    push_quoted(out, key);
    push_char(out, ':');
    push_digits(out, n);
    assert(out@ =~= old(out)@ + num_field(key@, n));
}

fn encode_empty(name: &str) -> (r: String)
    ensures
        r@ == record(name@, Seq::empty()),
{
    let mut out = String::new();
    push_head(&mut out, name);
    push_tail(&mut out);
    assert(out@ =~= record(name@, Seq::empty()));
    out
}

fn encode_str(name: &str, key: &str, v: &String) -> (r: String)
    ensures
        r@ == record(name@, str_field(key@, v@)),
{
    let mut out = String::new();
    push_head(&mut out, name);
    push_str_field(&mut out, key, v);
    push_tail(&mut out);
    assert(out@ =~= record(name@, str_field(key@, v@)));
    out
}

fn encode_num(name: &str, key: &str, n: u32) -> (r: String)
    ensures
        r@ == record(name@, num_field(key@, n)),
{
    let mut out = String::new();
    push_head(&mut out, name);
    push_num_field(&mut out, key, n);
    push_tail(&mut out);
    assert(out@ =~= record(name@, num_field(key@, n)));
    out
}

fn read_head(t: &Vec<char>) -> (r: Option<(String, usize)>)
    ensures
        r matches Some((name, p)) ==> parse_head(t@) == Some((name@, p as int)),
        r is None ==> parse_head(t@) is None,
{
    match read_char(t, 0, '{') {
        None => None,
        Some(p) => match read_quoted(t, p) {
            None => None,
            Some((name, q)) => match read_char(t, q, ':') {
                None => {
                    proof {
                        lemma_has_at_concat(t@, q as int, seq![':'], seq!['{']);
                        assert(seq![':'] + seq!['{'] =~= seq![':', '{']);
                    }
                    None
                },
                Some(q1) => match read_char(t, q1, '{') {
                    None => {
                        proof {
                            lemma_has_at_concat(t@, q as int, seq![':'], seq!['{']);
                            assert(seq![':'] + seq!['{'] =~= seq![':', '{']);
                        }
                        None
                    },
                    Some(q2) => {
                        proof {
                            lemma_has_at_concat(t@, q as int, seq![':'], seq!['{']);
                            assert(seq![':'] + seq!['{'] =~= seq![':', '{']);
                        }
                        Some((name, q2))
                    },
                },
            },
        },
    }
}

fn at_end(t: &Vec<char>, p: usize) -> (r: bool)
    ensures
        r == is_end(t@, p as int),
{
    if t.len() >= 2 && p == t.len() - 2 && t[p] == '}' && t[p + 1] == '}' {
        assert(t@.subrange(p as int, p + 2) =~= seq!['}', '}']);
        true
    } else {
        proof {
            if is_end(t@, p as int) {
                assert(t@.subrange(p as int, p + 2)[0] == t@[p as int]);
                assert(t@.subrange(p as int, p + 2)[1] == t@[p + 1]);
            }
        }
        false
    }
}

fn read_key(t: &Vec<char>, p: usize, key: &str) -> (r: Option<usize>)
    ensures
        r matches Some(q) ==> (parse_quoted(t@, p as int) matches Some((k, q0)) && k == key@
            && has_at(t@, q0, seq![':']) && q == q0 + 1),
        r is None ==> !(parse_quoted(t@, p as int) matches Some((k, q0)) && k == key@ && has_at(
            t@,
            q0,
            seq![':'],
        )),
{
    match read_quoted(t, p) {
        None => None,
        Some((k, q)) => if same_text(&k, key) {
            read_char(t, q, ':')
        } else {
            None
        },
    }
}

fn read_str_field(t: &Vec<char>, p: usize, key: &str) -> (r: Option<(String, usize)>)
    ensures
        r matches Some((v, q)) ==> parse_str_field(t@, p as int, key@) == Some((v@, q as int)),
        r is None ==> parse_str_field(t@, p as int, key@) is None,
{
    match read_key(t, p, key) {
        None => None,
        Some(q) => read_quoted(t, q),
    }
}

fn read_num_field(t: &Vec<char>, p: usize, key: &str) -> (r: Option<(u32, usize)>)
    ensures
        r matches Some((v, q)) ==> parse_num_field(t@, p as int, key@) == Some((v, q as int)),
        r is None ==> parse_num_field(t@, p as int, key@) is None,
{
    match read_key(t, p, key) {
        None => None,
        Some(q) => read_u32(t, q),
    }
}

fn read_str_record(t: &Vec<char>, p: usize, key: &str) -> (r: Option<String>)
    ensures
        r matches Some(v) ==> parse_str_record(t@, p as int, key@) == Some(v@),
        r is None ==> parse_str_record(t@, p as int, key@) is None,
{
    match read_str_field(t, p, key) {
        None => None,
        Some((v, q)) => if at_end(t, q) {
            Some(v)
        } else {
            None
        },
    }
}

fn read_num_record(t: &Vec<char>, p: usize, key: &str) -> (r: Option<u32>)
    ensures
        r == parse_num_record(t@, p as int, key@),
{
    match read_num_field(t, p, key) {
        None => None,
        Some((v, q)) => if at_end(t, q) {
            Some(v)
        } else {
            None
        },
    }
}

fn read_device(t: &Vec<char>, p: usize) -> (r: Option<EngineMessage>)
    ensures
        r matches Some(m) ==> parse_device(t@, p as int) == Some(m@),
        r is None ==> parse_device(t@, p as int) is None,
{
    let (name, after_name) = match read_str_field(t, p, "name") {
        None => return None,
        Some(x) => x,
    };
    let after_name = match read_char(t, after_name, ',') {
        None => return None,
        Some(q) => q,
    };
    let (index, after_index) = match read_num_field(t, after_name, "index") {
        None => return None,
        Some(x) => x,
    };
    let after_index = match read_char(t, after_index, ',') {
        None => return None,
        Some(q) => q,
    };
    let (identifier, after_identifier) = match read_str_field(t, after_index, "identifier") {
        None => return None,
        Some(x) => x,
    };
    let after_identifier = match read_char(t, after_identifier, ',') {
        None => return None,
        Some(q) => q,
    };
    let display_name = match read_str_record(t, after_identifier, "display_name") {
        None => return None,
        Some(x) => x,
    };
    Some(EngineMessage::DeviceConnected { name, index, identifier, display_name })
}

impl EngineMessage {
    /// The text form of this message.
    pub fn encode(&self) -> (r: String)
        ensures
            r@ == encode_engine(self@),
    {
        match self {
            EngineMessage::EngineStarted => encode_empty("EngineStarted"),
            EngineMessage::EngineStopped => encode_empty("EngineStopped"),
            EngineMessage::EngineLog { message } => encode_str("EngineLog", "message", message),
            EngineMessage::EngineError { message } => encode_str("EngineError", "message", message),
            EngineMessage::EngineVersion { version } => encode_str(
                "EngineVersion",
                "version",
                version,
            ),
            EngineMessage::ClientConnected { client_name } => encode_str(
                "ClientConnected",
                "client_name",
                client_name,
            ),
            EngineMessage::ClientDisconnected => encode_empty("ClientDisconnected"),
            EngineMessage::ClientRejected { reason } => encode_str(
                "ClientRejected",
                "reason",
                reason,
            ),
            EngineMessage::DeviceConnected { name, index, identifier, display_name } => {
                let mut out = String::new();
                push_head(&mut out, "DeviceConnected");
                let ghost start = out@;
                push_str_field(&mut out, "name", name);
                push_char(&mut out, ',');
                push_num_field(&mut out, "index", *index);
                push_char(&mut out, ',');
                push_str_field(&mut out, "identifier", identifier);
                push_char(&mut out, ',');
                push_str_field(&mut out, "display_name", display_name);
                assert(out@ =~= start + device_fields(
                    name@,
                    *index,
                    identifier@,
                    display_name@,
                ));
                push_tail(&mut out);
                assert(out@ =~= record(
                    "DeviceConnected"@,
                    device_fields(name@, *index, identifier@, display_name@),
                ));
                out
            },
            EngineMessage::DeviceDisconnected { index } => encode_num(
                "DeviceDisconnected",
                "index",
                *index,
            ),
        }
    }

    /// The message that `text` stands for, or `None` where it stands for none.
    pub fn decode(text: &str) -> (r: Option<EngineMessage>)
        ensures
            r matches Some(m) ==> decode_engine(text@) == Some(m@),
            r is None ==> decode_engine(text@) is None,
    {
        let t = chars_of(text);
        let (name, p) = match read_head(&t) {
            None => return None,
            Some(x) => x,
        };
        if same_text(&name, "EngineStarted") {
            if at_end(&t, p) {
                Some(EngineMessage::EngineStarted)
            } else {
                None
            }
        } else if same_text(&name, "EngineStopped") {
            if at_end(&t, p) {
                Some(EngineMessage::EngineStopped)
            } else {
                None
            }
        } else if same_text(&name, "ClientDisconnected") {
            if at_end(&t, p) {
                Some(EngineMessage::ClientDisconnected)
            } else {
                None
            }
        } else if same_text(&name, "EngineLog") {
            match read_str_record(&t, p, "message") {
                Some(v) => Some(EngineMessage::EngineLog { message: v }),
                None => None,
            }
        } else if same_text(&name, "EngineError") {
            match read_str_record(&t, p, "message") {
                Some(v) => Some(EngineMessage::EngineError { message: v }),
                None => None,
            }
        } else if same_text(&name, "EngineVersion") {
            match read_str_record(&t, p, "version") {
                Some(v) => Some(EngineMessage::EngineVersion { version: v }),
                None => None,
            }
        } else if same_text(&name, "ClientConnected") {
            match read_str_record(&t, p, "client_name") {
                Some(v) => Some(EngineMessage::ClientConnected { client_name: v }),
                None => None,
            }
        } else if same_text(&name, "ClientRejected") {
            match read_str_record(&t, p, "reason") {
                Some(v) => Some(EngineMessage::ClientRejected { reason: v }),
                None => None,
            }
        } else if same_text(&name, "DeviceConnected") {
            read_device(&t, p)
        } else if same_text(&name, "DeviceDisconnected") {
            match read_num_record(&t, p, "index") {
                Some(v) => Some(EngineMessage::DeviceDisconnected { index: v }),
                None => None,
            }
        } else {
            None
        }
    }
}

impl IntifaceMessage {
    /// The text form of this request.
    pub fn encode(&self) -> (r: String)
        ensures
            r@ == encode_intiface(*self),
    {
        match self {
            IntifaceMessage::RequestEngineVersion { expected_version } => encode_num(
                "RequestEngineVersion",
                "expected_version",
                *expected_version,
            ),
            IntifaceMessage::Stop => encode_empty("Stop"),
        }
    }

    /// The request that `text` stands for, or `None` where it stands for none.
    pub fn decode(text: &str) -> (r: Option<IntifaceMessage>)
        ensures
            r == decode_intiface(text@),
    {
        let t = chars_of(text);
        let (name, p) = match read_head(&t) {
            None => return None,
            Some(x) => x,
        };
        if same_text(&name, "Stop") {
            if at_end(&t, p) {
                Some(IntifaceMessage::Stop)
            } else {
                None
            }
        } else if same_text(&name, "RequestEngineVersion") {
            match read_num_record(&t, p, "expected_version") {
                Some(v) => Some(IntifaceMessage::RequestEngineVersion { expected_version: v }),
                None => None,
            }
        } else {
            None
        }
    }
}

} // verus!
