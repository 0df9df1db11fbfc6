//! The response envelope received from the exchange. The `arg` and `data`
//! payloads are kept as decoded JSON values and passed through unread.

use crate::operation::Operation;
use vstd::prelude::*;

verus! {

#[verifier::external_type_specification]
#[verifier::external_body]
pub struct ExValue(serde_json::Value);

/// A decoded response frame.
#[derive(Clone, Debug)]
pub struct WsResponseMessage {
    pub id: Option<u64>,
    pub event: Option<Operation>,
    pub arg: Option<serde_json::Value>,
    pub code: Option<String>,
    pub msg: Option<String>,
    pub event_type: Option<String>,
    pub cur_page: Option<i32>,
    pub last_page: Option<bool>,
    pub data: Option<serde_json::Value>,
    pub conn_id: Option<String>,
}

impl WsResponseMessage {
    /// An envelope with no field set.
    pub open spec fn is_blank(self) -> bool {
        &&& self.id is None
        &&& self.event is None
        &&& self.arg is None
        &&& self.code is None
        &&& self.msg is None
        &&& self.event_type is None
        &&& self.cur_page is None
        &&& self.last_page is None
        &&& self.data is None
        &&& self.conn_id is None
    }

    /// An error event with the given code and message.
    pub fn error(code: String, msg: String) -> (r: Self)
        ensures
            r.event == Some(Operation::Error),
            r.code == Some(code),
            r.msg == Some(msg),
            r.id is None && r.arg is None && r.event_type is None && r.cur_page is None,
            r.last_page is None && r.data is None && r.conn_id is None,
    {
        WsResponseMessage {
            id: None,
            event: Some(Operation::Error),
            arg: None,
            code: Some(code),
            msg: Some(msg),
            event_type: None,
            cur_page: None,
            last_page: None,
            data: None,
            conn_id: None,
        }
    }

    /// The envelope that stands for a control frame (ping or pong) on the
    /// connection `conn_id`: a pong event with code `0`.
    pub fn pong(conn_id: String) -> (r: Self)
        ensures
            r.event == Some(Operation::Pong),
            r.code matches Some(c) && c@ == "0"@,
            r.conn_id == Some(conn_id),
            r.id is None && r.arg is None && r.msg is None && r.event_type is None,
            r.cur_page is None && r.last_page is None && r.data is None,
    {
        WsResponseMessage {
            id: None,
            event: Some(Operation::Pong),
            arg: None,
            code: Some("0".to_owned()),
            msg: None,
            event_type: None,
            cur_page: None,
            last_page: None,
            data: None,
            conn_id: Some(conn_id),
        }
    }
}

impl Default for WsResponseMessage {
    fn default() -> (r: Self)
        ensures
            r.is_blank(),
    {
        WsResponseMessage {
            id: None,
            event: None,
            arg: None,
            code: None,
            msg: None,
            event_type: None,
            cur_page: None,
            last_page: None,
            data: None,
            conn_id: None,
        }
    }
}

} // verus!
