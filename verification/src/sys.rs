//! Result codes, connection codes and log levels of the Mosquitto client library.

use vstd::prelude::*;

verus! {

pub const MOSQ_ERR_CONN_PENDING: i32 = -1;
pub const MOSQ_ERR_SUCCESS: i32 = 0;
pub const MOSQ_ERR_NOMEM: i32 = 1;
pub const MOSQ_ERR_PROTOCOL: i32 = 2;
pub const MOSQ_ERR_INVAL: i32 = 3;
pub const MOSQ_ERR_NO_CONN: i32 = 4;
pub const MOSQ_ERR_CONN_REFUSED: i32 = 5;
pub const MOSQ_ERR_NOT_FOUND: i32 = 6;
pub const MOSQ_ERR_CONN_LOST: i32 = 7;
pub const MOSQ_ERR_TLS: i32 = 8;
pub const MOSQ_ERR_PAYLOAD_SIZE: i32 = 9;
pub const MOSQ_ERR_NOT_SUPPORTED: i32 = 10;
pub const MOSQ_ERR_AUTH: i32 = 11;
pub const MOSQ_ERR_ACL_DENIED: i32 = 12;
pub const MOSQ_ERR_UNKNOWN: i32 = 13;
pub const MOSQ_ERR_ERRNO: i32 = 14;
pub const MOSQ_ERR_EAI: i32 = 15;
pub const MOSQ_ERR_PROXY: i32 = 16;

pub const MOSQ_LOG_NONE: i32 = 0x00;
pub const MOSQ_LOG_INFO: i32 = 0x01;
pub const MOSQ_LOG_NOTICE: i32 = 0x02;
pub const MOSQ_LOG_WARNING: i32 = 0x04;
pub const MOSQ_LOG_ERR: i32 = 0x08;
pub const MOSQ_LOG_DEBUG: i32 = 0x10;
pub const MOSQ_LOG_SUBSCRIBE: i32 = 0x20;
pub const MOSQ_LOG_UNSUBSCRIBE: i32 = 0x40;
pub const MOSQ_LOG_ALL: i32 = 0xFFFF;

pub const MOSQ_CONNECT_ERR_OK: i32 = 0;
pub const MOSQ_CONNECT_ERR_PROTOCOL: i32 = 1;
pub const MOSQ_CONNECT_ERR_BADID: i32 = 2;
pub const MOSQ_CONNECT_ERR_NOBROKER: i32 = 3;
pub const MOSQ_CONNECT_ERR_TIMEOUT: i32 = 256;

} // verus!
