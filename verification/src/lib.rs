//! The logic of a client for the Mosquitto MQTT broker: the result codes of the
//! client library, the errors built from them, the messages a broker delivers,
//! the library version, and the decisions taken while waiting on the broker.

pub mod decimal;
pub mod error;
pub mod message;
pub mod session;
pub mod sys;
pub mod version;

pub use error::{connect_error, Error, ErrorView};
pub use message::{MessageView, MosqMessage, TopicMatcher};
pub use session::{
    ignore_disconnect, published, subscribed, unsubscribed, ConnectWait, PublishWait, WaitDecision,
    WaitStep,
};
pub use sys::{
    MOSQ_LOG_ALL, MOSQ_LOG_DEBUG, MOSQ_LOG_ERR, MOSQ_LOG_INFO, MOSQ_LOG_NONE, MOSQ_LOG_NOTICE,
    MOSQ_LOG_SUBSCRIBE, MOSQ_LOG_UNSUBSCRIBE, MOSQ_LOG_WARNING,
};
pub use version::{Version, VersionView};
