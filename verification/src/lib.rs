//! A2Web connects web apps in native windows to an agent.
//!
//! Web apps register intents: typed, schematized units of data. Only types and ids are announced
//! to the agent; content is read, written and transferred through dedicated operations. This
//! library holds the rules: the shared document, the intent registry, the window host's handling
//! of events, and the bridge to the agent. Windows, sockets and document sync are its callers'.

pub mod bridge;
pub mod doc;
pub mod host;
pub mod intent;
pub mod json;
pub mod laws;
pub mod list;
pub mod message;
pub mod registry;
pub mod script;
pub mod system;
pub mod text;

pub use crate::bridge::JSON_WS_PORT;
pub use crate::bridge::SAMOD_WS_PORT;
pub use crate::doc::AgentDoc;
pub use crate::doc::IntentRegistration;
pub use crate::doc::IntentResponse;
pub use crate::doc::LaunchedWebView;
pub use crate::doc::PendingIntentOp;
pub use crate::doc::RegisteredIntent;
pub use crate::doc::WebViewStatus;
pub use crate::intent::is_valid_intent_id;
pub use crate::intent::is_valid_intent_type;
pub use crate::intent::normalize_intent_data;
pub use crate::intent::INTENT_TYPE_NOTES;
