//! Client-side facade for a group-chat service: a tag-markup parser, a mention
//! extractor, a preprocessing pipeline that stamps both onto message records,
//! delivery correlation for outgoing messages, and the decision logic of the
//! notification dispatch loop, together with a classification of transport
//! errors.

pub mod chatroom;
pub mod dispatch;
pub mod errors;
pub mod logon;
pub mod preprocessing;
pub mod text;

pub use chatroom::helpers as chat_helpers;
pub use chatroom::ChatRoomInfo;
pub use chatroom::EnhancedGroupChatMessage;
pub use chatroom::FriendMessage;
pub use chatroom::GroupChatMessage;
pub use chatroom::SendGroupMessageParams;
pub use errors::classify_connection_error;
pub use errors::classify_login_error;
pub use errors::classify_network_error;
pub use errors::ErrorDomain;
pub use errors::ErrorInventoryEntry;
pub use errors::RetryDisposition;
pub use logon::GameInfo;
pub use logon::LogonError;
pub use preprocessing::helpers as preprocessing_helpers;
pub use preprocessing::BBCodeContent;
pub use preprocessing::BBCodeNode;
pub use preprocessing::ChatMentions;
pub use preprocessing::MentionSteamId;
pub use preprocessing::MessagePreprocessor;
pub use preprocessing::PreprocessedMessage;
