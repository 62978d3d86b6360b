//! Chat room records and the delivery correlator: the data carried by group
//! and friend messages, the preparation of an outgoing send, and the
//! reconciliation of its synchronous response with the asynchronous echo
//! notification that may carry the sequencing metadata the response lacked.

pub mod helpers;

use vstd::prelude::*;

use crate::preprocessing::bbcode::allowed_bbcode_tags;
use crate::preprocessing::bbcode::contents_wf;
use crate::preprocessing::bbcode::spec_parse;
use crate::preprocessing::spec_extract;
use crate::preprocessing::spec_preprocess;
use crate::preprocessing::spec_process_response;
use crate::preprocessing::unescape_brackets;
use crate::preprocessing::MentionSteamId;
use crate::preprocessing::MessagePreprocessor;
use crate::preprocessing::PreprocessedMessage;
use crate::preprocessing::PreprocessedModel;

verus! {

/// Information about one chat room group.
#[derive(Debug, Clone)]
pub struct ChatRoomInfo {
    /// The unique identifier for the chat group.
    pub chat_group_id: u64,
    /// The unique identifier for the specific chat room within the group.
    pub chat_id: u64,
    /// The display name of the chat room.
    pub chat_name: String,
    /// The display name of the chat group.
    pub chat_group_name: String,
    /// Whether the current user is joined to this chat room.
    pub is_joined: bool,
}

/// Mathematical model of a chat room entry.
#[verifier::ext_equal]
pub struct ChatRoomModel {
    pub chat_group_id: u64,
    pub chat_id: u64,
    pub chat_name: Seq<char>,
    pub chat_group_name: Seq<char>,
    pub is_joined: bool,
}

impl View for ChatRoomInfo {
    type V = ChatRoomModel;

    open spec fn view(&self) -> ChatRoomModel {
        ChatRoomModel {
            chat_group_id: self.chat_group_id,
            chat_id: self.chat_id,
            chat_name: self.chat_name@,
            chat_group_name: self.chat_group_name@,
            is_joined: self.is_joined,
        }
    }
}

/// A friend message as delivered to callbacks.
#[derive(Debug, Clone)]
pub struct FriendMessage {
    /// The id of the friend who sent the message.
    pub steam_id: MentionSteamId,
    /// The message text.
    pub message: String,
    /// Unix timestamp of the message.
    pub timestamp: u32,
    /// The chat entry type identifier.
    pub chat_entry_type: i32,
}

/// A group chat message as delivered to callbacks.
#[derive(Debug, Clone)]
pub struct GroupChatMessage {
    /// The unique identifier for the chat group.
    pub chat_group_id: u64,
    /// The unique identifier for the specific chat room within the group.
    pub chat_id: u64,
    /// The id of the user who sent the message.
    pub sender_steam_id: MentionSteamId,
    /// The message text.
    pub message: String,
    /// Unix timestamp of the message.
    pub timestamp: u32,
    /// The display name of the chat room.
    pub chat_name: String,
    /// The sequence ordinal assigned by the server.
    pub ordinal: u32,
}

/// The fields of an incoming group-chat notification, as plain values.
#[derive(Debug, Clone)]
pub struct IncomingChatMessageData {
    /// The unique identifier for the chat group.
    pub chat_group_id: u64,
    /// The unique identifier for the specific chat room within the group.
    pub chat_id: u64,
    /// The raw 64-bit id of the sender.
    pub steamid_sender: u64,
    /// The message text.
    pub message: String,
    /// Unix timestamp of the message.
    pub timestamp: u32,
    /// The display name of the chat room.
    pub chat_name: String,
    /// The sequence ordinal assigned by the server.
    pub ordinal: u32,
}

/// The fields of an incoming friend-message notification, as plain values.
#[derive(Debug, Clone)]
pub struct FriendMessageNotificationData {
    /// The raw 64-bit id of the friend.
    pub steamid_friend: u64,
    /// The message text.
    pub message: String,
    /// Unix timestamp of the message.
    pub rtime32_server_timestamp: u32,
    /// The chat entry type identifier.
    pub chat_entry_type: i32,
}

impl FriendMessage {
    /// Build the callback record for one friend-message notification.
    pub fn from_notification(notification: &FriendMessageNotificationData) -> (r: FriendMessage)
        ensures
            r.steam_id.0 == notification.steamid_friend,
            r.message@ == notification.message@,
            r.timestamp == notification.rtime32_server_timestamp,
            r.chat_entry_type == notification.chat_entry_type,
    {
        FriendMessage {
            steam_id: MentionSteamId(notification.steamid_friend),
            message: notification.message.clone(),
            timestamp: notification.rtime32_server_timestamp,
            chat_entry_type: notification.chat_entry_type,
        }
    }
}

/// A group chat message with its preprocessed markup and mentions.
#[derive(Debug)]
pub struct EnhancedGroupChatMessage {
    /// The unique identifier for the chat group.
    pub chat_group_id: u64,
    /// The unique identifier for the specific chat room within the group.
    pub chat_id: u64,
    /// The id of the user who sent the message.
    pub sender_steam_id: MentionSteamId,
    /// The message text.
    pub message: String,
    /// Unix timestamp of the message.
    pub timestamp: u32,
    /// The display name of the chat room.
    pub chat_name: String,
    /// The sequence ordinal assigned by the server.
    pub ordinal: u32,
    /// The preprocessed markup and mentions of the message text.
    pub preprocessed: PreprocessedMessage,
}

impl EnhancedGroupChatMessage {
    /// Build the enhanced record for one incoming notification, running its
    /// text through the preprocessor.
    pub fn from_notification(notification: &IncomingChatMessageData) -> (r:
        EnhancedGroupChatMessage)
        ensures
            r.chat_group_id == notification.chat_group_id,
            r.chat_id == notification.chat_id,
            r.sender_steam_id.0 == notification.steamid_sender,
            r.message@ == notification.message@,
            r.timestamp == notification.timestamp,
            r.chat_name@ == notification.chat_name@,
            r.ordinal == notification.ordinal,
            r.preprocessed@ == spec_preprocess(notification.message@),
    {
        let preprocessed = MessagePreprocessor::preprocess_message(notification.message.as_str());
        EnhancedGroupChatMessage {
            chat_group_id: notification.chat_group_id,
            chat_id: notification.chat_id,
            sender_steam_id: MentionSteamId(notification.steamid_sender),
            message: notification.message.clone(),
            timestamp: notification.timestamp,
            chat_name: notification.chat_name.clone(),
            ordinal: notification.ordinal,
            preprocessed,
        }
    }
}

/// Parameters for sending a group message.
#[derive(Debug, Clone)]
pub struct SendGroupMessageParams {
    /// The unique identifier for the chat group.
    pub chat_group_id: u64,
    /// The unique identifier for the specific chat room within the group.
    pub chat_id: u64,
    /// The message text to send.
    pub message: String,
    /// Whether the server should echo the message back to the sender.
    pub echo_to_sender: bool,
}

impl SendGroupMessageParams {
    /// Create parameters with echo-to-sender off.
    pub fn new(chat_group_id: u64, chat_id: u64, message: &str) -> (r: Self)
        ensures
            r.chat_group_id == chat_group_id,
            r.chat_id == chat_id,
            r.message@ == message@,
            r.echo_to_sender == false,
    {
        Self { chat_group_id, chat_id, message: String::from_str(message), echo_to_sender: false }
    }

    /// Set whether the server should echo the message back to the sender.
    pub fn with_echo_to_sender(self, echo: bool) -> (r: Self)
        ensures
            r.chat_group_id == self.chat_group_id,
            r.chat_id == self.chat_id,
            r.message@ == self.message@,
            r.echo_to_sender == echo,
    {
        Self {
            chat_group_id: self.chat_group_id,
            chat_id: self.chat_id,
            message: self.message,
            echo_to_sender: echo,
        }
    }
}

/// The wire fields of a send request, with the message in its outbound form.
#[derive(Debug, Clone)]
pub struct SendChatMessageRequestData {
    /// The unique identifier for the chat group.
    pub chat_group_id: u64,
    /// The unique identifier for the specific chat room within the group.
    pub chat_id: u64,
    /// The message text with escaped brackets un-escaped.
    pub message: String,
    /// Whether the server should echo the message back to the sender.
    pub echo_to_sender: bool,
}

/// The fields of the synchronous send response that the correlator reads.
/// `ordinal` is `None` when the response did not carry one.
#[derive(Debug, Clone)]
pub struct SendChatMessageResponseData {
    /// The message text as the server modified it.
    pub modified_message: String,
    /// The server timestamp of the message.
    pub server_timestamp: u32,
    /// The sequence ordinal, when the response carried one; zero counts as
    /// carried.
    pub ordinal: Option<u32>,
}

/// Build the wire request for a send: the only transform applied to the text
/// is the bracket un-escaping of the outbound direction.
pub fn build_send_message_request(params: &SendGroupMessageParams) -> (r:
    SendChatMessageRequestData)
    ensures
        r.chat_group_id == params.chat_group_id,
        r.chat_id == params.chat_id,
        r.message@ == unescape_brackets(params.message@),
        r.echo_to_sender == params.echo_to_sender,
{
    let prepared_message = MessagePreprocessor::prepare_message_for_sending(
        params.message.as_str(),
    );
    SendChatMessageRequestData {
        chat_group_id: params.chat_group_id,
        chat_id: params.chat_id,
        message: prepared_message,
        echo_to_sender: params.echo_to_sender,
    }
}

/// The record a send response yields: annotated from the server-modified
/// text, with the ordinal kept exactly as the response carried it — present
/// (zero included) or absent.
pub open spec fn spec_send_response_record(
    original: Seq<char>,
    modified: Seq<char>,
    server_timestamp: u32,
    ordinal: Option<u32>,
) -> PreprocessedModel {
    PreprocessedModel {
        original_message: original,
        modified_message: modified,
        parsed: spec_parse(modified, allowed_bbcode_tags()),
        mentions: spec_extract(modified),
        server_timestamp: Some(server_timestamp),
        ordinal,
    }
}

/// Annotate the synchronous send response.  An ordinal the response carried
/// is kept, zero included; a missing one leaves the field unknown, to be
/// recovered from the echo notification or left `None` on timeout.
pub fn process_send_message_response(
    params: &SendGroupMessageParams,
    response: &SendChatMessageResponseData,
) -> (r: PreprocessedMessage)
    ensures
        r@ == spec_send_response_record(
            params.message@,
            response.modified_message@,
            response.server_timestamp,
            response.ordinal,
        ),
        contents_wf(r.message_bbcode_parsed@),
{
    let mut record = MessagePreprocessor::process_response(
        params.message.as_str(),
        response.modified_message.as_str(),
        response.server_timestamp,
        0,
    );
    record.ordinal = response.ordinal;
    record
}

/// Whether a send still has to wait on the notification stream: only when the
/// caller requested an echo and the response carried no ordinal.
pub fn needs_echo_wait(params: &SendGroupMessageParams, record: &PreprocessedMessage) -> (r: bool)
    ensures
        r == (params.echo_to_sender && record.ordinal is None),
{
    params.echo_to_sender && record.ordinal.is_none()
}

/// Whether a notification is taken for the echo of a send: the correlation
/// key is the room pair alone, nothing else.
pub open spec fn is_echo_match_spec(
    chat_group_id: u64,
    chat_id: u64,
    notification: IncomingChatMessageData,
) -> bool {
    notification.chat_group_id == chat_group_id && notification.chat_id == chat_id
}

/// Runtime check of the room-pair correlation key.
pub fn is_echo_match(
    chat_group_id: u64,
    chat_id: u64,
    notification: &IncomingChatMessageData,
) -> (r: bool)
    ensures
        r == is_echo_match_spec(chat_group_id, chat_id, *notification),
{
    notification.chat_group_id == chat_group_id && notification.chat_id == chat_id
}

/// A record after the echo backfill: sequencing metadata from the
/// notification, everything else untouched.
pub open spec fn spec_backfilled(m: PreprocessedModel, timestamp: u32, ordinal: u32)
    -> PreprocessedModel {
    PreprocessedModel {
        original_message: m.original_message,
        modified_message: m.modified_message,
        parsed: m.parsed,
        mentions: m.mentions,
        server_timestamp: Some(timestamp),
        ordinal: Some(ordinal),
    }
}

/// Backfill a record's sequencing metadata from an echo notification.  This
/// is the one mutation a returned record ever sees, and it happens at most
/// once per send.
pub fn apply_echo_notification(
    record: PreprocessedMessage,
    notification: &IncomingChatMessageData,
) -> (r: PreprocessedMessage)
    ensures
        r@ == spec_backfilled(record@, notification.timestamp, notification.ordinal),
{
    let mut record = record;
    record.server_timestamp = Some(notification.timestamp);
    record.ordinal = Some(notification.ordinal);
    record
}

/// The index of the first notification matching the room pair, if any.
pub open spec fn first_echo_index(
    chat_group_id: u64,
    chat_id: u64,
    notes: Seq<IncomingChatMessageData>,
    from: int,
) -> Option<int>
    decreases notes.len() - from,
    when 0 <= from
{
    if from >= notes.len() {
        None
    } else if is_echo_match_spec(chat_group_id, chat_id, notes[from]) {
        Some(from)
    } else {
        first_echo_index(chat_group_id, chat_id, notes, from + 1)
    }
}

pub proof fn lemma_first_echo_index(
    chat_group_id: u64,
    chat_id: u64,
    notes: Seq<IncomingChatMessageData>,
    from: int,
)
    requires
        0 <= from,
    ensures
        match first_echo_index(chat_group_id, chat_id, notes, from) {
            Some(k) => from <= k < notes.len() && is_echo_match_spec(chat_group_id, chat_id,
                notes[k],
            ) && forall|j: int|
                from <= j < k ==> !is_echo_match_spec(chat_group_id, chat_id, notes[j]),
            None => forall|j: int|
                from <= j < notes.len() ==> !is_echo_match_spec(chat_group_id, chat_id, notes[j]),
        },
    decreases notes.len() - from,
{
    if from < notes.len() && !is_echo_match_spec(chat_group_id, chat_id, notes[from]) {
        lemma_first_echo_index(chat_group_id, chat_id, notes, from + 1);
    }
}

/// The outcome of an echo wait: the possibly backfilled record, and whether
/// the wait ran out without a matching notification.
#[derive(Debug)]
pub struct EchoOutcome {
    /// The record, backfilled when a matching notification arrived.
    pub record: PreprocessedMessage,
    /// Whether no matching notification arrived: a warning, not a failure —
    /// the message itself was sent.
    pub echo_timed_out: bool,
}

/// Resolve an echo wait against the notifications that arrived inside the
/// correlation window, in stream order.  The first notification matching the
/// room pair wins and backfills the record's sequencing metadata; if none
/// matches, the record is returned unchanged — its ordinal still `None` —
/// together with the timeout flag.
pub fn correlate_echo(
    params: &SendGroupMessageParams,
    record: PreprocessedMessage,
    notifications: &Vec<IncomingChatMessageData>,
) -> (r: EchoOutcome)
    ensures
        match first_echo_index(params.chat_group_id, params.chat_id, notifications@, 0) {
            Some(k) => r.record@ == spec_backfilled(
                record@,
                notifications@[k].timestamp,
                notifications@[k].ordinal,
            ) && !r.echo_timed_out,
            None => r.record@ == record@ && r.echo_timed_out,
        },
{
    proof {
        lemma_first_echo_index(params.chat_group_id, params.chat_id, notifications@, 0);
    }
    let n = notifications.len();
    let mut i: usize = 0;
    while i < n
        invariant
            0 <= i <= n,
            n == notifications@.len(),
            forall|j: int|
                0 <= j < i ==> !is_echo_match_spec(
                    params.chat_group_id,
                    params.chat_id,
                    notifications@[j],
                ),
        decreases n - i,
    {
        let note = &notifications[i];
        if is_echo_match(params.chat_group_id, params.chat_id, note) {
            proof {
                lemma_first_echo_index(params.chat_group_id, params.chat_id, notifications@, 0);
            }
            let record = apply_echo_notification(record, note);
            return EchoOutcome { record, echo_timed_out: false };
        }
        i = i + 1;
    }
    EchoOutcome { record, echo_timed_out: true }
}

/// The phases of one send's delivery correlation.
#[derive(Debug, Clone, Copy, PartialEq, Eq, Structural)]
pub enum DeliveryPhase {
    /// The request is out; the synchronous response has not arrived.
    Sent,
    /// The response arrived without an ordinal and an echo was requested;
    /// the notification stream is being watched.
    AwaitingEcho,
    /// The record is complete, or incomplete past the timeout.
    Done,
}

/// The per-send delivery correlation state machine.  All state is local to
/// one send; the correlation key is the room pair of that send.
#[derive(Debug)]
pub struct DeliveryCorrelation {
    /// The chat group the send went to.
    pub chat_group_id: u64,
    /// The chat room the send went to.
    pub chat_id: u64,
    /// Whether the caller requested echo-to-sender delivery.
    pub echo_requested: bool,
    /// The current phase.
    pub phase: DeliveryPhase,
    /// The annotated record, once the response has arrived.
    pub record: Option<PreprocessedMessage>,
    /// Whether the echo wait ran out; a warning, never a hard failure.
    pub echo_timed_out: bool,
}

impl DeliveryCorrelation {
    /// Start correlating a send that has just been dispatched.
    pub fn start(params: &SendGroupMessageParams) -> (r: DeliveryCorrelation)
        ensures
            r.chat_group_id == params.chat_group_id,
            r.chat_id == params.chat_id,
            r.echo_requested == params.echo_to_sender,
            r.phase == DeliveryPhase::Sent,
            r.record is None,
            !r.echo_timed_out,
    {
        DeliveryCorrelation {
            chat_group_id: params.chat_group_id,
            chat_id: params.chat_id,
            echo_requested: params.echo_to_sender,
            phase: DeliveryPhase::Sent,
            record: None,
            echo_timed_out: false,
        }
    }

    /// Take in the synchronous response: the record is annotated from it, and
    /// the phase moves to `Done` — or to `AwaitingEcho` when an echo was
    /// requested and the response carried no ordinal.
    pub fn on_response(
        &mut self,
        params: &SendGroupMessageParams,
        response: &SendChatMessageResponseData,
    )
        requires
            old(self).phase == DeliveryPhase::Sent,
        ensures
            final(self).chat_group_id == old(self).chat_group_id,
            final(self).chat_id == old(self).chat_id,
            final(self).echo_requested == old(self).echo_requested,
            final(self).echo_timed_out == old(self).echo_timed_out,
            match final(self).record {
                Some(rec) => rec@ == spec_send_response_record(
                    params.message@,
                    response.modified_message@,
                    response.server_timestamp,
                    response.ordinal,
                ),
                None => false,
            },
            final(self).phase == if old(self).echo_requested && response.ordinal is None {
                DeliveryPhase::AwaitingEcho
            } else {
                DeliveryPhase::Done
            },
    {
        let record = process_send_message_response(params, response);
        let wait = self.echo_requested && record.ordinal.is_none();
        self.record = Some(record);
        self.phase = if wait {
            DeliveryPhase::AwaitingEcho
        } else {
            DeliveryPhase::Done
        };
    }

    /// Offer one notification from the stream.  It is accepted exactly when
    /// an echo is awaited and the room pair matches; acceptance backfills the
    /// record and finishes the correlation.
    pub fn on_notification(&mut self, notification: &IncomingChatMessageData) -> (accepted: bool)
        ensures
            accepted == (old(self).phase == DeliveryPhase::AwaitingEcho && is_echo_match_spec(
                old(self).chat_group_id,
                old(self).chat_id,
                *notification,
            ) && old(self).record is Some),
            final(self).chat_group_id == old(self).chat_group_id,
            final(self).chat_id == old(self).chat_id,
            final(self).echo_requested == old(self).echo_requested,
            final(self).echo_timed_out == old(self).echo_timed_out,
            accepted ==> final(self).phase == DeliveryPhase::Done && match (
                final(self).record,
                old(self).record,
            ) {
                (Some(now), Some(was)) => now@ == spec_backfilled(
                    was@,
                    notification.timestamp,
                    notification.ordinal,
                ),
                _ => false,
            },
            !accepted ==> *final(self) == *old(self),
    {
        if !(matches!(self.phase, DeliveryPhase::AwaitingEcho)) {
            return false;
        }
        if !is_echo_match(self.chat_group_id, self.chat_id, notification) {
            return false;
        }
        let held = self.record.take();
        match held {
            Some(record) => {
                let record = apply_echo_notification(record, notification);
                self.record = Some(record);
                self.phase = DeliveryPhase::Done;
                true
            },
            None => {
                proof {
                    assert(*final(self) == *old(self));
                }
                false
            },
        }
    }

    /// The correlation window ran out: finish with the record as it stands —
    /// its ordinal still `None` — and raise the timeout warning.
    pub fn on_timeout(&mut self)
        ensures
            final(self).chat_group_id == old(self).chat_group_id,
            final(self).chat_id == old(self).chat_id,
            final(self).echo_requested == old(self).echo_requested,
            final(self).record == old(self).record,
            old(self).phase == DeliveryPhase::AwaitingEcho ==> final(self).phase
                == DeliveryPhase::Done && final(self).echo_timed_out,
            old(self).phase != DeliveryPhase::AwaitingEcho ==> *final(self) == *old(self),
    {
        if matches!(self.phase, DeliveryPhase::AwaitingEcho) {
            self.phase = DeliveryPhase::Done;
            self.echo_timed_out = true;
        }
    }

    /// Whether the correlation has finished.
    pub fn is_done(&self) -> (r: bool)
        ensures
            r == (self.phase == DeliveryPhase::Done),
    {
        matches!(self.phase, DeliveryPhase::Done)
    }

    /// Hand out the finished record and the timeout flag.
    pub fn into_outcome(self) -> (r: Option<EchoOutcome>)
        requires
            self.phase == DeliveryPhase::Done,
        ensures
            match (r, self.record) {
                (Some(out), Some(rec)) => out.record == rec && out.echo_timed_out
                    == self.echo_timed_out,
                (None, None) => true,
                _ => false,
            },
    {
        match self.record {
            Some(record) => Some(EchoOutcome { record, echo_timed_out: self.echo_timed_out }),
            None => None,
        }
    }
}

/// Rebuild a record from the notification that echoes it: text, markup,
/// mentions and both metadata fields come from the notification; only the
/// original text is kept.
pub fn update_preprocessed_from_notification(
    preprocessed: &PreprocessedMessage,
    notification: &IncomingChatMessageData,
) -> (r: PreprocessedMessage)
    ensures
        r@ == spec_process_response(
            preprocessed@.original_message,
            notification.message@,
            notification.timestamp,
            notification.ordinal,
        ),
        contents_wf(r.message_bbcode_parsed@),
{
    MessagePreprocessor::process_response(
        preprocessed.original_message.as_str(),
        notification.message.as_str(),
        notification.timestamp,
        notification.ordinal,
    )
}

/// Why a deletion request could not be built.
#[derive(Debug, Clone, Copy, PartialEq, Eq, Structural)]
pub enum DeleteMessagesError {
    /// The caller handed in no messages at all.
    EmptyList,
    /// Every message lacked its server timestamp or its ordinal; `total` is
    /// how many were handed in.
    AllMissingMetadata { total: usize },
}

/// The deletable identifiers among a batch of records: the
/// (server timestamp, ordinal) pair of each record that has both, in order.
pub open spec fn delete_identifiers_spec(ms: Seq<PreprocessedMessage>) -> Seq<(u32, u32)>
    decreases ms.len(),
{
    if ms.len() == 0 {
        seq![]
    } else {
        let rest = delete_identifiers_spec(ms.drop_last());
        match (ms.last().server_timestamp, ms.last().ordinal) {
            (Some(ts), Some(ord)) => rest.push((ts, ord)),
            _ => rest,
        }
    }
}

/// Check a list of explicit message identifiers for deletion: an empty list
/// is refused.
pub fn validate_delete_messages(messages: &Vec<(u32, u32)>) -> (r: Result<
    (),
    DeleteMessagesError,
>)
    ensures
        r is Ok <==> messages@.len() > 0,
        r is Err ==> r->Err_0 == DeleteMessagesError::EmptyList,
{
    if messages.len() == 0 {
        Err(DeleteMessagesError::EmptyList)
    } else {
        Ok(())
    }
}

/// Collect the deletable identifiers from a batch of records.  Records whose
/// metadata is incomplete are skipped; the call fails exactly when nothing
/// deletable is left — as `EmptyList` for an empty batch, else as
/// `AllMissingMetadata` with the batch size.
pub fn collect_delete_identifiers(messages: &Vec<PreprocessedMessage>) -> (r: Result<
    Vec<(u32, u32)>,
    DeleteMessagesError,
>)
    ensures
        match r {
            Ok(ids) => ids@ == delete_identifiers_spec(messages@) && ids@.len() > 0,
            Err(DeleteMessagesError::EmptyList) => messages@.len() == 0,
            Err(DeleteMessagesError::AllMissingMetadata { total }) => messages@.len() > 0 && total
                == messages@.len() && delete_identifiers_spec(messages@).len() == 0,
        },
{
    let n = messages.len();
    let mut identifiers: Vec<(u32, u32)> = Vec::new();
    let mut i: usize = 0;
    while i < n
        invariant
            0 <= i <= n,
            n == messages@.len(),
            identifiers@ == delete_identifiers_spec(messages@.take(i as int)),
        decreases n - i,
    {
        let msg = &messages[i];
        proof {
            assert(messages@.take(i + 1 as int).drop_last() =~= messages@.take(i as int));
            assert(messages@.take(i + 1 as int).last() == messages@[i as int]);
        }
        match (msg.server_timestamp, msg.ordinal) {
            (Some(ts), Some(ord)) => {
                identifiers.push((ts, ord));
            },
            _ => {},
        }
        i = i + 1;
    }
    proof {
        assert(messages@.take(n as int) =~= messages@);
    }
    if identifiers.len() == 0 {
        if n > 0 {
            Err(DeleteMessagesError::AllMissingMetadata { total: n })
        } else {
            Err(DeleteMessagesError::EmptyList)
        }
    } else {
        Ok(identifiers)
    }
}

/// The summary fields of one chat room group, as plain values; `None` stands
/// for a listing entry that carried no summary.
#[derive(Debug, Clone)]
pub struct ChatRoomGroupSummary {
    /// The unique identifier for the chat group.
    pub chat_group_id: u64,
    /// The default chat room of the group.
    pub default_chat_id: u64,
    /// The display name of the chat group.
    pub chat_group_name: String,
}

/// The chat room entries a listing yields: one per entry that carried a
/// summary, in order, marked joined, with the group name standing in for the
/// room name as well.
pub open spec fn chat_rooms_spec(gs: Seq<Option<ChatRoomGroupSummary>>) -> Seq<ChatRoomModel>
    decreases gs.len(),
{
    if gs.len() == 0 {
        seq![]
    } else {
        let rest = chat_rooms_spec(gs.drop_last());
        match gs.last() {
            Some(g) => rest.push(
                ChatRoomModel {
                    chat_group_id: g.chat_group_id,
                    chat_id: g.default_chat_id,
                    chat_name: g.chat_group_name@,
                    chat_group_name: g.chat_group_name@,
                    is_joined: true,
                },
            ),
            None => rest,
        }
    }
}

/// Build the chat room list from the summaries of a listing response.
pub fn collect_chat_rooms(groups: &Vec<Option<ChatRoomGroupSummary>>) -> (r: Vec<ChatRoomInfo>)
    ensures
        r@.map_values(|c: ChatRoomInfo| c@) == chat_rooms_spec(groups@),
{
    let n = groups.len();
    let mut chat_rooms: Vec<ChatRoomInfo> = Vec::new();
    proof {
        assert(chat_rooms@.map_values(|c: ChatRoomInfo| c@) =~= chat_rooms_spec(
            groups@.take(0),
        ));
    }
    let mut i: usize = 0;
    while i < n
        invariant
            0 <= i <= n,
            n == groups@.len(),
            chat_rooms@.map_values(|c: ChatRoomInfo| c@) == chat_rooms_spec(groups@.take(i as int)),
        decreases n - i,
    {
        proof {
            assert(groups@.take(i + 1 as int).drop_last() =~= groups@.take(i as int));
            assert(groups@.take(i + 1 as int).last() == groups@[i as int]);
        }
        let ghost before = chat_rooms@;
        match &groups[i] {
            Some(group_summary) => {
                let chat_room = ChatRoomInfo {
                    chat_group_id: group_summary.chat_group_id,
                    chat_id: group_summary.default_chat_id,
                    chat_name: group_summary.chat_group_name.clone(),
                    chat_group_name: group_summary.chat_group_name.clone(),
                    is_joined: true,
                };
                chat_rooms.push(chat_room);
                proof {
                    assert(chat_rooms@.map_values(|c: ChatRoomInfo| c@) =~= before.map_values(
                        |c: ChatRoomInfo| c@,
                    ).push(chat_rooms@.last()@));
                }
            },
            None => {},
        }
        i = i + 1;
    }
    proof {
        assert(groups@.take(n as int) =~= groups@);
    }
    chat_rooms
}

} // verus!
