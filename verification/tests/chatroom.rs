//! Tests for the chat room records, the delivery correlator and the deletion
//! helpers.

use kether::chat_helpers;
use kether::chatroom::apply_echo_notification;
use kether::chatroom::build_send_message_request;
use kether::chatroom::collect_chat_rooms;
use kether::chatroom::collect_delete_identifiers;
use kether::chatroom::correlate_echo;
use kether::chatroom::is_echo_match;
use kether::chatroom::needs_echo_wait;
use kether::chatroom::process_send_message_response;
use kether::chatroom::update_preprocessed_from_notification;
use kether::chatroom::validate_delete_messages;
use kether::chatroom::ChatRoomGroupSummary;
use kether::chatroom::DeleteMessagesError;
use kether::chatroom::DeliveryCorrelation;
use kether::chatroom::DeliveryPhase;
use kether::chatroom::FriendMessageNotificationData;
use kether::chatroom::IncomingChatMessageData;
use kether::chatroom::SendChatMessageResponseData;
use kether::EnhancedGroupChatMessage;
use kether::FriendMessage;
use kether::MentionSteamId;
use kether::MessagePreprocessor;
use kether::SendGroupMessageParams;

fn note(chat_group_id: u64, chat_id: u64, timestamp: u32, ordinal: u32) -> IncomingChatMessageData {
    IncomingChatMessageData {
        chat_group_id,
        chat_id,
        steamid_sender: 76561199491325083,
        message: String::from("echo text"),
        timestamp,
        chat_name: String::from("room"),
        ordinal,
    }
}

#[test]
fn test_message_with_mentions() {
    let steam_id = MentionSteamId(76561199491325083);
    let message = chat_helpers::create_message_with_mentions("Hello", &[steam_id]);
    assert!(message.contains("@"));
}

#[test]
fn message_with_mentions_appends_each_id_in_order() {
    let base = 76561197960265728u64;
    let ids = [MentionSteamId(base + 1), MentionSteamId(base + 2)];
    let message = chat_helpers::create_message_with_mentions("Hello", &ids);
    assert_eq!(message, "Hello @[U:1:1] @[U:1:2]");
}

#[test]
fn broadcast_message_helpers_prefix_the_token() {
    assert_eq!(chat_helpers::create_message_with_all_mention("hi"), "@all hi");
    assert_eq!(chat_helpers::create_message_with_here_mention("hi"), "@here hi");
}

#[test]
fn format_steam_id_renders_the_bracketed_form() {
    assert_eq!(
        chat_helpers::format_steam_id(MentionSteamId(76561199491325083)),
        "[U:1:1531059355]",
    );
}

#[test]
fn send_params_default_to_no_echo() {
    let params = SendGroupMessageParams::new(1, 2, "hello");
    assert_eq!(params.chat_group_id, 1);
    assert_eq!(params.chat_id, 2);
    assert_eq!(params.message, "hello");
    assert!(!params.echo_to_sender);
    let params = params.with_echo_to_sender(true);
    assert!(params.echo_to_sender);
    assert_eq!(params.message, "hello");
}

#[test]
fn send_request_unescapes_the_outbound_text() {
    let params = SendGroupMessageParams::new(7, 8, r"see \[code\]");
    let request = build_send_message_request(&params);
    assert_eq!(request.chat_group_id, 7);
    assert_eq!(request.chat_id, 8);
    assert_eq!(request.message, "see [code]");
    assert!(!request.echo_to_sender);
}

#[test]
fn response_with_ordinal_completes_the_record() {
    let params = SendGroupMessageParams::new(1, 2, "hi").with_echo_to_sender(true);
    let response = SendChatMessageResponseData {
        modified_message: String::from("hi"),
        server_timestamp: 100,
        ordinal: Some(0),
    };
    let record = process_send_message_response(&params, &response);
    assert_eq!(record.ordinal, Some(0));
    assert_eq!(record.server_timestamp, Some(100));
    assert!(!needs_echo_wait(&params, &record));
}

#[test]
fn response_without_ordinal_requires_echo_wait_only_when_requested() {
    let response = SendChatMessageResponseData {
        modified_message: String::from("hi"),
        server_timestamp: 100,
        ordinal: None,
    };
    let with_echo = SendGroupMessageParams::new(1, 2, "hi").with_echo_to_sender(true);
    let record = process_send_message_response(&with_echo, &response);
    assert_eq!(record.ordinal, None);
    assert!(needs_echo_wait(&with_echo, &record));

    let without_echo = SendGroupMessageParams::new(1, 2, "hi");
    let record = process_send_message_response(&without_echo, &response);
    assert!(!needs_echo_wait(&without_echo, &record));
}

#[test]
fn matching_echo_backfills_ordinal_and_timestamp() {
    let params = SendGroupMessageParams::new(10, 20, "hi").with_echo_to_sender(true);
    let response = SendChatMessageResponseData {
        modified_message: String::from("hi"),
        server_timestamp: 100,
        ordinal: None,
    };
    let record = process_send_message_response(&params, &response);
    let notifications = vec![note(9, 20, 555, 3), note(10, 20, 777, 4), note(10, 20, 888, 5)];
    let outcome = correlate_echo(&params, record, &notifications);
    assert!(!outcome.echo_timed_out);
    assert_eq!(outcome.record.ordinal, Some(4));
    assert_eq!(outcome.record.server_timestamp, Some(777));
}

#[test]
fn echo_timeout_leaves_ordinal_unknown_and_warns() {
    let params = SendGroupMessageParams::new(10, 20, "hi").with_echo_to_sender(true);
    let response = SendChatMessageResponseData {
        modified_message: String::from("hi"),
        server_timestamp: 100,
        ordinal: None,
    };
    let record = process_send_message_response(&params, &response);
    let notifications = vec![note(10, 21, 555, 3), note(11, 20, 777, 4)];
    let outcome = correlate_echo(&params, record, &notifications);
    assert!(outcome.echo_timed_out);
    assert_eq!(outcome.record.ordinal, None);
    assert_eq!(outcome.record.server_timestamp, Some(100));
}

#[test]
fn correlation_key_is_the_room_pair_only() {
    assert!(is_echo_match(1, 2, &note(1, 2, 0, 0)));
    assert!(!is_echo_match(1, 2, &note(1, 3, 0, 0)));
    assert!(!is_echo_match(1, 2, &note(2, 2, 0, 0)));
}

#[test]
fn delivery_correlation_walks_sent_awaiting_done() {
    let params = SendGroupMessageParams::new(10, 20, "hi").with_echo_to_sender(true);
    let mut correlation = DeliveryCorrelation::start(&params);
    assert_eq!(correlation.phase, DeliveryPhase::Sent);

    let response = SendChatMessageResponseData {
        modified_message: String::from("hi"),
        server_timestamp: 100,
        ordinal: None,
    };
    correlation.on_response(&params, &response);
    assert_eq!(correlation.phase, DeliveryPhase::AwaitingEcho);

    assert!(!correlation.on_notification(&note(10, 21, 1, 1)));
    assert_eq!(correlation.phase, DeliveryPhase::AwaitingEcho);

    assert!(correlation.on_notification(&note(10, 20, 777, 4)));
    assert_eq!(correlation.phase, DeliveryPhase::Done);
    assert!(correlation.is_done());

    let outcome = correlation.into_outcome().expect("a record after the response");
    assert!(!outcome.echo_timed_out);
    assert_eq!(outcome.record.ordinal, Some(4));
    assert_eq!(outcome.record.server_timestamp, Some(777));
}

#[test]
fn delivery_correlation_timeout_is_a_warning_not_a_failure() {
    let params = SendGroupMessageParams::new(10, 20, "hi").with_echo_to_sender(true);
    let mut correlation = DeliveryCorrelation::start(&params);
    let response = SendChatMessageResponseData {
        modified_message: String::from("hi"),
        server_timestamp: 100,
        ordinal: None,
    };
    correlation.on_response(&params, &response);
    correlation.on_timeout();
    assert!(correlation.is_done());
    let outcome = correlation.into_outcome().expect("a record after the response");
    assert!(outcome.echo_timed_out);
    assert_eq!(outcome.record.ordinal, None);
}

#[test]
fn backfill_touches_only_the_sequencing_metadata() {
    let record = MessagePreprocessor::preprocess_message("hello @all");
    let updated = apply_echo_notification(record, &note(1, 2, 9, 3));
    assert_eq!(updated.original_message, "hello @all");
    assert_eq!(updated.modified_message, "hello @all");
    assert!(updated.mentions.is_some());
    assert_eq!(updated.server_timestamp, Some(9));
    assert_eq!(updated.ordinal, Some(3));
}

#[test]
fn update_from_notification_reparses_the_echoed_text() {
    let record = MessagePreprocessor::preprocess_message("original @all");
    let notification = IncomingChatMessageData {
        chat_group_id: 1,
        chat_id: 2,
        steamid_sender: 0,
        message: String::from("server text [spoiler]x[/spoiler]"),
        timestamp: 44,
        chat_name: String::from("room"),
        ordinal: 6,
    };
    let updated = update_preprocessed_from_notification(&record, &notification);
    assert_eq!(updated.original_message, "original @all");
    assert_eq!(updated.modified_message, "server text [spoiler]x[/spoiler]");
    assert!(updated.mentions.is_none());
    assert_eq!(updated.server_timestamp, Some(44));
    assert_eq!(updated.ordinal, Some(6));
}

#[test]
fn enhanced_message_carries_the_preprocessed_text() {
    let notification = IncomingChatMessageData {
        chat_group_id: 5,
        chat_id: 6,
        steamid_sender: 76561199491325083,
        message: String::from("hi @here"),
        timestamp: 1000,
        chat_name: String::from("general"),
        ordinal: 2,
    };
    let enhanced = EnhancedGroupChatMessage::from_notification(&notification);
    assert_eq!(enhanced.chat_group_id, 5);
    assert_eq!(enhanced.chat_id, 6);
    assert_eq!(enhanced.sender_steam_id.as_inner(), 76561199491325083);
    assert_eq!(enhanced.message, "hi @here");
    assert_eq!(enhanced.chat_name, "general");
    assert_eq!(enhanced.ordinal, 2);
    assert!(enhanced.preprocessed.mentions.unwrap().mention_here);
}

#[test]
fn friend_message_copies_the_notification_fields() {
    let notification = FriendMessageNotificationData {
        steamid_friend: 76561197960265729,
        message: String::from("yo"),
        rtime32_server_timestamp: 123,
        chat_entry_type: 1,
    };
    let friend_message = FriendMessage::from_notification(&notification);
    assert_eq!(friend_message.steam_id.as_inner(), 76561197960265729);
    assert_eq!(friend_message.message, "yo");
    assert_eq!(friend_message.timestamp, 123);
    assert_eq!(friend_message.chat_entry_type, 1);
}

#[test]
fn delete_identifiers_skip_incomplete_records() {
    let complete = MessagePreprocessor::process_response("a", "a", 10, 1);
    let incomplete = MessagePreprocessor::preprocess_message("b");
    let complete_too = MessagePreprocessor::process_response("c", "c", 30, 0);
    let identifiers =
        collect_delete_identifiers(&vec![complete, incomplete, complete_too]).unwrap();
    assert_eq!(identifiers, vec![(10, 1), (30, 0)]);
}

#[test]
fn delete_identifiers_report_why_nothing_is_deletable() {
    assert_eq!(collect_delete_identifiers(&vec![]), Err(DeleteMessagesError::EmptyList));
    let incomplete = MessagePreprocessor::preprocess_message("b");
    assert_eq!(
        collect_delete_identifiers(&vec![incomplete]),
        Err(DeleteMessagesError::AllMissingMetadata { total: 1 }),
    );
}

#[test]
fn explicit_delete_list_must_be_non_empty() {
    assert_eq!(validate_delete_messages(&vec![]), Err(DeleteMessagesError::EmptyList));
    assert_eq!(validate_delete_messages(&vec![(1, 2)]), Ok(()));
}

#[test]
fn chat_room_listing_keeps_entries_with_summaries() {
    let groups = vec![
        Some(ChatRoomGroupSummary {
            chat_group_id: 1,
            default_chat_id: 11,
            chat_group_name: String::from("first"),
        }),
        None,
        Some(ChatRoomGroupSummary {
            chat_group_id: 2,
            default_chat_id: 22,
            chat_group_name: String::from("second"),
        }),
    ];
    let rooms = collect_chat_rooms(&groups);
    assert_eq!(rooms.len(), 2);
    assert_eq!(rooms[0].chat_group_id, 1);
    assert_eq!(rooms[0].chat_id, 11);
    assert_eq!(rooms[0].chat_name, "first");
    assert_eq!(rooms[0].chat_group_name, "first");
    assert!(rooms[0].is_joined);
    assert_eq!(rooms[1].chat_group_id, 2);
    assert_eq!(rooms[1].chat_name, "second");
}

#[test]
fn collect_delete_identifiers_result_is_usable_for_deletion() {
    let sent = MessagePreprocessor::process_response("m", "m", 77, 0);
    let identifiers = collect_delete_identifiers(&vec![sent]).unwrap();
    assert_eq!(validate_delete_messages(&identifiers), Ok(()));
}
