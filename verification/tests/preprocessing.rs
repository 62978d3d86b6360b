//! Tests for the tag parser, the mention extractor and the preprocessing
//! pipeline.

use kether::preprocessing::bbcode::Parser;
use kether::preprocessing_helpers;
use kether::BBCodeContent;
use kether::MentionSteamId;
use kether::MessagePreprocessor;

fn text_of(content: &BBCodeContent) -> &str {
    match content {
        BBCodeContent::String(s) => s.as_str(),
        BBCodeContent::Node(_) => panic!("expected a text segment"),
    }
}

fn node_count(parsed: &[BBCodeContent]) -> usize {
    parsed.iter().filter(|c| matches!(c, BBCodeContent::Node(_))).count()
}

#[test]
fn test_bbcode_parsing() {
    let message = "Hello [b]world[/b] and [i]italic[/i] text";
    let parsed = MessagePreprocessor::parse_bbcode(message);

    assert!(!parsed.is_empty());
}

#[test]
fn test_mention_extraction() {
    let message = "Hello @all and @here users!";
    let mentions = MessagePreprocessor::extract_mentions(message);

    assert!(mentions.is_some());
    let mentions = mentions.unwrap();
    assert!(mentions.mention_all);
    assert!(mentions.mention_here);
}

#[test]
fn test_message_preprocessing() {
    let message = "Hello @all with [b]bold[/b] text";
    let preprocessed = MessagePreprocessor::preprocess_message(message);

    assert_eq!(preprocessed.original_message, message);
    assert!(preprocessed.mentions.is_some());
    assert!(!preprocessed.message_bbcode_parsed.is_empty());
}

#[test]
fn test_prepare_message_for_sending_preserves_brackets() {
    let message = r"Look at \[b\]escaped brackets\[/b\]";
    let prepared = MessagePreprocessor::prepare_message_for_sending(message);
    assert_eq!(prepared, "Look at [b]escaped brackets[/b]");
}

#[test]
fn test_process_response_round_trips_metadata() {
    let original = "hello";
    let modified = "hello world";
    let processed = MessagePreprocessor::process_response(original, modified, 42, 7);

    assert_eq!(processed.original_message, original);
    assert_eq!(processed.modified_message, modified);
    assert_eq!(processed.server_timestamp, Some(42));
    assert_eq!(processed.ordinal, Some(7));
}

#[test]
fn test_bbcode_parser_rejects_unknown_tags() {
    let parser = Parser::new(&["b"]);
    let parsed = parser.parse("[unknown]value[/unknown]");

    assert_eq!(parsed.len(), 1);
    assert!(matches!(parsed[0], BBCodeContent::String(_)));
}

#[test]
fn test_preprocessing_edge_cases() {
    let nested = MessagePreprocessor::preprocess_message(
        "Nested [spoiler]outer [code]inner[/code][/spoiler] tags",
    );
    assert!(node_count(&nested.message_bbcode_parsed) >= 1);
    assert!(nested.mentions.is_none());

    let inside_word = MessagePreprocessor::preprocess_message(
        "email@all.com should not ping everyone",
    );
    assert!(inside_word.mentions.is_none());

    let multilingual = MessagePreprocessor::preprocess_message(
        "こんにちは @here друзья [U:1:1531059355]",
    );
    let mentions = multilingual.mentions.expect("multilingual mentions");
    assert!(!mentions.mention_all);
    assert!(mentions.mention_here);
    assert_eq!(mentions.mention_steamids.len(), 1);
}

#[test]
fn empty_message_parses_to_single_empty_text() {
    let parsed = MessagePreprocessor::parse_bbcode("");
    assert_eq!(parsed.len(), 1);
    assert_eq!(text_of(&parsed[0]), "");
}

#[test]
fn rejected_tags_fold_back_to_the_original_string() {
    let parsed = MessagePreprocessor::parse_bbcode("Hello [b]world[/b]");
    assert_eq!(parsed.len(), 1);
    assert_eq!(text_of(&parsed[0]), "Hello [b]world[/b]");
}

#[test]
fn closing_marker_is_rejected_and_coalesced_with_the_body() {
    let parsed = MessagePreprocessor::parse_bbcode("[spoiler]hidden[/spoiler]");
    assert_eq!(parsed.len(), 2);
    match &parsed[0] {
        BBCodeContent::Node(node) => {
            assert_eq!(node.tag, "spoiler");
            assert!(node.attrs.is_empty());
            assert!(node.content.is_none());
        },
        BBCodeContent::String(_) => panic!("expected the spoiler tag first"),
    }
    assert_eq!(text_of(&parsed[1]), "hidden[/spoiler]");
}

#[test]
fn tag_value_is_split_on_the_first_equals_and_trimmed() {
    let parsed = MessagePreprocessor::parse_bbcode("[url= https://x?a=b ]t[/url]");
    match &parsed[0] {
        BBCodeContent::Node(node) => {
            assert_eq!(node.tag, "url");
            assert_eq!(node.attrs.len(), 1);
            assert_eq!(node.attrs[0].0, "value");
            assert_eq!(node.attrs[0].1, "https://x?a=b");
        },
        BBCodeContent::String(_) => panic!("expected the url tag first"),
    }
}

#[test]
fn unclosed_bracket_is_kept_as_literal_text() {
    let parsed = MessagePreprocessor::parse_bbcode("tail [spoiler");
    assert_eq!(parsed.len(), 1);
    assert_eq!(text_of(&parsed[0]), "tail [spoiler");
}

#[test]
fn parse_round_trip_reconstructs_rejected_spans() {
    let parsed = MessagePreprocessor::parse_bbcode("a[x]b[y]c");
    assert_eq!(parsed.len(), 1);
    assert_eq!(text_of(&parsed[0]), "a[x]b[y]c");
}

#[test]
fn parsing_twice_gives_structurally_equal_results() {
    let message = "mix [spoiler]a[/spoiler] and [code]b[/code] ends";
    let first = MessagePreprocessor::parse_bbcode(message);
    let second = MessagePreprocessor::parse_bbcode(message);
    assert_eq!(format!("{:?}", first), format!("{:?}", second));
}

#[test]
fn whole_token_match_is_required_for_broadcast_mentions() {
    assert!(MessagePreprocessor::extract_mentions("email@all.com").is_none());
}

#[test]
fn broadcast_mentions_set_only_their_flags() {
    let mentions = MessagePreprocessor::extract_mentions("Hello @all and @here!").unwrap();
    assert!(mentions.mention_all);
    assert!(mentions.mention_here);
    assert!(mentions.mention_steamids.is_empty());
}

#[test]
fn bracketed_id_is_decoded_to_its_steam64_form() {
    let mentions = MessagePreprocessor::extract_mentions("ping [U:1:1531059355]").unwrap();
    assert!(!mentions.mention_all);
    assert!(!mentions.mention_here);
    assert_eq!(mentions.mention_steamids.len(), 1);
    assert_eq!(mentions.mention_steamids[0].as_inner(), 76561199491325083u64);
}

#[test]
fn bracketed_id_with_instance_uses_the_instance_bits() {
    let mentions = MessagePreprocessor::extract_mentions("[U:1:5:2]").unwrap();
    assert_eq!(mentions.mention_steamids.len(), 1);
    assert_eq!(mentions.mention_steamids[0].as_inner(), 76561202255233029u64);
}

#[test]
fn malformed_id_tokens_are_skipped_silently() {
    assert!(MessagePreprocessor::extract_mentions("[U:1:12x] [U:1:] [U:1:99999999999]").is_none());
}

#[test]
fn duplicate_ids_keep_order_and_multiplicity() {
    let mentions =
        MessagePreprocessor::extract_mentions("[U:1:7] [U:1:3] [U:1:7]").unwrap();
    let ids: Vec<u64> =
        mentions.mention_steamids.iter().map(|m| m.as_inner()).collect();
    let base = 76561197960265728u64;
    assert_eq!(ids, vec![base + 7, base + 3, base + 7]);
}

#[test]
fn unescaping_leaves_other_backslashes_alone() {
    assert_eq!(
        MessagePreprocessor::prepare_message_for_sending(r"a\\[b\]c\d"),
        r"a\[b]c\d",
    );
}

#[test]
fn create_mention_helpers_render_the_fixed_tokens() {
    assert_eq!(preprocessing_helpers::create_all_mention(), "@all");
    assert_eq!(preprocessing_helpers::create_here_mention(), "@here");
    let mention = preprocessing_helpers::create_mention(MentionSteamId(76561199491325083u64));
    assert_eq!(mention, "@[U:1:1531059355]");
}

#[test]
fn has_mentions_checks_for_the_at_sign() {
    assert!(preprocessing_helpers::has_mentions("ping @someone"));
    assert!(!preprocessing_helpers::has_mentions("no mentions here"));
}

#[test]
fn formatting_wraps_messages_per_type() {
    assert_eq!(
        preprocessing_helpers::format_with_bbcode("secret", "spoiler", ""),
        "[spoiler]secret[/spoiler]",
    );
    assert_eq!(
        preprocessing_helpers::format_with_bbcode("let x;", "code", ""),
        "[code]let x;[/code]",
    );
    assert_eq!(
        preprocessing_helpers::format_with_bbcode("label", "url", "https://x"),
        "[url=https://x]label[/url]",
    );
    assert_eq!(
        preprocessing_helpers::format_with_bbcode("", "emoticon", "steamhappy"),
        "[emoticon:steamhappy]",
    );
    assert_eq!(preprocessing_helpers::format_with_bbcode("plain", "other", "v"), "plain");
}

#[test]
fn preprocess_leaves_sequencing_metadata_unknown() {
    let preprocessed = MessagePreprocessor::preprocess_message("hi");
    assert_eq!(preprocessed.server_timestamp, None);
    assert_eq!(preprocessed.ordinal, None);
    assert_eq!(preprocessed.modified_message, "hi");
}

#[test]
fn process_response_keeps_ordinal_zero_present() {
    let processed = MessagePreprocessor::process_response("a", "b", 9, 0);
    assert_eq!(processed.ordinal, Some(0));
    assert_ne!(processed.ordinal, None);
}
