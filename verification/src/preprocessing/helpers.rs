//! Convenience functions around the preprocessor: building mention tokens and
//! wrapping messages in markup.

use vstd::prelude::*;

use super::account_id_of;
use super::bbcode;
use super::bbcode::spec_format_with_bbcode;
use super::is_user_steam_id;
use super::steam3_string;
use super::steam3_user_chars;
use super::MentionSteamId;

verus! {

/// Build the `@[U:1:`...`]` token that mentions the given user.
pub fn create_mention(steam_id: MentionSteamId) -> (r: String)
    requires
        is_user_steam_id(steam_id.0),
    ensures
        r@ == "@"@ + steam3_user_chars(account_id_of(steam_id.0)),
{
    let mut out = String::from_str("@");
    let rendered = steam3_string(steam_id.0);
    out.append(rendered.as_str());
    out
}

/// The token that mentions all group members.
pub fn create_all_mention() -> (r: String)
    ensures
        r@ == "@all"@,
{
    String::from_str("@all")
}

/// The token that mentions the online members.
pub fn create_here_mention() -> (r: String)
    ensures
        r@ == "@here"@,
{
    String::from_str("@here")
}

/// Whether a message holds any mention token at all.  Every mention form
/// carries an `@`, so this is exactly the presence of that character.
pub fn has_mentions(message: &str) -> (r: bool)
    ensures
        r == message@.contains('@'),
{
    crate::text::contains_char(message, '@')
}

/// Wrap a message in markup of the given type.
pub fn format_with_bbcode(message: &str, bbcode_type: &str, value: &str) -> (r: String)
    ensures
        r@ == spec_format_with_bbcode(message@, bbcode_type@, value@),
{
    bbcode::format_with_bbcode(message, bbcode_type, value)
}

} // verus!
