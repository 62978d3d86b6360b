//! Convenience functions for chat operations: rendering ids and building
//! messages that carry mentions.

use vstd::prelude::*;

use crate::preprocessing::account_id_of;
use crate::preprocessing::is_user_steam_id;
use crate::preprocessing::steam3_string;
use crate::preprocessing::steam3_user_chars;
use crate::preprocessing::MentionSteamId;

verus! {

/// Render a user id in its bracketed textual form.
pub fn format_steam_id(steam_id: MentionSteamId) -> (r: String)
    requires
        is_user_steam_id(steam_id.0),
    ensures
        r@ == steam3_user_chars(account_id_of(steam_id.0)),
{
    steam3_string(steam_id.0)
}

/// A message followed by one ` @[U:1:`...`]` mention per id, in order.
pub open spec fn spec_message_with_mentions(message: Seq<char>, ids: Seq<u64>) -> Seq<char>
    decreases ids.len(),
{
    if ids.len() == 0 {
        message
    } else {
        spec_message_with_mentions(message, ids.drop_last()) + " @"@ + steam3_user_chars(
            account_id_of(ids.last()),
        )
    }
}

/// Append a mention of each given user to the message.
pub fn create_message_with_mentions(message: &str, steam_ids: &[MentionSteamId]) -> (r: String)
    requires
        forall|j: int| 0 <= j < steam_ids@.len() ==> is_user_steam_id(#[trigger] steam_ids@[j].0),
    ensures
        r@ == spec_message_with_mentions(
            message@,
            steam_ids@.map_values(|m: MentionSteamId| m.0),
        ),
{
    let ghost ids = steam_ids@.map_values(|m: MentionSteamId| m.0);
    let mut result = String::from_str(message);
    let n = steam_ids.len();
    let mut i: usize = 0;
    proof {
        assert(ids.take(0) =~= Seq::<u64>::empty());
    }
    while i < n
        invariant
            0 <= i <= n,
            n == steam_ids@.len(),
            ids == steam_ids@.map_values(|m: MentionSteamId| m.0),
            forall|j: int| 0 <= j < steam_ids@.len() ==> is_user_steam_id(
                #[trigger] steam_ids@[j].0,
            ),
            result@ == spec_message_with_mentions(message@, ids.take(i as int)),
        decreases n - i,
    {
        let id: MentionSteamId = *vstd::slice::slice_index_get(steam_ids, i);
        result.append(" @");
        let rendered = steam3_string(id.0);
        result.append(rendered.as_str());
        proof {
            assert(ids.take(i + 1 as int).drop_last() =~= ids.take(i as int));
            assert(ids.take(i + 1 as int).last() == ids[i as int]);
        }
        i = i + 1;
    }
    proof {
        assert(ids.take(n as int) =~= ids);
    }
    result
}

/// Prefix a message with the token that mentions all group members.
pub fn create_message_with_all_mention(message: &str) -> (r: String)
    ensures
        r@ == "@all "@ + message@,
{
    let mut out = String::from_str("@all ");
    out.append(message);
    out
}

/// Prefix a message with the token that mentions the online members.
pub fn create_message_with_here_mention(message: &str) -> (r: String)
    ensures
        r@ == "@here "@ + message@,
{
    let mut out = String::from_str("@here ");
    out.append(message);
    out
}

} // verus!
