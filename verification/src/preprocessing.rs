//! Message preprocessing: tag-markup parsing and mention extraction, composed
//! into annotated message records in both the outbound-preparation and the
//! response-annotation direction.

pub mod bbcode;
pub mod helpers;

pub use bbcode::BBCodeContent;
pub use bbcode::BBCodeNode;
pub use bbcode::ContentModel;
pub use bbcode::Parser;
pub use bbcode::TagModel;

use vstd::prelude::*;

use crate::text::find_from;
use crate::text::is_digit_run;
use crate::text::digits_val;
use crate::text::is_space_char;
use crate::text::lemma_token_end;
use crate::text::lemma_trim_back_while;
use crate::text::lemma_trim_front_while;
use crate::text::token_end;
use crate::text::tokens_from;
use crate::text::trim_while;
use crate::text::str_eq;
use crate::text::is_space;
use crate::text::dec_digits;
use bbcode::allowed_bbcode_tags;
use bbcode::contents_wf;
use bbcode::spec_parse;
use bbcode::view_contents;

verus! {

/// An opaque 64-bit account identifier.  Equality is by raw value; the value
/// is never validated beyond the textual format it was recognised in.
#[derive(Debug, Clone, Copy, PartialEq, Eq, Hash, Structural)]
pub struct MentionSteamId(pub u64);

/// The fixed high bits of an individual, public-universe, desktop-instance
/// account id; the low 32 bits hold the account number.
pub open spec fn is_user_steam_id(id: u64) -> bool {
    id / 0x1_0000_0000 == 0x01100001
}

/// The account number in the low 32 bits of an id.
pub open spec fn account_id_of(id: u64) -> nat {
    (id % 0x1_0000_0000) as nat
}

/// The 64-bit encoding of an account number under the given instance, with
/// individual type and public universe.
pub open spec fn user_steam64(account: nat, instance: nat) -> u64 {
    (0x0110_0000_0000_0000 + instance * 0x1_0000_0000 + account) as u64
}

/// The bracketed textual form that mention extraction recognises: at least
/// `[U:1:` plus a closing `]`.
pub open spec fn is_steam_id_format_spec(t: Seq<char>) -> bool {
    &&& t.len() >= 6
    &&& t.subrange(0, 5) == "[U:1:"@
    &&& t[t.len() - 1] == ']'
}

/// What decoding a `[U:1:`...`]` token yields: the encoded id when the middle
/// is a digit run (optionally followed by `:` and an instance digit run whose
/// value is 0, 1, 2 or 4) whose value fits in 32 bits, and nothing otherwise.
pub open spec fn spec_decode_steam3(t: Seq<char>) -> Option<u64> {
    let mid = t.subrange(5, t.len() - 1);
    match find_from(mid, ':', 0) {
        None => if is_digit_run(mid) && digits_val(mid) <= u32::MAX {
            Some(user_steam64(digits_val(mid), 1))
        } else {
            None
        },
        Some(k) => {
            let d1 = mid.subrange(0, k);
            let d2 = mid.subrange(k + 1, mid.len() as int);
            if is_digit_run(d1) && digits_val(d1) <= u32::MAX && is_digit_run(d2) && (digits_val(
                d2,
            ) == 0 || digits_val(d2) == 1 || digits_val(d2) == 2 || digits_val(d2) == 4) {
                Some(user_steam64(digits_val(d1), digits_val(d2)))
            } else {
                None
            }
        },
    }
}

/// The textual rendering of an individual, public-universe, desktop-instance
/// account id.
pub open spec fn steam3_user_chars(account: nat) -> Seq<char> {
    "[U:1:"@ + dec_digits(account) + "]"@
}

/// Relies on `steamid_ng::SteamID::from_steam3`: on a token opening with
/// `[U:1:` and closing with `]` it parses the account digits (and an optional
/// `:instance` part accepted only for instance values 0, 1, 2 and 4, with
/// desktop instance 1 the default), rejects anything else between the
/// brackets, and encodes an individual public-universe id.
#[verifier::external_body]
fn decode_steam3_token(token: &str) -> (r: Option<u64>)
    requires
        is_steam_id_format_spec(token@),
    ensures
        r == spec_decode_steam3(token@),
{
    steamid_ng::SteamID::from_steam3(token).ok().map(u64::from)
}

/// Relies on `steamid_ng::SteamID::steam3`: an individual, public-universe,
/// desktop-instance id renders as `[U:1:` followed by the account number in
/// decimal and a closing `]`.
#[verifier::external_body]
pub(crate) fn steam3_string(id: u64) -> (r: String)
    requires
        is_user_steam_id(id),
    ensures
        r@ == steam3_user_chars(account_id_of(id)),
{
    match steamid_ng::SteamID::try_from(id) {
        Ok(s) => s.steam3(),
        Err(_) => String::new(),
    }
}

impl MentionSteamId {
    /// Consume the wrapper and return the raw 64-bit id.
    pub fn into_inner(self) -> (r: u64)
        ensures
            r == self.0,
    {
        self.0
    }

    /// The raw 64-bit id.
    pub fn as_inner(&self) -> (r: u64)
        ensures
            r == self.0,
    {
        self.0
    }
}

/// The broadcast, presence and user-id signals extracted from one message.
/// `None` at the extractor means no signal fired; an empty set here is a
/// different state and never stands for "no mentions".
#[derive(Debug, Clone)]
pub struct ChatMentions {
    /// Whether the message mentions all group members (a whole-token `@all`).
    pub mention_all: bool,
    /// Whether the message mentions present members (a whole-token `@here`).
    pub mention_here: bool,
    /// The ids mentioned in `[U:1:`...`]` form, duplicates and order kept.
    pub mention_steamids: Vec<MentionSteamId>,
}

/// Mathematical model of a mention set.
#[verifier::ext_equal]
pub struct MentionsModel {
    pub all: bool,
    pub here: bool,
    pub ids: Seq<u64>,
}

impl View for ChatMentions {
    type V = MentionsModel;

    open spec fn view(&self) -> MentionsModel {
        MentionsModel {
            all: self.mention_all,
            here: self.mention_here,
            ids: self.mention_steamids@.map_values(|m: MentionSteamId| m.0),
        }
    }
}

/// Whether any of the three signals fired.
pub open spec fn mentions_any(m: MentionsModel) -> bool {
    m.all || m.here || m.ids.len() > 0
}

impl ChatMentions {
    /// Whether this mention set carries any signal at all.
    pub fn has_any_mentions(&self) -> (r: bool)
        ensures
            r == mentions_any(self@),
    {
        self.mention_all || self.mention_here || self.mention_steamids.len() > 0
    }
}

/// The punctuation trimmed from both ends of a token before matching, so that
/// `@all!` still matches while characters inside an id are left alone.
pub open spec fn is_mention_punct(c: char) -> bool {
    c == '!' || c == '?' || c == ',' || c == '.' || c == ';'
}

pub open spec fn punct_pred() -> spec_fn(char) -> bool {
    |c: char| is_mention_punct(c)
}

/// A token trimmed of surrounding mention punctuation.
pub open spec fn cleaned_token(t: Seq<char>) -> Seq<char> {
    trim_while(t, punct_pred())
}

fn is_punct(c: char) -> (r: bool)
    ensures
        r == is_mention_punct(c),
{
    c == '!' || c == '?' || c == ',' || c == '.' || c == ';'
}

/// Runtime punctuation trim.
fn trim_mention_punct<'a>(s: &'a str) -> (r: &'a str)
    ensures
        r@ == cleaned_token(s@),
{
    let n = s.unicode_len();
    let mut a: usize = 0;
    while a < n && is_punct(s.get_char(a))
        invariant
            0 <= a <= n,
            n == s@.len(),
            forall|j: int| 0 <= j < a ==> is_mention_punct(s@[j]),
        decreases n - a,
    {
        a = a + 1;
    }
    proof {
        lemma_trim_front_while(s@, punct_pred(), a as int);
    }
    let mut b: usize = n;
    while b > a && is_punct(s.get_char(b - 1))
        invariant
            a <= b <= n,
            n == s@.len(),
            forall|j: int| b <= j < n ==> is_mention_punct(s@[j]),
        decreases b,
    {
        b = b - 1;
    }
    proof {
        let t = s@.subrange(a as int, n as int);
        assert(forall|j: int| b - a <= j < t.len() ==> punct_pred()(#[trigger] t[j]));
        if b > a {
            assert(!punct_pred()(t[b - a - 1]));
        }
        lemma_trim_back_while(t, punct_pred(), b - a as int);
        assert(t.subrange(0, b - a as int) =~= s@.subrange(a as int, b as int));
    }
    s.substring_char(a, b)
}

/// How one token updates the mention signals: an exact `@all` or `@here`
/// match (after punctuation trimming) sets the respective flag; a token in
/// bracketed id form appends its decoded id; everything else changes nothing.
pub open spec fn fold_token(m: MentionsModel, t: Seq<char>) -> MentionsModel {
    let c = cleaned_token(t);
    if c == "@all"@ {
        MentionsModel { all: true, here: m.here, ids: m.ids }
    } else if c == "@here"@ {
        MentionsModel { all: m.all, here: true, ids: m.ids }
    } else if is_steam_id_format_spec(c) {
        match spec_decode_steam3(c) {
            Some(id) => MentionsModel { all: m.all, here: m.here, ids: m.ids.push(id) },
            None => m,
        }
    } else {
        m
    }
}

/// The mention signals after a whole token stream.
pub open spec fn fold_tokens(m: MentionsModel, ts: Seq<Seq<char>>) -> MentionsModel
    decreases ts.len(),
{
    if ts.len() == 0 {
        m
    } else {
        fold_tokens(fold_token(m, ts[0]), ts.drop_first())
    }
}

pub open spec fn empty_mentions() -> MentionsModel {
    MentionsModel { all: false, here: false, ids: seq![] }
}

/// What mention extraction returns: `Some` of the folded signals exactly when
/// at least one fired over the whitespace-separated tokens, else `None`.
pub open spec fn spec_extract(s: Seq<char>) -> Option<MentionsModel> {
    let m = fold_tokens(empty_mentions(), tokens_from(s, 0));
    if mentions_any(m) {
        Some(m)
    } else {
        None
    }
}

/// "No mentions" and "an empty mention set" are distinct states: extraction
/// never hands out a present mention set in which no signal fired.
pub proof fn lemma_extract_never_empty(s: Seq<char>)
    ensures
        match spec_extract(s) {
            Some(m) => mentions_any(m),
            None => true,
        },
{
}

/// Mathematical model of an annotated message record.
#[verifier::ext_equal]
pub struct PreprocessedModel {
    pub original_message: Seq<char>,
    pub modified_message: Seq<char>,
    pub parsed: Seq<ContentModel>,
    pub mentions: Option<MentionsModel>,
    pub server_timestamp: Option<u32>,
    pub ordinal: Option<u32>,
}

/// An annotated message record: the text in both its original and its
/// server-confirmed rendering, the parsed markup and mentions, and the
/// late-bound sequencing metadata.  `ordinal == Some(0)` is a valid, present
/// value and is never conflated with `None` ("not yet known").
#[derive(Debug)]
pub struct PreprocessedMessage {
    /// The message text as handed in by the caller; never overwritten.
    pub original_message: String,
    /// The last server-confirmed or locally-echoed rendering.
    pub modified_message: String,
    /// The flat markup segmentation of `modified_message`.
    pub message_bbcode_parsed: Vec<BBCodeContent>,
    /// The extracted mentions, absent when no signal fired.
    pub mentions: Option<ChatMentions>,
    /// The server timestamp, when known.
    pub server_timestamp: Option<u32>,
    /// The sequence ordinal, when known; zero is a valid present value.
    pub ordinal: Option<u32>,
}

impl View for PreprocessedMessage {
    type V = PreprocessedModel;

    open spec fn view(&self) -> PreprocessedModel {
        PreprocessedModel {
            original_message: self.original_message@,
            modified_message: self.modified_message@,
            parsed: view_contents(self.message_bbcode_parsed@),
            mentions: match self.mentions {
                Some(m) => Some(m@),
                None => None,
            },
            server_timestamp: self.server_timestamp,
            ordinal: self.ordinal,
        }
    }
}

/// What preprocessing a raw message yields: both text fields hold the raw
/// message, markup and mentions come from it, and no sequencing metadata is
/// known yet.
pub open spec fn spec_preprocess(s: Seq<char>) -> PreprocessedModel {
    PreprocessedModel {
        original_message: s,
        modified_message: s,
        parsed: spec_parse(s, allowed_bbcode_tags()),
        mentions: spec_extract(s),
        server_timestamp: None,
        ordinal: None,
    }
}

/// What annotating a server response yields: the parse and the mentions are
/// re-run over the server-modified text, and both metadata fields are set —
/// the ordinal unconditionally, zero included.
pub open spec fn spec_process_response(
    original: Seq<char>,
    modified: Seq<char>,
    server_timestamp: u32,
    ordinal: u32,
) -> PreprocessedModel {
    PreprocessedModel {
        original_message: original,
        modified_message: modified,
        parsed: spec_parse(modified, allowed_bbcode_tags()),
        mentions: spec_extract(modified),
        server_timestamp: Some(server_timestamp),
        ordinal: Some(ordinal),
    }
}

/// The outbound unescaping: each `\[` becomes `[` and each `\]` becomes `]`,
/// left to right; everything else is kept.
pub open spec fn unescape_brackets(s: Seq<char>) -> Seq<char>
    decreases s.len(),
{
    if s.len() == 0 {
        s
    } else if s.len() >= 2 && s[0] == '\\' && (s[1] == '[' || s[1] == ']') {
        seq![s[1]] + unescape_brackets(s.skip(2))
    } else {
        seq![s[0]] + unescape_brackets(s.skip(1))
    }
}

/// Message preprocessor: parses markup, extracts mentions, and builds
/// annotated records for the outbound and the inbound direction.
pub struct MessagePreprocessor;

impl MessagePreprocessor {
    /// Build the provisional record for a raw message: parse its markup,
    /// extract its mentions, and leave the sequencing metadata unknown.
    pub fn preprocess_message(message: &str) -> (r: PreprocessedMessage)
        ensures
            r@ == spec_preprocess(message@),
            contents_wf(r.message_bbcode_parsed@),
    {
        let message_bbcode_parsed = Self::parse_bbcode(message);
        let mentions = Self::extract_mentions(message);
        let r = PreprocessedMessage {
            original_message: String::from_str(message),
            modified_message: String::from_str(message),
            message_bbcode_parsed,
            mentions,
            server_timestamp: None,
            ordinal: None,
        };
        r
    }

    /// Parse a message against the fixed allow-list of markup tags.
    pub fn parse_bbcode(message: &str) -> (r: Vec<BBCodeContent>)
        ensures
            view_contents(r@) == spec_parse(message@, allowed_bbcode_tags()),
            contents_wf(r@),
            r@.len() > 0,
    {
        let mut tags: Vec<&str> = Vec::new();
        tags.push("emoticon");
        tags.push("code");
        tags.push("pre");
        tags.push("img");
        tags.push("url");
        tags.push("spoiler");
        tags.push("quote");
        tags.push("random");
        tags.push("flip");
        tags.push("tradeofferlink");
        tags.push("tradeoffer");
        tags.push("sticker");
        tags.push("gameinvite");
        tags.push("og");
        tags.push("roomeffect");
        let tags_slice: &[&str] = tags.as_slice();
        let parser = Parser::new(tags_slice);
        proof {
            assert(bbcode::tags_view(tags_slice) =~= allowed_bbcode_tags());
        }
        parser.parse(message)
    }

    /// Extract the mention signals from a message, or `None` when none fired.
    pub fn extract_mentions(message: &str) -> (r: Option<ChatMentions>)
        ensures
            match r {
                Some(m) => spec_extract(message@) == Some(m@),
                None => spec_extract(message@) is None,
            },
    {
        let ghost s = message@;
        let mut mentions = ChatMentions {
            mention_all: false,
            mention_here: false,
            mention_steamids: Vec::new(),
        };
        proof {
            assert(mentions@ =~= empty_mentions());
            assert(mentions@.ids =~= empty_mentions().ids);
        }
        let n = message.unicode_len();
        let mut i: usize = 0;
        while i < n
            invariant
                0 <= i <= n,
                n == message@.len(),
                s == message@,
                fold_tokens(mentions@, tokens_from(s, i as int)) == fold_tokens(
                    empty_mentions(),
                    tokens_from(s, 0),
                ),
            decreases n - i,
        {
            let c = message.get_char(i);
            if is_space(c) {
                i = i + 1;
            } else {
                let ghost old_i = i as int;
                let mut j = i + 1;
                while j < n && !is_space(message.get_char(j))
                    invariant
                        old_i < j <= n,
                        n == message@.len(),
                        s == message@,
                        forall|t: int| old_i <= t < j ==> !is_space_char(s[t]),
                    decreases n - j,
                {
                    j = j + 1;
                }
                proof {
                    lemma_token_end(s, old_i);
                    if token_end(s, old_i) < j {
                        assert(!is_space_char(s[token_end(s, old_i)]));
                    }
                    if token_end(s, old_i) > j {
                        assert(is_space_char(s[j as int]));
                    }
                    assert(token_end(s, old_i) == j as int);
                }
                let token = message.substring_char(i, j);
                let ghost before = mentions@;
                Self::process_mention_token(token, &mut mentions);
                proof {
                    assert(tokens_from(s, old_i) == seq![s.subrange(old_i, j as int)]
                        + tokens_from(s, j as int));
                    let ts = tokens_from(s, old_i);
                    assert(ts[0] == s.subrange(old_i, j as int));
                    assert(ts.drop_first() =~= tokens_from(s, j as int));
                }
                i = j;
            }
        }
        proof {
            assert(tokens_from(s, n as int) =~= Seq::<Seq<char>>::empty());
            assert(fold_tokens(mentions@, tokens_from(s, n as int)) == mentions@);
        }
        if mentions.has_any_mentions() {
            Some(mentions)
        } else {
            None
        }
    }

    /// Match one token against the three mention forms and update the
    /// signals accordingly.
    fn process_mention_token(token: &str, mentions: &mut ChatMentions)
        ensures
            final(mentions)@ == fold_token(old(mentions)@, token@),
    {
        let cleaned = trim_mention_punct(token);
        if str_eq(cleaned, "@all") {
            mentions.mention_all = true;
            return;
        }
        if str_eq(cleaned, "@here") {
            mentions.mention_here = true;
            return;
        }
        if Self::is_steam_id_format(cleaned) {
            if let Some(id) = decode_steam3_token(cleaned) {
                let ghost before = mentions@;
                mentions.mention_steamids.push(MentionSteamId(id));
                proof {
                    assert(mentions@.ids =~= before.ids.push(id));
                }
            }
        }
    }

    /// Whether a token has the bracketed id shape `[U:1:`...`]`.
    fn is_steam_id_format(token: &str) -> (r: bool)
        ensures
            r == is_steam_id_format_spec(token@),
    {
        let n = token.unicode_len();
        if n < 6 {
            proof {
                assert(!is_steam_id_format_spec(token@));
            }
            return false;
        }
        let r = token.get_char(0) == '[' && token.get_char(1) == 'U' && token.get_char(2) == ':'
            && token.get_char(3) == '1' && token.get_char(4) == ':' && token.get_char(n - 1)
            == ']';
        proof {
            if r {
                assert(token@.subrange(0, 5) =~= "[U:1:"@) by {
                    reveal_strlit("[U:1:");
                }
            } else {
                if token@.subrange(0, 5) == "[U:1:"@ {
                    assert(token@.subrange(0, 5)[0] == '[') by {
                        reveal_strlit("[U:1:");
                    }
                    assert(token@.subrange(0, 5)[1] == 'U') by {
                        reveal_strlit("[U:1:");
                    }
                    assert(token@.subrange(0, 5)[2] == ':') by {
                        reveal_strlit("[U:1:");
                    }
                    assert(token@.subrange(0, 5)[3] == '1') by {
                        reveal_strlit("[U:1:");
                    }
                    assert(token@.subrange(0, 5)[4] == ':') by {
                        reveal_strlit("[U:1:");
                    }
                }
            }
        }
        r
    }

    /// The only outbound transform: un-escape `\[` and `\]` so a sender can
    /// write literal brackets without triggering tag parsing.
    pub fn prepare_message_for_sending(message: &str) -> (r: String)
        ensures
            r@ == unescape_brackets(message@),
    {
        let ghost s = message@;
        let n = message.unicode_len();
        let mut out = String::new();
        let mut i: usize = 0;
        proof {
            assert(s.skip(0) =~= s);
            assert(Seq::<char>::empty() + unescape_brackets(s) =~= unescape_brackets(s));
        }
        while i < n
            invariant
                0 <= i <= n,
                n == message@.len(),
                s == message@,
                unescape_brackets(s) == out@ + unescape_brackets(s.skip(i as int)),
            decreases n - i,
        {
            let ghost old_i = i as int;
            let ghost rem = s.skip(old_i);
            let c = message.get_char(i);
            let ghost out_old = out@;
            if c == '\\' && i + 1 < n {
                let c2 = message.get_char(i + 1);
                if c2 == '[' || c2 == ']' {
                    out.append(message.substring_char(i + 1, i + 2));
                    i = i + 2;
                    proof {
                        assert(rem[0] == '\\' && (rem[1] == '[' || rem[1] == ']'));
                        assert(unescape_brackets(rem) == seq![rem[1]] + unescape_brackets(
                            rem.skip(2),
                        ));
                        assert(s.subrange(old_i + 1, old_i + 2) =~= seq![rem[1]]);
                        assert(rem.skip(2) =~= s.skip(old_i + 2));
                        assert(out_old + (seq![rem[1]] + unescape_brackets(s.skip(old_i + 2)))
                            =~= out@ + unescape_brackets(s.skip(old_i + 2)));
                    }
                    continue ;
                }
            }
            out.append(message.substring_char(i, i + 1));
            i = i + 1;
            proof {
                assert(!(rem.len() >= 2 && rem[0] == '\\' && (rem[1] == '[' || rem[1] == ']')));
                assert(unescape_brackets(rem) == seq![rem[0]] + unescape_brackets(rem.skip(1)));
                assert(s.subrange(old_i, old_i + 1) =~= seq![rem[0]]);
                assert(rem.skip(1) =~= s.skip(old_i + 1));
                assert(out_old + (seq![rem[0]] + unescape_brackets(s.skip(old_i + 1))) =~= out@
                    + unescape_brackets(s.skip(old_i + 1)));
            }
        }
        proof {
            assert(s.skip(n as int) =~= Seq::<char>::empty());
            assert(out@ + unescape_brackets(s.skip(n as int)) =~= out@);
        }
        out
    }

    /// Annotate a server response: re-run the parser and the extractor over
    /// the server-modified text and stamp both metadata fields; an ordinal of
    /// zero is kept as a present value, never as `None`.
    pub fn process_response(
        original_message: &str,
        modified_message: &str,
        server_timestamp: u32,
        ordinal: u32,
    ) -> (r: PreprocessedMessage)
        ensures
            r@ == spec_process_response(
                original_message@,
                modified_message@,
                server_timestamp,
                ordinal,
            ),
            r.ordinal == Some(ordinal),
            contents_wf(r.message_bbcode_parsed@),
    {
        let message_bbcode_parsed = Self::parse_bbcode(modified_message);
        let mentions = Self::extract_mentions(modified_message);
        PreprocessedMessage {
            original_message: String::from_str(original_message),
            modified_message: String::from_str(modified_message),
            message_bbcode_parsed,
            mentions,
            server_timestamp: Some(server_timestamp),
            ordinal: Some(ordinal),
        }
    }
}

} // verus!
