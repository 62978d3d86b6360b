//! The tag parser: a single left-to-right scan that extracts a restricted set
//! of inline markup tags from free text and leaves everything else as literal
//! text.  The parser is deliberately flat: it never pairs opening and closing
//! markers and never builds a nested tree, so a closing marker such as
//! `[/spoiler]` simply fails the allow-list and is folded back into the
//! literal text.

use vstd::prelude::*;

use crate::text::find_char_from;
use crate::text::find_from;
use crate::text::lemma_find_from;
use crate::text::str_eq;
use crate::text::trim_spaces;
use crate::text::trim_spaces_spec;

verus! {

/// A recognized markup tag occurrence.  `content` is always `None`: tag bodies
/// are never parsed into sub-trees.
#[derive(Debug)]
pub struct BBCodeNode {
    /// The tag name, trimmed of surrounding whitespace.
    pub tag: String,
    /// At most one attribute, under the key `"value"`.
    pub attrs: Vec<(String, String)>,
    /// Never populated; kept so records show the absence of a sub-tree.
    pub content: Option<Vec<BBCodeContent>>,
}

/// One segment of a parsed message: literal text or a recognized tag.
#[derive(Debug)]
pub enum BBCodeContent {
    /// Literal text.
    String(String),
    /// A recognized tag occurrence.
    Node(BBCodeNode),
}

/// Mathematical model of a tag node: its name and optional attribute value.
#[verifier::ext_equal]
pub struct TagModel {
    pub name: Seq<char>,
    pub value: Option<Seq<char>>,
}

/// Mathematical model of a content segment.
#[verifier::ext_equal]
pub enum ContentModel {
    Text(Seq<char>),
    Tag(TagModel),
}

/// The fixed allow-list of markup tag names the preprocessor recognises.
pub open spec fn allowed_bbcode_tags() -> Seq<Seq<char>> {
    seq![
        "emoticon"@,
        "code"@,
        "pre"@,
        "img"@,
        "url"@,
        "spoiler"@,
        "quote"@,
        "random"@,
        "flip"@,
        "tradeofferlink"@,
        "tradeoffer"@,
        "sticker"@,
        "gameinvite"@,
        "og"@,
        "roomeffect"@,
    ]
}

impl View for BBCodeNode {
    type V = TagModel;

    open spec fn view(&self) -> TagModel {
        TagModel {
            name: self.tag@,
            value: if self.attrs@.len() > 0 {
                Some(self.attrs@[0].1@)
            } else {
                None
            },
        }
    }
}

impl View for BBCodeContent {
    type V = ContentModel;

    open spec fn view(&self) -> ContentModel {
        match self {
            BBCodeContent::String(s) => ContentModel::Text(s@),
            BBCodeContent::Node(n) => ContentModel::Tag(n@),
        }
    }
}

/// The models of a sequence of content segments.
pub open spec fn view_contents(s: Seq<BBCodeContent>) -> Seq<ContentModel> {
    s.map_values(|c: BBCodeContent| c@)
}

/// Well-formedness of a tag node: no sub-tree, and at most the one `"value"`
/// attribute.
pub open spec fn node_wf(n: BBCodeNode) -> bool {
    &&& n.content is None
    &&& n.attrs@.len() <= 1
    &&& n.attrs@.len() == 1 ==> n.attrs@[0].0@ == "value"@
}

pub open spec fn content_wf(c: BBCodeContent) -> bool {
    match c {
        BBCodeContent::String(_) => true,
        BBCodeContent::Node(n) => node_wf(n),
    }
}

pub open spec fn contents_wf(s: Seq<BBCodeContent>) -> bool {
    forall|j: int| 0 <= j < s.len() ==> content_wf(#[trigger] s[j])
}

/// The candidate tag name inside a bracketed span: everything before the first
/// `=` (or the whole span), trimmed.
pub open spec fn node_name(c: Seq<char>) -> Seq<char> {
    match find_from(c, '=', 0) {
        None => trim_spaces_spec(c),
        Some(k) => trim_spaces_spec(c.subrange(0, k)),
    }
}

/// The attribute value inside a bracketed span: everything after the first
/// `=`, trimmed, if non-empty.
pub open spec fn node_value(c: Seq<char>) -> Option<Seq<char>> {
    match find_from(c, '=', 0) {
        None => None,
        Some(k) => {
            let v = trim_spaces_spec(c.subrange(k + 1, c.len() as int));
            if v.len() == 0 {
                None
            } else {
                Some(v)
            }
        },
    }
}

/// The model of the tag node a bracketed span would produce.
pub open spec fn node_model(c: Seq<char>) -> TagModel {
    TagModel { name: node_name(c), value: node_value(c) }
}

/// The views of an allow-list of tag names.
pub open spec fn tags_view(tags: &[&str]) -> Seq<Seq<char>> {
    Seq::new(tags@.len(), |i: int| tags@[i]@)
}

/// Whether the span's candidate name is on the allow-list.
pub open spec fn tag_allowed(c: Seq<char>, tags: Seq<Seq<char>>) -> bool {
    tags.contains(node_name(c))
}

/// The next bracketed span at or after `i`: the position of the next `[` and
/// of the first `]` after it, if both exist.
pub open spec fn next_tag(s: Seq<char>, i: int) -> Option<(int, int)> {
    match find_from(s, '[', i) {
        None => None,
        Some(l) => match find_from(s, ']', l + 1) {
            None => None,
            Some(r) => Some((l, r)),
        },
    }
}

/// Bounds for `next_tag`.
pub proof fn lemma_next_tag(s: Seq<char>, i: int)
    requires
        0 <= i,
    ensures
        match next_tag(s, i) {
            Some(lr) => {
                &&& i <= lr.0 < lr.1 < s.len()
                &&& s[lr.0] == '['
                &&& s[lr.1] == ']'
            },
            None => true,
        },
{
    lemma_find_from(s, '[', i);
    if find_from(s, '[', i) is Some {
        let l = find_from(s, '[', i)->Some_0;
        lemma_find_from(s, ']', l + 1);
    }
}

/// The raw segmentation of a message: literal stretches and bracketed spans,
/// in order.  A `Span` holds the text between the brackets.
pub enum Piece {
    Lit(Seq<char>),
    Span(Seq<char>),
}

/// The raw text a piece stands for, brackets included.
pub open spec fn piece_text(p: Piece) -> Seq<char> {
    match p {
        Piece::Lit(t) => t,
        Piece::Span(c) => seq!['['] + c + seq![']'],
    }
}

/// The raw text of a sequence of pieces.
pub open spec fn pieces_text(ps: Seq<Piece>) -> Seq<char>
    decreases ps.len(),
{
    if ps.len() == 0 {
        Seq::empty()
    } else {
        piece_text(ps[0]) + pieces_text(ps.drop_first())
    }
}

/// The segmentation of `s` from position `i` on.
pub open spec fn scan_pieces(s: Seq<char>, i: int) -> Seq<Piece>
    decreases s.len() - i,
    when 0 <= i <= s.len()
    via scan_pieces_decreases
{
    match next_tag(s, i) {
        None => seq![Piece::Lit(s.subrange(i, s.len() as int))],
        Some(lr) => seq![Piece::Lit(s.subrange(i, lr.0)), Piece::Span(s.subrange(lr.0 + 1, lr.1))]
            + scan_pieces(s, lr.1 + 1),
    }
}

#[via_fn]
proof fn scan_pieces_decreases(s: Seq<char>, i: int) {
    lemma_next_tag(s, i);
}

/// The segmentation reconstructs the message exactly.
pub proof fn lemma_scan_covers(s: Seq<char>, i: int)
    requires
        0 <= i <= s.len(),
    ensures
        pieces_text(scan_pieces(s, i)) == s.subrange(i, s.len() as int),
    decreases s.len() - i,
{
    lemma_next_tag(s, i);
    match next_tag(s, i) {
        None => {
            let ps = scan_pieces(s, i);
            assert(ps == seq![Piece::Lit(s.subrange(i, s.len() as int))]);
            assert(ps.drop_first() =~= Seq::<Piece>::empty());
            assert(pieces_text(ps) == piece_text(ps[0]) + pieces_text(ps.drop_first()));
            assert(pieces_text(ps.drop_first()) == Seq::<char>::empty());
            assert(pieces_text(ps) =~= s.subrange(i, s.len() as int));
        },
        Some(lr) => {
            let l = lr.0;
            let r = lr.1;
            lemma_scan_covers(s, r + 1);
            let ps = scan_pieces(s, i);
            let rest = scan_pieces(s, r + 1);
            let mid = ps.drop_first();
            assert(ps.len() >= 2);
            assert(ps[0] == Piece::Lit(s.subrange(i, l)));
            assert(pieces_text(ps) == piece_text(ps[0]) + pieces_text(mid));
            assert(mid[0] == Piece::Span(s.subrange(l + 1, r)));
            assert(pieces_text(mid) == piece_text(mid[0]) + pieces_text(mid.drop_first()));
            assert(mid.drop_first() =~= rest);
            assert(piece_text(mid[0]) =~= s.subrange(l, r + 1));
            assert(pieces_text(ps) =~= s.subrange(i, s.len() as int));
        },
    }
}

/// A pending literal accumulator flushed into at most one `Text` element.
pub open spec fn flush(acc: Seq<char>) -> Seq<ContentModel> {
    if acc.len() == 0 {
        seq![]
    } else {
        seq![ContentModel::Text(acc)]
    }
}

/// Classify the pieces against the allow-list, coalescing adjacent literal
/// text (and rejected spans) into single `Text` elements.
pub open spec fn assemble(ps: Seq<Piece>, tags: Seq<Seq<char>>, acc: Seq<char>) -> Seq<
    ContentModel,
>
    decreases ps.len(),
{
    if ps.len() == 0 {
        flush(acc)
    } else {
        match ps[0] {
            Piece::Lit(t) => assemble(ps.drop_first(), tags, acc + t),
            Piece::Span(c) => if tag_allowed(c, tags) {
                flush(acc) + seq![ContentModel::Tag(node_model(c))] + assemble(
                    ps.drop_first(),
                    tags,
                    seq![],
                )
            } else {
                assemble(ps.drop_first(), tags, acc + piece_text(ps[0]))
            },
        }
    }
}

/// What parsing a message against an allow-list returns: the empty message is
/// a single empty `Text` element; otherwise its segmentation, classified and
/// coalesced.
pub open spec fn spec_parse(s: Seq<char>, tags: Seq<Seq<char>>) -> Seq<ContentModel> {
    if s.len() == 0 {
        seq![ContentModel::Text(seq![])]
    } else {
        assemble(scan_pieces(s, 0), tags, seq![])
    }
}

/// A non-empty accumulator or remaining raw text always yields at least one
/// element.
pub proof fn lemma_assemble_nonempty(ps: Seq<Piece>, tags: Seq<Seq<char>>, acc: Seq<char>)
    requires
        acc.len() + pieces_text(ps).len() > 0,
    ensures
        assemble(ps, tags, acc).len() > 0,
    decreases ps.len(),
{
    if ps.len() == 0 {
    } else {
        match ps[0] {
            Piece::Lit(t) => {
                assert(pieces_text(ps) == t + pieces_text(ps.drop_first()));
                lemma_assemble_nonempty(ps.drop_first(), tags, acc + t);
            },
            Piece::Span(c) => {
                if tag_allowed(c, tags) {
                } else {
                    lemma_assemble_nonempty(ps.drop_first(), tags, acc + piece_text(ps[0]));
                }
            },
        }
    }
}

/// Parsing never returns an empty sequence.
pub proof fn lemma_spec_parse_nonempty(s: Seq<char>, tags: Seq<Seq<char>>)
    ensures
        spec_parse(s, tags).len() > 0,
{
    if s.len() > 0 {
        lemma_scan_covers(s, 0);
        assert(pieces_text(scan_pieces(s, 0)) =~= s);
        lemma_assemble_nonempty(scan_pieces(s, 0), tags, seq![]);
    }
}

/// `flush`, with each element paired with the source text it came from.
pub open spec fn flush_src(acc: Seq<char>) -> Seq<(ContentModel, Seq<char>)> {
    if acc.len() == 0 {
        seq![]
    } else {
        seq![(ContentModel::Text(acc), acc)]
    }
}

/// `assemble`, with each element paired with the source text it came from: a
/// text element's own characters, or a recognized tag's bracketed span.
pub open spec fn assemble_src(ps: Seq<Piece>, tags: Seq<Seq<char>>, acc: Seq<char>) -> Seq<
    (ContentModel, Seq<char>),
>
    decreases ps.len(),
{
    if ps.len() == 0 {
        flush_src(acc)
    } else {
        match ps[0] {
            Piece::Lit(t) => assemble_src(ps.drop_first(), tags, acc + t),
            Piece::Span(c) => if tag_allowed(c, tags) {
                flush_src(acc) + seq![(ContentModel::Tag(node_model(c)), piece_text(ps[0]))]
                    + assemble_src(ps.drop_first(), tags, seq![])
            } else {
                assemble_src(ps.drop_first(), tags, acc + piece_text(ps[0]))
            },
        }
    }
}

/// The parse of a non-empty message, each element paired with its source text.
pub open spec fn spec_parse_annotated(s: Seq<char>, tags: Seq<Seq<char>>) -> Seq<
    (ContentModel, Seq<char>),
> {
    assemble_src(scan_pieces(s, 0), tags, seq![])
}

/// The concatenation of the source texts of annotated elements.
pub open spec fn sources_concat(es: Seq<(ContentModel, Seq<char>)>) -> Seq<char>
    decreases es.len(),
{
    if es.len() == 0 {
        Seq::empty()
    } else {
        es[0].1 + sources_concat(es.drop_first())
    }
}

proof fn lemma_sources_concat_single(e: (ContentModel, Seq<char>))
    ensures
        sources_concat(seq![e]) == e.1,
{
    assert(sources_concat(Seq::<(ContentModel, Seq<char>)>::empty()) == Seq::<char>::empty());
    assert(seq![e].drop_first() =~= Seq::<(ContentModel, Seq<char>)>::empty());
    assert(sources_concat(seq![e]) =~= e.1);
}

proof fn lemma_flush_src_sources(acc: Seq<char>)
    ensures
        sources_concat(flush_src(acc)) == acc,
{
    if acc.len() == 0 {
        assert(sources_concat(flush_src(acc)) =~= acc);
    } else {
        lemma_sources_concat_single((ContentModel::Text(acc), acc));
    }
}

proof fn lemma_sources_concat_append(a: Seq<(ContentModel, Seq<char>)>, b: Seq<
    (ContentModel, Seq<char>),
>)
    ensures
        sources_concat(a + b) == sources_concat(a) + sources_concat(b),
    decreases a.len(),
{
    if a.len() == 0 {
        assert(a + b =~= b);
        assert(sources_concat(a) + sources_concat(b) =~= sources_concat(b));
    } else {
        assert((a + b)[0] == a[0]);
        assert((a + b).drop_first() =~= a.drop_first() + b);
        lemma_sources_concat_append(a.drop_first(), b);
        assert(a[0].1 + (sources_concat(a.drop_first()) + sources_concat(b)) =~= (a[0].1
            + sources_concat(a.drop_first())) + sources_concat(b));
    }
}

/// Dropping the source annotations gives the plain parse.
proof fn lemma_assemble_src_project(ps: Seq<Piece>, tags: Seq<Seq<char>>, acc: Seq<char>)
    ensures
        assemble_src(ps, tags, acc).map_values(|e: (ContentModel, Seq<char>)| e.0) == assemble(
            ps,
            tags,
            acc,
        ),
    decreases ps.len(),
{
    let proj = |e: (ContentModel, Seq<char>)| e.0;
    if ps.len() == 0 {
        assert(flush_src(acc).map_values(proj) =~= flush(acc));
    } else {
        match ps[0] {
            Piece::Lit(t) => {
                lemma_assemble_src_project(ps.drop_first(), tags, acc + t);
            },
            Piece::Span(c) => {
                if tag_allowed(c, tags) {
                    lemma_assemble_src_project(ps.drop_first(), tags, seq![]);
                    assert((flush_src(acc) + seq![
                        (ContentModel::Tag(node_model(c)), piece_text(ps[0])),
                    ] + assemble_src(ps.drop_first(), tags, seq![])).map_values(proj) =~= flush(
                        acc,
                    ) + seq![ContentModel::Tag(node_model(c))] + assemble(
                        ps.drop_first(),
                        tags,
                        seq![],
                    ));
                } else {
                    lemma_assemble_src_project(ps.drop_first(), tags, acc + piece_text(ps[0]));
                }
            },
        }
    }
}

/// The source texts of the annotated parse concatenate to the accumulator
/// followed by the raw text of the remaining pieces.
proof fn lemma_assemble_src_sources(ps: Seq<Piece>, tags: Seq<Seq<char>>, acc: Seq<char>)
    ensures
        sources_concat(assemble_src(ps, tags, acc)) == acc + pieces_text(ps),
    decreases ps.len(),
{
    if ps.len() == 0 {
        lemma_flush_src_sources(acc);
        assert(acc + pieces_text(ps) =~= acc);
    } else {
        match ps[0] {
            Piece::Lit(t) => {
                lemma_assemble_src_sources(ps.drop_first(), tags, acc + t);
                assert((acc + t) + pieces_text(ps.drop_first()) =~= acc + pieces_text(ps));
            },
            Piece::Span(c) => {
                if tag_allowed(c, tags) {
                    lemma_assemble_src_sources(ps.drop_first(), tags, seq![]);
                    let middle = seq![(ContentModel::Tag(node_model(c)), piece_text(ps[0]))];
                    let tail = assemble_src(ps.drop_first(), tags, seq![]);
                    lemma_sources_concat_append(flush_src(acc) + middle, tail);
                    lemma_sources_concat_append(flush_src(acc), middle);
                    lemma_sources_concat_single((ContentModel::Tag(node_model(c)), piece_text(
                        ps[0],
                    )));
                    lemma_flush_src_sources(acc);
                    assert(Seq::<char>::empty() + pieces_text(ps.drop_first()) =~= pieces_text(
                        ps.drop_first(),
                    ));
                    assert((acc + piece_text(ps[0])) + pieces_text(ps.drop_first()) =~= acc
                        + pieces_text(ps));
                } else {
                    lemma_assemble_src_sources(ps.drop_first(), tags, acc + piece_text(ps[0]));
                    assert((acc + piece_text(ps[0])) + pieces_text(ps.drop_first()) =~= acc
                        + pieces_text(ps));
                }
            },
        }
    }
}

/// What each annotated element's source shows: a text element is its own
/// source; a tag element's source is a bracketed span whose inner text is
/// allow-listed and models the node.
pub open spec fn element_faithful(e: (ContentModel, Seq<char>), tags: Seq<Seq<char>>) -> bool {
    match e.0 {
        ContentModel::Text(t) => e.1 == t,
        ContentModel::Tag(node) => {
            &&& e.1.len() >= 2
            &&& e.1[0] == '['
            &&& e.1[e.1.len() - 1] == ']'
            &&& tag_allowed(e.1.subrange(1, e.1.len() - 1), tags)
            &&& node == node_model(e.1.subrange(1, e.1.len() - 1))
        },
    }
}

proof fn lemma_assemble_src_faithful(ps: Seq<Piece>, tags: Seq<Seq<char>>, acc: Seq<char>)
    ensures
        forall|j: int| 0 <= j < assemble_src(ps, tags, acc).len() ==> element_faithful(
            #[trigger] assemble_src(ps, tags, acc)[j],
            tags,
        ),
    decreases ps.len(),
{
    let whole = assemble_src(ps, tags, acc);
    if ps.len() == 0 {
        assert forall|j: int| 0 <= j < whole.len() implies element_faithful(
            #[trigger] whole[j],
            tags,
        ) by {
            assert(whole[j] == (ContentModel::Text(acc), acc));
        }
    } else {
        match ps[0] {
            Piece::Lit(t) => {
                lemma_assemble_src_faithful(ps.drop_first(), tags, acc + t);
                assert forall|j: int| 0 <= j < whole.len() implies element_faithful(
                    #[trigger] whole[j],
                    tags,
                ) by {
                    assert(element_faithful(
                        assemble_src(ps.drop_first(), tags, acc + t)[j],
                        tags,
                    ));
                }
            },
            Piece::Span(c) => {
                if tag_allowed(c, tags) {
                    lemma_assemble_src_faithful(ps.drop_first(), tags, seq![]);
                    let src = piece_text(ps[0]);
                    assert(src.subrange(1, src.len() - 1) =~= c);
                    let middle = seq![(ContentModel::Tag(node_model(c)), src)];
                    assert(element_faithful(middle[0], tags));
                    assert forall|j: int| 0 <= j < whole.len() implies element_faithful(
                        #[trigger] whole[j],
                        tags,
                    ) by {
                        let fl = flush_src(acc).len() as int;
                        if j < fl {
                            assert(whole[j] == flush_src(acc)[j]);
                            assert(flush_src(acc)[j] == (ContentModel::Text(acc), acc));
                        } else if j == fl {
                            assert(whole[j] == middle[0]);
                        } else {
                            assert(whole[j] == assemble_src(ps.drop_first(), tags, seq![])[j - fl
                                - 1]);
                            assert(element_faithful(
                                assemble_src(ps.drop_first(), tags, seq![])[j - fl - 1],
                                tags,
                            ));
                        }
                    }
                } else {
                    lemma_assemble_src_faithful(ps.drop_first(), tags, acc + piece_text(ps[0]));
                    assert forall|j: int| 0 <= j < whole.len() implies element_faithful(
                        #[trigger] whole[j],
                        tags,
                    ) by {
                        assert(element_faithful(
                            assemble_src(ps.drop_first(), tags, acc + piece_text(ps[0]))[j],
                            tags,
                        ));
                    }
                }
            },
        }
    }
}

/// The round-trip law of the parser: parsing never loses text.  The result is
/// never empty; for the empty message it is exactly one empty text element;
/// and for any other message each element has a source span — a text element
/// its own characters, a tag element its bracketed, allow-listed span — such
/// that the source spans concatenated in order are exactly the message.
pub proof fn lemma_parse_round_trip(s: Seq<char>, tags: Seq<Seq<char>>)
    ensures
        spec_parse(s, tags).len() > 0,
        s.len() == 0 ==> spec_parse(s, tags) == seq![ContentModel::Text(seq![])],
        s.len() > 0 ==> spec_parse_annotated(s, tags).map_values(
            |e: (ContentModel, Seq<char>)| e.0,
        ) == spec_parse(s, tags),
        s.len() > 0 ==> sources_concat(spec_parse_annotated(s, tags)) == s,
        s.len() > 0 ==> forall|j: int|
            0 <= j < spec_parse_annotated(s, tags).len() ==> element_faithful(
                #[trigger] spec_parse_annotated(s, tags)[j],
                tags,
            ),
{
    lemma_spec_parse_nonempty(s, tags);
    if s.len() > 0 {
        lemma_assemble_src_project(scan_pieces(s, 0), tags, seq![]);
        lemma_assemble_src_sources(scan_pieces(s, 0), tags, seq![]);
        lemma_assemble_src_faithful(scan_pieces(s, 0), tags, seq![]);
        lemma_scan_covers(s, 0);
        assert(Seq::<char>::empty() + pieces_text(scan_pieces(s, 0)) =~= s.subrange(
            0,
            s.len() as int,
        ));
        assert(s.subrange(0, s.len() as int) =~= s);
    }
}

/// Parsing is deterministic: any two parses of the same message against the
/// same allow-list are structurally equal.  `Parser::parse` promises its
/// result equals `spec_parse` of its input, so two calls cannot differ.
pub proof fn lemma_parse_deterministic(
    s: Seq<char>,
    tags: Seq<Seq<char>>,
    r1: Seq<ContentModel>,
    r2: Seq<ContentModel>,
)
    requires
        r1 == spec_parse(s, tags),
        r2 == spec_parse(s, tags),
    ensures
        r1 == r2,
{
}

proof fn lemma_assemble_unfold_lit(t: Seq<char>, rest: Seq<Piece>, tags: Seq<Seq<char>>, acc: Seq<
    char,
>)
    ensures
        assemble(seq![Piece::Lit(t)] + rest, tags, acc) == assemble(rest, tags, acc + t),
{
    let ps = seq![Piece::Lit(t)] + rest;
    assert(ps[0] == Piece::Lit(t));
    assert(ps.drop_first() =~= rest);
}

proof fn lemma_assemble_unfold_span(c: Seq<char>, rest: Seq<Piece>, tags: Seq<Seq<char>>, acc: Seq<
    char,
>)
    ensures
        assemble(seq![Piece::Span(c)] + rest, tags, acc) == if tag_allowed(c, tags) {
            flush(acc) + seq![ContentModel::Tag(node_model(c))] + assemble(rest, tags, seq![])
        } else {
            assemble(rest, tags, acc + (seq!['['] + c + seq![']']))
        },
{
    let ps = seq![Piece::Span(c)] + rest;
    assert(ps[0] == Piece::Span(c));
    assert(ps.drop_first() =~= rest);
}

proof fn lemma_view_contents_push(v: Seq<BBCodeContent>, c: BBCodeContent)
    ensures
        view_contents(v.push(c)) == view_contents(v).push(c@),
{
    assert(view_contents(v.push(c)) =~= view_contents(v).push(c@));
}

/// The position of the next bracketed span, found by a runtime scan.
enum TagPosition {
    Found { lbracket: usize, rbracket: usize },
    EndOfText,
}

/// The tag parser, configured with an immutable allow-list of tag names.
pub struct Parser<'a> {
    allowed_tags: &'a [&'a str],
}

impl<'a> Parser<'a> {
    /// The views of the configured allow-list.
    pub closed spec fn tags(&self) -> Seq<Seq<char>> {
        tags_view(self.allowed_tags)
    }

    /// Create a parser over the given allow-list.
    pub fn new(allowed_tags: &'a [&'a str]) -> (r: Self)
        ensures
            r.tags() == tags_view(allowed_tags),
    {
        Self { allowed_tags }
    }

    /// Locate the next `[` at or after `from` and the first `]` after it.
    fn find_next_tag(&self, message: &str, from: usize) -> (r: TagPosition)
        requires
            from <= message@.len(),
        ensures
            match r {
                TagPosition::Found { lbracket, rbracket } => next_tag(message@, from as int)
                    == Some((lbracket as int, rbracket as int)),
                TagPosition::EndOfText => next_tag(message@, from as int) is None,
            },
    {
        let n = message.unicode_len();
        match find_char_from(message, '[', from) {
            None => TagPosition::EndOfText,
            Some(l) => {
                proof {
                    lemma_find_from(message@, '[', from as int);
                    assert(l < n);
                }
                match find_char_from(message, ']', l + 1) {
                    None => TagPosition::EndOfText,
                    Some(rb) => TagPosition::Found { lbracket: l, rbracket: rb },
                }
            },
        }
    }

    /// Whether `name` is on the allow-list, compared case-sensitively.
    fn tag_name_allowed(&self, name: &str) -> (r: bool)
        ensures
            r == self.tags().contains(name@),
    {
        let n = self.allowed_tags.len();
        let mut j: usize = 0;
        while j < n
            invariant
                0 <= j <= n,
                n == self.allowed_tags@.len(),
                forall|t: int| 0 <= t < j ==> self.tags()[t] != name@,
            decreases n - j,
        {
            let candidate: &str = *vstd::slice::slice_index_get(self.allowed_tags, j);
            if str_eq(candidate, name) {
                proof {
                    assert(self.tags()[j as int] == name@);
                }
                return true;
            }
            j = j + 1;
        }
        proof {
            assert forall|t: int| 0 <= t < self.tags().len() implies self.tags()[t] != name@ by {}
        }
        false
    }

    /// Build the attribute list from the part after the first `=`, if any:
    /// a non-empty trimmed value becomes the single `"value"` attribute.
    fn extract_tag_attributes(value_part: Option<&str>) -> (r: Vec<(String, String)>)
        ensures
            match value_part {
                None => r@.len() == 0,
                Some(v) => {
                    let t = trim_spaces_spec(v@);
                    if t.len() == 0 {
                        r@.len() == 0
                    } else {
                        r@.len() == 1 && r@[0].0@ == "value"@ && r@[0].1@ == t
                    }
                },
            },
    {
        let mut attrs: Vec<(String, String)> = Vec::new();
        if let Some(v) = value_part {
            let trimmed = trim_spaces(v);
            if !trimmed.is_empty() {
                attrs.push((String::from_str("value"), String::from_str(trimmed)));
            }
        }
        attrs
    }

    /// Classify a bracketed span: a node for an allow-listed name, `None`
    /// otherwise.
    fn parse_tag(&self, tag_content: &str) -> (r: Option<BBCodeNode>)
        ensures
            match r {
                Some(node) => tag_allowed(tag_content@, self.tags()) && node@ == node_model(
                    tag_content@,
                ) && node_wf(node),
                None => !tag_allowed(tag_content@, self.tags()),
            },
    {
        let eq_pos = find_char_from(tag_content, '=', 0);
        proof {
            lemma_find_from(tag_content@, '=', 0);
        }
        let name_part: &str = match eq_pos {
            Some(k) => tag_content.substring_char(0, k),
            None => tag_content,
        };
        let tag_name = trim_spaces(name_part);
        proof {
            assert(tag_name@ == node_name(tag_content@));
        }
        if !self.tag_name_allowed(tag_name) {
            return None;
        }
        let content_len = tag_content.unicode_len();
        let value_part: Option<&str> = match eq_pos {
            Some(k) => {
                proof {
                    assert(k < content_len);
                }
                Some(tag_content.substring_char(k + 1, content_len))
            },
            None => None,
        };
        let attrs = Self::extract_tag_attributes(value_part);
        let node = BBCodeNode { tag: String::from_str(tag_name), attrs, content: None };
        Some(node)
    }

    /// Parse a message into its flat segmentation: literal text runs and
    /// recognized tag nodes, in order.  The empty message yields a single
    /// empty text segment; an unmatched `[` and every rejected span fold back
    /// into the literal text around them.
    pub fn parse(&self, message: &str) -> (r: Vec<BBCodeContent>)
        ensures
            view_contents(r@) == spec_parse(message@, self.tags()),
            contents_wf(r@),
            r@.len() > 0,
    {
        proof {
            lemma_spec_parse_nonempty(message@, self.tags());
        }
        if message.is_empty() {
            let mut out: Vec<BBCodeContent> = Vec::new();
            out.push(BBCodeContent::String(String::new()));
            proof {
                assert(view_contents(out@) =~= spec_parse(message@, self.tags()));
            }
            return out;
        }
        let ghost s = message@;
        let ghost tags = self.tags();
        let n = message.unicode_len();
        let mut parsed: Vec<BBCodeContent> = Vec::new();
        let mut current_text = String::new();
        let mut i: usize = 0;
        while i < n
            invariant
                0 <= i <= n,
                n == message@.len(),
                s == message@,
                tags == self.tags(),
                s.len() > 0,
                contents_wf(parsed@),
                view_contents(parsed@) + assemble(scan_pieces(s, i as int), tags, current_text@)
                    == spec_parse(s, tags),
            decreases n - i,
        {
            let ghost old_i = i as int;
            let ghost old_acc = current_text@;
            let ghost old_view = view_contents(parsed@);
            match self.find_next_tag(message, i) {
                TagPosition::EndOfText => {
                    let rest_str = message.substring_char(i, n);
                    current_text.append(rest_str);
                    proof {
                        assert(scan_pieces(s, old_i) == seq![
                            Piece::Lit(s.subrange(old_i, s.len() as int)),
                        ]);
                        lemma_assemble_unfold_lit(
                            s.subrange(old_i, s.len() as int),
                            seq![],
                            tags,
                            old_acc,
                        );
                        assert(seq![Piece::Lit(s.subrange(old_i, s.len() as int))] + seq![]
                            =~= scan_pieces(s, old_i));
                        assert(assemble(scan_pieces(s, old_i), tags, old_acc) == flush(
                            current_text@,
                        ));
                        assert(scan_pieces(s, n as int) == seq![
                            Piece::Lit(s.subrange(n as int, s.len() as int)),
                        ]);
                        lemma_assemble_unfold_lit(
                            s.subrange(n as int, s.len() as int),
                            seq![],
                            tags,
                            current_text@,
                        );
                        assert(seq![Piece::Lit(s.subrange(n as int, s.len() as int))] + seq![]
                            =~= scan_pieces(s, n as int));
                        assert(current_text@ + s.subrange(n as int, s.len() as int)
                            =~= current_text@);
                        assert(assemble(scan_pieces(s, n as int), tags, current_text@) == flush(
                            current_text@,
                        ));
                    }
                    i = n;
                },
                TagPosition::Found { lbracket, rbracket } => {
                    proof {
                        lemma_next_tag(s, old_i);
                    }
                    let ghost l = lbracket as int;
                    let ghost rb = rbracket as int;
                    let ghost spn = s.subrange(l + 1, rb);
                    let ghost before = s.subrange(old_i, l);
                    let ghost rest = scan_pieces(s, rb + 1);
                    proof {
                        assert(scan_pieces(s, old_i) == seq![
                            Piece::Lit(before),
                            Piece::Span(spn),
                        ] + rest);
                        assert(seq![Piece::Lit(before), Piece::Span(spn)] + rest =~= seq![
                            Piece::Lit(before),
                        ] + (seq![Piece::Span(spn)] + rest));
                        lemma_assemble_unfold_lit(
                            before,
                            seq![Piece::Span(spn)] + rest,
                            tags,
                            old_acc,
                        );
                        lemma_assemble_unfold_span(spn, rest, tags, old_acc + before);
                    }
                    if lbracket > i {
                        let before_str = message.substring_char(i, lbracket);
                        current_text.append(before_str);
                    }
                    proof {
                        assert(current_text@ =~= old_acc + before);
                    }
                    let content_str = message.substring_char(lbracket + 1, rbracket);
                    match self.parse_tag(content_str) {
                        Some(node) => {
                            if !current_text.as_str().is_empty() {
                                proof {
                                    lemma_view_contents_push(
                                        parsed@,
                                        BBCodeContent::String(current_text),
                                    );
                                }
                                parsed.push(BBCodeContent::String(current_text));
                                current_text = String::new();
                            }
                            proof {
                                assert(view_contents(parsed@) =~= old_view + flush(
                                    old_acc + before,
                                ));
                                lemma_view_contents_push(parsed@, BBCodeContent::Node(node));
                            }
                            parsed.push(BBCodeContent::Node(node));
                            proof {
                                assert(view_contents(parsed@) =~= old_view + flush(
                                    old_acc + before,
                                ) + seq![ContentModel::Tag(node_model(spn))]);
                                assert(view_contents(parsed@) + assemble(rest, tags, seq![])
                                    =~= old_view + (flush(old_acc + before) + seq![
                                    ContentModel::Tag(node_model(spn)),
                                ] + assemble(rest, tags, seq![])));
                                assert(current_text@ =~= Seq::<char>::empty());
                            }
                        },
                        None => {
                            let span_str = message.substring_char(lbracket, rbracket + 1);
                            current_text.append(span_str);
                            proof {
                                assert(s.subrange(l, rb + 1) =~= seq!['['] + spn + seq![']']);
                                assert(current_text@ =~= (old_acc + before) + (seq!['['] + spn
                                    + seq![']']));
                            }
                        },
                    }
                    i = rbracket + 1;
                },
            }
        }
        proof {
            assert(scan_pieces(s, n as int) == seq![Piece::Lit(s.subrange(n as int, n as int))]);
            lemma_assemble_unfold_lit(s.subrange(n as int, n as int), seq![], tags, current_text@);
            assert(seq![Piece::Lit(s.subrange(n as int, n as int))] + seq![] =~= scan_pieces(
                s,
                n as int,
            ));
            assert(current_text@ + s.subrange(n as int, n as int) =~= current_text@);
            assert(assemble(scan_pieces(s, n as int), tags, current_text@) == flush(
                current_text@,
            ));
        }
        if !current_text.as_str().is_empty() {
            proof {
                lemma_view_contents_push(parsed@, BBCodeContent::String(current_text));
            }
            parsed.push(BBCodeContent::String(current_text));
            proof {
                assert(view_contents(parsed@) =~= spec_parse(s, tags));
            }
        } else {
            proof {
                assert(flush(current_text@) =~= Seq::<ContentModel>::empty());
                assert(view_contents(parsed@) =~= spec_parse(s, tags));
            }
        }
        parsed
    }
}

/// What wrapping a message in markup of the given type produces: spoiler and
/// code wrap the message in an open/close pair, url carries the value as the
/// attribute, emoticon renders the value alone, and any other type passes the
/// message through unchanged.
pub open spec fn spec_format_with_bbcode(m: Seq<char>, t: Seq<char>, v: Seq<char>) -> Seq<char> {
    if t == "spoiler"@ {
        "[spoiler]"@ + m + "[/spoiler]"@
    } else if t == "code"@ {
        "[code]"@ + m + "[/code]"@
    } else if t == "url"@ {
        "[url="@ + v + "]"@ + m + "[/url]"@
    } else if t == "emoticon"@ {
        "[emoticon:"@ + v + "]"@
    } else {
        m
    }
}

/// The formatting strategies for `format_with_bbcode`.
pub enum BBCodeFormatter {
    Spoiler,
    Code,
    Url,
    Emoticon,
    Passthrough,
}

/// Which strategy a markup type selects.
pub open spec fn spec_formatter(t: Seq<char>) -> BBCodeFormatter {
    if t == "spoiler"@ {
        BBCodeFormatter::Spoiler
    } else if t == "code"@ {
        BBCodeFormatter::Code
    } else if t == "url"@ {
        BBCodeFormatter::Url
    } else if t == "emoticon"@ {
        BBCodeFormatter::Emoticon
    } else {
        BBCodeFormatter::Passthrough
    }
}

/// Select the formatting strategy for a markup type.
pub fn get_formatter(bbcode_type: &str) -> (r: BBCodeFormatter)
    ensures
        r == spec_formatter(bbcode_type@),
{
    if str_eq(bbcode_type, "spoiler") {
        BBCodeFormatter::Spoiler
    } else if str_eq(bbcode_type, "code") {
        BBCodeFormatter::Code
    } else if str_eq(bbcode_type, "url") {
        BBCodeFormatter::Url
    } else if str_eq(bbcode_type, "emoticon") {
        BBCodeFormatter::Emoticon
    } else {
        BBCodeFormatter::Passthrough
    }
}

impl BBCodeFormatter {
    /// Apply the strategy to a message and an optional value.
    pub fn format(&self, message: &str, value: &str) -> (r: String)
        ensures
            *self == BBCodeFormatter::Spoiler ==> r@ == "[spoiler]"@ + message@ + "[/spoiler]"@,
            *self == BBCodeFormatter::Code ==> r@ == "[code]"@ + message@ + "[/code]"@,
            *self == BBCodeFormatter::Url ==> r@ == "[url="@ + value@ + "]"@ + message@
                + "[/url]"@,
            *self == BBCodeFormatter::Emoticon ==> r@ == "[emoticon:"@ + value@ + "]"@,
            *self == BBCodeFormatter::Passthrough ==> r@ == message@,
    {
        match self {
            BBCodeFormatter::Spoiler => {
                let mut out = String::from_str("[spoiler]");
                out.append(message);
                out.append("[/spoiler]");
                out
            },
            BBCodeFormatter::Code => {
                let mut out = String::from_str("[code]");
                out.append(message);
                out.append("[/code]");
                out
            },
            BBCodeFormatter::Url => {
                let mut out = String::from_str("[url=");
                out.append(value);
                out.append("]");
                out.append(message);
                out.append("[/url]");
                out
            },
            BBCodeFormatter::Emoticon => {
                let mut out = String::from_str("[emoticon:");
                out.append(value);
                out.append("]");
                out
            },
            BBCodeFormatter::Passthrough => String::from_str(message),
        }
    }
}

/// Wrap a message in markup of the given type, choosing the strategy by name.
pub fn format_with_bbcode(message: &str, bbcode_type: &str, value: &str) -> (r: String)
    ensures
        r@ == spec_format_with_bbcode(message@, bbcode_type@, value@),
{
    let formatter = get_formatter(bbcode_type);
    formatter.format(message, value)
}

} // verus!
