//! Store keys and the patterns that select them.
//!
//! A key is text cut into segments by `.`. A pattern is a key in which a
//! segment `*` stands for any one segment.

use vstd::prelude::*;
use crate::text::{
    chars_of, decimal, decimal_string, lemma_decimal_chars, lemma_decimal_injective, push_decimal,
    push_text, same_chars,
};

verus! {

/// The character that separates the segments of a key.
pub open spec fn separator() -> char {
    '.'
}

/// The pattern segment that matches any key segment.
pub open spec fn wildcard() -> Seq<char> {
    seq!['*']
}

/// The segments of `s`: the pieces between its separators, in order. Text
/// without a separator is one segment, and so is the empty text.
pub open spec fn segments(s: Seq<char>) -> Seq<Seq<char>>
    decreases s.len(),
{
    if s.len() == 0 {
        seq![Seq::empty()]
    } else {
        let before = segments(s.drop_last());
        if s.last() == separator() {
            before.push(Seq::empty())
        } else {
            before.update(before.len() - 1, before.last().push(s.last()))
        }
    }
}

/// Whether the pattern segment `p` accepts the key segment `k`.
pub open spec fn segment_matches(p: Seq<char>, k: Seq<char>) -> bool {
    p == wildcard() || p == k
}

/// Whether the segments `ps` and `ks` are equally many and each segment of
/// `ps` accepts the segment of `ks` at its place.
pub open spec fn segments_match(ps: Seq<Seq<char>>, ks: Seq<Seq<char>>) -> bool {
    &&& ps.len() == ks.len()
    &&& forall|i: int| 0 <= i < ps.len() ==> segment_matches(#[trigger] ps[i], ks[i])
}

/// Whether `pattern` matches `key`: both have the same number of segments and
/// each pattern segment is the wildcard or equals the key's segment.
pub open spec fn matches_key(pattern: Seq<char>, key: Seq<char>) -> bool {
    segments_match(segments(pattern), segments(key))
}

/// The key of a flow: `type.project_slug.project_id.flow_id`.
pub open spec fn flow_identifier(
    flow_type: Seq<char>,
    project_slug: Seq<char>,
    project_id: int,
    flow_id: int,
) -> Seq<char> {
    flow_type + seq![separator()] + project_slug + seq![separator()] + decimal(project_id)
        + seq![separator()] + decimal(flow_id)
}

/// The pattern that an event of `event_type` in project `project_id` is looked
/// up with: `event_type.*.project_id.*`.
pub open spec fn event_pattern(event_type: Seq<char>, project_id: int) -> Seq<char> {
    event_type + seq![separator()] + wildcard() + seq![separator()] + decimal(project_id)
        + seq![separator()] + wildcard()
}

/// Whether `key` is the key of a flow with the id `flow_id`: it has the four
/// segments of a flow's key, and the last of them, the flow id, is `flow_id`
/// in decimal form. The type, the slug and the project make no difference.
pub open spec fn holds_flow_id(key: Seq<char>, flow_id: int) -> bool {
    segments(key).len() == 4 && segments(key)[3] == decimal(flow_id)
}

/// The views of a list of character lists.
pub open spec fn segment_views(parts: Seq<Vec<char>>) -> Seq<Seq<char>> {
    Seq::new(parts.len(), |i: int| parts[i]@)
}

/// A key always has at least one segment.
pub proof fn lemma_segments_nonempty(s: Seq<char>)
    ensures
        segments(s).len() >= 1,
    decreases s.len(),
{
    if s.len() > 0 {
        lemma_segments_nonempty(s.drop_last());
    }
}

/// No segment holds a separator.
pub proof fn lemma_segments_hold_no_separator(s: Seq<char>)
    ensures
        forall|i: int|
            0 <= i < segments(s).len() ==> !(#[trigger] segments(s)[i]).contains(separator()),
    decreases s.len(),
{
    if s.len() > 0 {
        lemma_segments_nonempty(s.drop_last());
        lemma_segments_hold_no_separator(s.drop_last());
    }
}

/// Text without a separator is its own single segment.
pub proof fn lemma_segments_of_plain(s: Seq<char>)
    requires
        !s.contains(separator()),
    ensures
        segments(s) == seq![s],
    decreases s.len(),
{
    if s.len() == 0 {
        assert(s =~= Seq::<char>::empty());
    } else {
        let init = s.drop_last();
        lemma_segments_of_plain(init);
        assert(init.push(s.last()) =~= s);
    }
}

/// Appending a separator and text without a separator adds that text as one
/// more segment.
pub proof fn lemma_segments_append(head: Seq<char>, tail: Seq<char>)
    requires
        !tail.contains(separator()),
    ensures
        segments(head + seq![separator()] + tail) == segments(head).push(tail),
    decreases tail.len(),
{
    let whole = head + seq![separator()] + tail;
    if tail.len() == 0 {
        assert(whole.drop_last() =~= head);
        assert(tail =~= Seq::<char>::empty());
    } else {
        let init = tail.drop_last();
        lemma_segments_append(head, init);
        assert(whole.drop_last() =~= head + seq![separator()] + init);
        assert(init.push(tail.last()) =~= tail);
    }
}

/// The text that `parts` make when a separator is put between each two of
/// them.
pub open spec fn joined(parts: Seq<Seq<char>>) -> Seq<char>
    decreases parts.len(),
{
    if parts.len() == 0 {
        Seq::empty()
    } else if parts.len() == 1 {
        parts[0]
    } else {
        joined(parts.drop_last()) + seq![separator()] + parts.last()
    }
}

/// Joining the segments of a text gives the text back.
pub proof fn lemma_segments_join(s: Seq<char>)
    ensures
        joined(segments(s)) == s,
    decreases s.len(),
{
    if s.len() > 0 {
        let init = s.drop_last();
        let before = segments(init);
        lemma_segments_join(init);
        if s.last() == separator() {
            assert(before.push(Seq::<char>::empty()).drop_last() =~= before);
        } else if before.len() > 1 {
            let after = before.update(before.len() - 1, before.last().push(s.last()));
            assert(after.drop_last() =~= before.drop_last());
            assert(joined(after) =~= joined(before).push(s.last()));
        }
    }
}

/// Parts without a separator are the segments of their joined text.
pub proof fn lemma_segments_of_joined(parts: Seq<Seq<char>>)
    requires
        parts.len() >= 1,
        forall|i: int| 0 <= i < parts.len() ==> !(#[trigger] parts[i]).contains(separator()),
    ensures
        segments(joined(parts)) == parts,
    decreases parts.len(),
{
    if parts.len() == 1 {
        lemma_segments_of_plain(parts[0]);
    } else {
        let init = parts.drop_last();
        lemma_segments_of_joined(init);
        lemma_segments_append(joined(init), parts.last());
    }
}

/// A decimal form holds neither a separator nor the wildcard's character.
pub proof fn lemma_decimal_is_plain(n: int)
    ensures
        !decimal(n).contains(separator()),
        !decimal(n).contains('*'),
        decimal(n) != wildcard(),
{
    lemma_decimal_chars(n, '.');
    lemma_decimal_chars(n, '*');
    if decimal(n) == wildcard() {
        assert(decimal(n)[0] == '*');
    }
}

/// The key of a flow whose type and slug hold no separator has exactly four
/// segments: the type, the slug, the project id and the flow id.
pub proof fn lemma_flow_identifier_segments(
    flow_type: Seq<char>,
    project_slug: Seq<char>,
    project_id: int,
    flow_id: int,
)
    requires
        !flow_type.contains(separator()),
        !project_slug.contains(separator()),
    ensures
        segments(flow_identifier(flow_type, project_slug, project_id, flow_id)) == seq![
            flow_type,
            project_slug,
            decimal(project_id),
            decimal(flow_id),
        ],
{
    lemma_decimal_is_plain(project_id);
    lemma_decimal_is_plain(flow_id);
    lemma_segments_of_plain(flow_type);
    let one = flow_type + seq![separator()] + project_slug;
    lemma_segments_append(flow_type, project_slug);
    let two = one + seq![separator()] + decimal(project_id);
    lemma_segments_append(one, decimal(project_id));
    lemma_segments_append(two, decimal(flow_id));
}

/// The lookup pattern of an event whose type holds no separator has exactly
/// four segments: the type, a wildcard, the project id and a wildcard.
pub proof fn lemma_event_pattern_segments(event_type: Seq<char>, project_id: int)
    requires
        !event_type.contains(separator()),
    ensures
        segments(event_pattern(event_type, project_id)) == seq![
            event_type,
            wildcard(),
            decimal(project_id),
            wildcard(),
        ],
{
    lemma_decimal_is_plain(project_id);
    lemma_segments_of_plain(event_type);
    let one = event_type + seq![separator()] + wildcard();
    lemma_segments_append(event_type, wildcard());
    let two = one + seq![separator()] + decimal(project_id);
    lemma_segments_append(one, decimal(project_id));
    lemma_segments_append(two, wildcard());
}

/// An event finds a flow exactly if it is of the flow's type, or of any type
/// where its own type is the wildcard, and belongs to the flow's project. The
/// flow's slug and id make no difference.
pub proof fn lemma_event_finds_flow(
    event_type: Seq<char>,
    event_project: int,
    flow_type: Seq<char>,
    project_slug: Seq<char>,
    project_id: int,
    flow_id: int,
)
    requires
        !event_type.contains(separator()),
        !flow_type.contains(separator()),
        !project_slug.contains(separator()),
    ensures
        matches_key(
            event_pattern(event_type, event_project),
            flow_identifier(flow_type, project_slug, project_id, flow_id),
        ) <==> ((event_type == flow_type || event_type == wildcard()) && event_project
            == project_id),
{
    lemma_event_pattern_segments(event_type, event_project);
    lemma_flow_identifier_segments(flow_type, project_slug, project_id, flow_id);
    if decimal(event_project) == decimal(project_id) {
        lemma_decimal_injective(event_project, project_id);
    }
}

/// The key of a flow whose type and slug hold no separator is the key of a
/// flow with the id `flow_id` exactly if that is the flow's own id.
pub proof fn lemma_flow_identifier_holds_its_id(
    flow_type: Seq<char>,
    project_slug: Seq<char>,
    project_id: int,
    own_id: int,
    flow_id: int,
)
    requires
        !flow_type.contains(separator()),
        !project_slug.contains(separator()),
    ensures
        holds_flow_id(flow_identifier(flow_type, project_slug, project_id, own_id), flow_id)
            <==> own_id == flow_id,
{
    lemma_flow_identifier_segments(flow_type, project_slug, project_id, own_id);
    if decimal(own_id) == decimal(flow_id) {
        lemma_decimal_injective(own_id, flow_id);
    }
}

/// Cuts `s` into its segments.
pub fn split_segments(s: &str) -> (parts: Vec<Vec<char>>)
    ensures
        segment_views(parts@) == segments(s@),
{
    let chars = chars_of(s);
    let mut done: Vec<Vec<char>> = Vec::new();
    let mut current: Vec<char> = Vec::new();
    let mut i: usize = 0;
    while i < chars.len()
        invariant
            i <= chars.len(),
            segment_views(done@).push(current@) == segments(chars@.subrange(0, i as int)),
        decreases chars.len() - i,
    {
        let c = chars[i];
        assert(chars@.subrange(0, i + 1).drop_last() =~= chars@.subrange(0, i as int));
        if c == '.' {
            done.push(current);
            current = Vec::new();
        } else {
            current.push(c);
        }
        i = i + 1;
    }
    assert(chars@.subrange(0, chars.len() as int) =~= chars@);
    done.push(current);
    done
}

fn is_wildcard(part: &Vec<char>) -> (yes: bool)
    ensures
        yes == (part@ == wildcard()),
{
    if part.len() == 1 && part[0] == '*' {
        assert(part@ =~= wildcard());
        true
    } else {
        false
    }
}

/// Whether the segments `ps` and `ks` are equally many and each of `ps`
/// accepts the one of `ks` at its place.
fn parts_match(ps: &Vec<Vec<char>>, ks: &Vec<Vec<char>>) -> (matched: bool)
    ensures
        matched == segments_match(segment_views(ps@), segment_views(ks@)),
{
    if ps.len() != ks.len() {
        return false;
    }
    let mut i: usize = 0;
    while i < ps.len()
        invariant
            i <= ps.len() == ks.len(),
            forall|j: int|
                0 <= j < i ==> segment_matches(
                    #[trigger] segment_views(ps@)[j],
                    segment_views(ks@)[j],
                ),
        decreases ps.len() - i,
    {
        let wild = is_wildcard(&ps[i]);
        let same = same_chars(&ps[i], &ks[i]);
        if !wild && !same {
            assert(!segment_matches(segment_views(ps@)[i as int], segment_views(ks@)[i as int]));
            return false;
        }
        i = i + 1;
    }
    true
}

/// Whether `pattern` matches `key`, segment by segment: a `*` segment of the
/// pattern matches any segment of the key, every other segment must equal the
/// key's, and both must have the same number of segments.
pub fn is_matching_key(pattern: &String, key: &String) -> (matched: bool)
    ensures
        matched == matches_key(pattern@, key@),
{
    let ps = split_segments(pattern.as_str());
    let ks = split_segments(key.as_str());
    parts_match(&ps, &ks)
}

/// Whether `key` is the key of a flow with the id `flow_id`: whether it has
/// four segments and the last of them is `flow_id` in decimal form.
pub fn is_key_of_flow(key: &String, flow_id: i64) -> (held: bool)
    ensures
        held == holds_flow_id(key@, flow_id as int),
{
    let parts = split_segments(key.as_str());
    if parts.len() != 4 {
        return false;
    }
    let id = decimal_string(flow_id);
    let digits = chars_of(id.as_str());
    let held = same_chars(&parts[3], &digits);
    assert(segment_views(parts@)[3] == parts@[3]@);
    held
}

fn push_separator(out: &mut String)
    ensures
        final(out)@ == old(out)@ + seq![separator()],
{
    proof {
        reveal_strlit(".");
    }
    out.append(".");
}

fn push_wildcard(out: &mut String)
    ensures
        final(out)@ == old(out)@ + wildcard(),
{
    proof {
        reveal_strlit("*");
    }
    out.append("*");
}

/// Builds the key `flow_type.project_slug.project_id.flow_id`.
pub fn compose_flow_identifier(
    flow_type: &String,
    project_slug: &String,
    project_id: i64,
    flow_id: i64,
) -> (key: String)
    ensures
        key@ == flow_identifier(flow_type@, project_slug@, project_id as int, flow_id as int),
{
    let mut key = flow_type.clone();
    push_separator(&mut key);
    push_text(&mut key, project_slug);
    push_separator(&mut key);
    push_decimal(&mut key, project_id);
    push_separator(&mut key);
    push_decimal(&mut key, flow_id);
    key
}

/// Builds the lookup pattern `event_type.*.project_id.*`.
pub fn compose_event_pattern(event_type: &String, project_id: i64) -> (pattern: String)
    ensures
        pattern@ == event_pattern(event_type@, project_id as int),
{
    let mut pattern = event_type.clone();
    push_separator(&mut pattern);
    push_wildcard(&mut pattern);
    push_separator(&mut pattern);
    push_decimal(&mut pattern, project_id);
    push_separator(&mut pattern);
    push_wildcard(&mut pattern);
    pattern
}

} // verus!
