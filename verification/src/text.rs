//! Texts made of parts: joining parts with a separator, and cutting a
//! qualified name into its segments.

use vstd::prelude::*;
use vstd::string::*;

verus! {

/// The text made of `parts` written one after another with `separator`
/// between each two neighbours.
pub open spec fn joined(parts: Seq<Seq<char>>, separator: Seq<char>) -> Seq<char>
    decreases parts.len(),
{
    if parts.len() == 0 {
        Seq::empty()
    } else if parts.len() == 1 {
        parts[0]
    } else {
        joined(parts.drop_last(), separator) + separator + parts.last()
    }
}

/// What `joined` writes behind the first `count` parts.
pub open spec fn joined_rest(parts: Seq<Seq<char>>, count: int, separator: Seq<char>) -> Seq<char>
    decreases parts.len(),
{
    if count >= parts.len() || parts.len() == 0 {
        Seq::empty()
    } else if parts.len() == 1 {
        parts[0]
    } else {
        joined_rest(parts.drop_last(), count, separator) + separator + parts.last()
    }
}

/// What `joined` writes before the part at position `at`.
pub open spec fn joined_front(parts: Seq<Seq<char>>, at: int, separator: Seq<char>) -> Seq<char> {
    if at <= 0 {
        Seq::empty()
    } else {
        joined(parts.take(at), separator) + separator
    }
}

/// The joined text starts with the joined text of the first parts.
pub proof fn lemma_joined_starts(parts: Seq<Seq<char>>, count: int, separator: Seq<char>)
    requires
        0 <= count <= parts.len(),
    ensures
        joined(parts, separator) == joined(parts.take(count), separator) + joined_rest(
            parts,
            count,
            separator,
        ),
    decreases parts.len(),
{
    if count == parts.len() {
        assert(parts.take(count) =~= parts);
    } else if parts.len() > 1 {
        let front = parts.drop_last();
        lemma_joined_starts(front, count, separator);
        assert(front.take(count) =~= parts.take(count));
    }
}

/// The joined text holds each part: behind what is written before it, and
/// before what is written behind it.
pub proof fn lemma_joined_holds(parts: Seq<Seq<char>>, at: int, separator: Seq<char>)
    requires
        0 <= at < parts.len(),
    ensures
        joined(parts, separator) == joined_front(parts, at, separator) + parts[at] + joined_rest(
            parts,
            at + 1,
            separator,
        ),
{
    lemma_joined_starts(parts, at + 1, separator);
    let front = parts.take(at + 1);
    assert(front.drop_last() =~= parts.take(at));
}

/// With a separator that is not empty, the joined text of more parts is
/// longer than that of the first of them.
pub proof fn lemma_joined_grows(parts: Seq<Seq<char>>, count: int, separator: Seq<char>)
    requires
        1 <= count < parts.len(),
        separator.len() >= 1,
    ensures
        joined(parts.take(count), separator).len() < joined(parts, separator).len(),
    decreases parts.len(),
{
    let front = parts.drop_last();
    if count < front.len() {
        lemma_joined_grows(front, count, separator);
        assert(front.take(count) =~= parts.take(count));
    }
}

/// The two colons that separate the segments of a qualified name.
pub open spec fn qualifier() -> Seq<char> {
    seq![':', ':']
}

/// A qualifier starts at position `at` of `text`.
pub open spec fn qualifier_at(text: Seq<char>, at: int) -> bool {
    0 <= at && at + 1 < text.len() && text[at] == ':' && text[at + 1] == ':'
}

/// The first position at or after `from` at which a qualifier starts, or the
/// length of `text` when there is none.
pub open spec fn next_qualifier(text: Seq<char>, from: int) -> int
    decreases text.len() - from,
{
    if from < 0 || from + 1 >= text.len() {
        text.len() as int
    } else if qualifier_at(text, from) {
        from
    } else {
        next_qualifier(text, from + 1)
    }
}

/// The segments of the part of `text` that starts at `from`: the text is cut
/// at each qualifier, scanning from the left, and a qualifier is never part
/// of a segment.
pub open spec fn segments_from(text: Seq<char>, from: int) -> Seq<Seq<char>>
    decreases text.len() - from,
{
    let stop = next_qualifier(text, from);
    if 0 <= from <= stop && stop + 1 < text.len() {
        seq![text.subrange(from, stop)] + segments_from(text, stop + 2)
    } else {
        seq![text.subrange(from, text.len() as int)]
    }
}

/// The segments of a qualified name. A name without a qualifier has exactly
/// one segment, itself.
pub open spec fn segments(text: Seq<char>) -> Seq<Seq<char>> {
    segments_from(text, 0)
}

/// Between `from` and the next qualifier no qualifier starts, and the next
/// qualifier, if there is one, is a qualifier.
pub proof fn lemma_next_qualifier(text: Seq<char>, from: int)
    requires
        0 <= from <= text.len(),
    ensures
        from <= next_qualifier(text, from) <= text.len(),
        next_qualifier(text, from) < text.len() ==> qualifier_at(text, next_qualifier(text, from)),
        forall|at: int| from <= at < next_qualifier(text, from) ==> !qualifier_at(text, at),
    decreases text.len() - from,
{
    if from + 1 < text.len() && !qualifier_at(text, from) {
        lemma_next_qualifier(text, from + 1);
    }
}

/// Skipping a position at which no qualifier starts does not change where
/// the next one is.
pub proof fn lemma_next_qualifier_skip(text: Seq<char>, from: int)
    requires
        0 <= from < text.len(),
        !qualifier_at(text, from),
    ensures
        next_qualifier(text, from) == next_qualifier(text, from + 1),
{
}

/// The next qualifier is where the first qualifier at or after `from`
/// starts.
pub proof fn lemma_next_qualifier_is(text: Seq<char>, from: int, stop: int)
    requires
        0 <= from <= stop <= text.len(),
        forall|at: int| from <= at < stop ==> !qualifier_at(text, at),
        stop == text.len() || qualifier_at(text, stop),
    ensures
        next_qualifier(text, from) == stop,
{
    lemma_next_qualifier(text, from);
}

/// No colon is in `text`.
pub open spec fn plain(text: Seq<char>) -> bool {
    forall|at: int| 0 <= at < text.len() ==> text[at] != ':'
}

/// A text in which no qualifier starts has one segment, itself.
pub proof fn lemma_one_segment(text: Seq<char>)
    requires
        forall|at: int| !qualifier_at(text, at),
    ensures
        segments(text) == seq![text],
{
    lemma_next_qualifier_is(text, 0, text.len() as int);
    assert(text.subrange(0, text.len() as int) =~= text);
}

/// Two texts with a qualifier between them, the first without a colon and
/// the second without a qualifier, have exactly themselves as segments.
pub proof fn lemma_two_segments(first: Seq<char>, second: Seq<char>)
    requires
        plain(first),
        forall|at: int| !qualifier_at(second, at),
    ensures
        segments(first + qualifier() + second) == seq![first, second],
{
    let text = first + qualifier() + second;
    let cut = first.len() as int;
    assert(forall|at: int| 0 <= at < cut ==> !qualifier_at(text, at));
    lemma_next_qualifier_is(text, 0, cut);
    assert forall|at: int| cut + 2 <= at < text.len() implies !qualifier_at(text, at) by {
        assert(!qualifier_at(second, at - cut - 2));
    }
    lemma_next_qualifier_is(text, cut + 2, text.len() as int);
    assert(text.subrange(0, cut) =~= first);
    assert(text.subrange(cut + 2, text.len() as int) =~= second);
    assert(segments_from(text, cut + 2) == seq![second]);
}

/// Cuts a qualified name into its segments.
pub fn split_name<'a>(name: &'a str) -> (parts: Vec<&'a str>)
    ensures
        parts.deep_view() == segments(name@),
        parts.len() >= 1,
{
    let n = name.unicode_len();
    let mut parts: Vec<&'a str> = Vec::new();
    let mut start: usize = 0;
    let mut at: usize = 0;
    while at < n && n - at > 1
        invariant
            n == name@.len(),
            start <= at <= n,
            next_qualifier(name@, start as int) == next_qualifier(name@, at as int),
            segments(name@) == parts.deep_view() + segments_from(name@, start as int),
        decreases n - at,
    {
        if name.get_char(at) == ':' && name.get_char(at + 1) == ':' {
            parts.push(name.substring_char(start, at));
            at = at + 2;
            start = at;
        } else {
            proof {
                lemma_next_qualifier_skip(name@, at as int);
            }
            at = at + 1;
        }
    }
    parts.push(name.substring_char(start, n));
    parts
}

/// Writes `parts` one after another with `separator` between neighbours.
pub fn join_names(parts: &Vec<String>, separator: &str) -> (text: String)
    ensures
        text@ == joined(parts.deep_view(), separator@),
{
    let mut text = String::new();
    let mut done: usize = 0;
    while done < parts.len()
        invariant
            done <= parts.len(),
            text@ == joined(parts.deep_view().take(done as int), separator@),
        decreases parts.len() - done,
    {
        proof {
            let so_far = parts.deep_view().take(done as int);
            assert(parts.deep_view().take(done + 1).drop_last() =~= so_far);
        }
        if done > 0 {
            text.append(separator);
        }
        text.append(parts[done].as_str());
        done = done + 1;
    }
    assert(parts.deep_view().take(done as int) =~= parts.deep_view());
    text
}

/// A copy of a list of names.
pub fn clone_names(names: &Vec<String>) -> (copy: Vec<String>)
    ensures
        copy.deep_view() == names.deep_view(),
{
    let mut copy: Vec<String> = Vec::new();
    let mut at: usize = 0;
    while at < names.len()
        invariant
            at <= names.len(),
            copy.deep_view() == names.deep_view().take(at as int),
        decreases names.len() - at,
    {
        let ghost before = copy.deep_view();
        let name = names[at].clone();
        copy.push(name);
        assert(copy.deep_view() =~= before.push(name@));
        at = at + 1;
    }
    copy
}

} // verus!
