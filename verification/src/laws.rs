//! The library's stated laws: what the build pass yields for each chapter
//! shape, proved once and for all inputs over the spec model that the build
//! functions' own contracts use.

use vstd::prelude::*;
use crate::chapter::{Chapter, ChapterView, chapter_view, empty_chapter_view};
use crate::node::{Entry, Node, spec_lookup};
use crate::outline::{ChapterShape, spec_build, spec_build_seq, spec_classify};
use crate::text::last_component;

verus! {

/// A record node supplying all four recognized keys with the right types
/// builds into exactly those fields: the title and path verbatim, the draft
/// flag as given, and the section list built recursively in order.
pub proof fn lemma_build_record_fields(
    entries: Vec<Entry>,
    fs: Set<Seq<char>>,
    t: String,
    p: String,
    d: bool,
    arr: Vec<Node>,
)
    requires
        spec_lookup(entries@, "title"@) == Some(Node::Text(t)),
        spec_lookup(entries@, "path"@) == Some(Node::Text(p)),
        spec_lookup(entries@, "draft"@) == Some(Node::Bool(d)),
        spec_lookup(entries@, "sections"@) == Some(Node::Array(arr)),
    ensures
        spec_build(Node::Mapping(entries), fs) == (ChapterView {
            title: t@,
            path: p@,
            draft: d,
            sections: spec_build_seq(arr@, fs),
        }),
{
    assert(spec_build(Node::Mapping(entries), fs) =~= ChapterView {
        title: t@,
        path: p@,
        draft: d,
        sections: spec_build_seq(arr@, fs),
    });
}

/// A bare text node whose value is a path that exists on the probing
/// filesystem builds into a file-backed chapter: that path, not a draft,
/// titled by the title resolution rule, with no sections.
pub proof fn lemma_build_existing_reference(s: String, fs: Set<Seq<char>>)
    requires
        fs.contains(s@),
    ensures
        spec_build(Node::Text(s), fs) == (ChapterView {
            title: last_component(s@),
            path: s@,
            draft: false,
            sections: Seq::empty(),
        }),
{
}

/// A bare text node whose value does not resolve to an existing path builds
/// into a draft: the text verbatim as title, an empty path, no sections.
pub proof fn lemma_build_draft_title(s: String, fs: Set<Seq<char>>)
    requires
        !fs.contains(s@),
    ensures
        spec_build(Node::Text(s), fs) == (ChapterView {
            title: s@,
            path: Seq::empty(),
            draft: true,
            sections: Seq::empty(),
        }),
{
}

/// Building is idempotent: two chapters built from the same node against
/// the same probing filesystem are identical — the pass keeps no hidden
/// state, its result is a function of its inputs alone.
pub proof fn lemma_build_deterministic(node: Node, fs: Set<Seq<char>>, c1: Chapter, c2: Chapter)
    requires
        chapter_view(c1) == spec_build(node, fs),
        chapter_view(c2) == spec_build(node, fs),
    ensures
        chapter_view(c1) == chapter_view(c2),
{
}

/// A record ignores keys not among the four recognized ones: appending a
/// pair whose key is any other text, or no text at all, leaves the built
/// chapter unchanged.
pub proof fn lemma_unrecognized_key_ignored(
    es1: Vec<Entry>,
    es2: Vec<Entry>,
    e: Entry,
    fs: Set<Seq<char>>,
)
    requires
        es2@ == es1@.push(e),
        (match e.key {
            Node::Text(k) => k@ != "title"@ && k@ != "path"@ && k@ != "draft"@ && k@
                != "sections"@,
            _ => true,
        }),
    ensures
        spec_build(Node::Mapping(es2), fs) == spec_build(Node::Mapping(es1), fs),
{
    assert(es2@.drop_last() =~= es1@);
    assert(spec_lookup(es2@, "title"@) == spec_lookup(es1@, "title"@));
    assert(spec_lookup(es2@, "path"@) == spec_lookup(es1@, "path"@));
    assert(spec_lookup(es2@, "draft"@) == spec_lookup(es1@, "draft"@));
    assert(spec_lookup(es2@, "sections"@) == spec_lookup(es1@, "sections"@));
    assert(spec_build(Node::Mapping(es2), fs) =~= spec_build(Node::Mapping(es1), fs));
}

/// A node with no valid chapter interpretation builds into the all-empty
/// sentinel chapter, whatever the probing filesystem holds.
pub proof fn lemma_unrecognized_yields_sentinel(node: Node, fs: Set<Seq<char>>)
    requires
        spec_classify(node) == ChapterShape::Empty,
    ensures
        spec_build(node, fs) == empty_chapter_view(),
{
}

} // verus!
