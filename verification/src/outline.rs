//! The core build pass: classifying a generic node as a chapter shape,
//! building the chapter for each shape with field defaults, and driving that
//! construction over ordered node sequences — at the top level for the three
//! named groups and recursively for nested section lists.

use vstd::prelude::*;
use crate::chapter::{
    Chapter, ChapterView, chapter_view, chapters_view, empty_chapter_view, lemma_chapters_view,
};
use crate::filesystem::Filesystem;
use crate::node::{Entry, Node, lookup_idx, spec_lookup};
use crate::text::last_component;

verus! {

/// The legal chapter shapes a generic node can take: a bare text scalar
/// (a title or a file reference, told apart by the filesystem probe), a
/// structured record, or no valid chapter interpretation at all.
#[derive(Debug, Clone, Copy, PartialEq, Eq, Structural)]
pub enum ChapterShape {
    Bare,
    Record,
    Empty,
}

/// The shape of one node. Total over every node kind.
pub open spec fn spec_classify(node: Node) -> ChapterShape {
    match node {
        Node::Text(_) => ChapterShape::Bare,
        Node::Mapping(_) => ChapterShape::Record,
        Node::Int(_) => ChapterShape::Empty,
        Node::Real(_) => ChapterShape::Empty,
        Node::Bool(_) => ChapterShape::Empty,
        Node::Null => ChapterShape::Empty,
        Node::Invalid => ChapterShape::Empty,
        Node::Array(_) => ChapterShape::Empty,
    }
}

/// Determines which chapter shape `node` represents.
pub fn classify(node: &Node) -> (s: ChapterShape)
    ensures
        s == spec_classify(*node),
{
    match node {
        Node::Text(_) => ChapterShape::Bare,
        Node::Mapping(_) => ChapterShape::Record,
        Node::Int(_) | Node::Real(_) | Node::Bool(_) | Node::Null | Node::Invalid
            | Node::Array(_) => ChapterShape::Empty,
    }
}

/// The title a record yields: the value under `title` when it is text,
/// the fallback `Untitled` when the key is present with another type, and
/// empty when the key is absent.
pub open spec fn spec_title_of(entries: Seq<Entry>) -> Seq<char> {
    match spec_lookup(entries, "title"@) {
        Some(v) => match v {
            Node::Text(s) => s@,
            _ => "Untitled"@,
        },
        None => Seq::empty(),
    }
}

/// The path a record yields: the value under `path` when it is text, empty
/// when the key is absent or holds another type.
pub open spec fn spec_path_of(entries: Seq<Entry>) -> Seq<char> {
    match spec_lookup(entries, "path"@) {
        Some(v) => match v {
            Node::Text(s) => s@,
            _ => Seq::empty(),
        },
        None => Seq::empty(),
    }
}

/// The draft flag a record yields: the value under `draft` when it is a
/// boolean, `false` when the key is absent or holds another type.
pub open spec fn spec_draft_of(entries: Seq<Entry>) -> bool {
    match spec_lookup(entries, "draft"@) {
        Some(v) => match v {
            Node::Bool(b) => b,
            _ => false,
        },
        None => false,
    }
}

/// A value `spec_lookup` returns is the value of some pair of `entries`.
proof fn lemma_lookup_is_element(entries: Seq<Entry>, key: Seq<char>)
    requires
        spec_lookup(entries, key) is Some,
    ensures
        exists|j: int|
            0 <= j < entries.len() && spec_lookup(entries, key) == Some(
                #[trigger] entries[j].value,
            ),
    decreases entries.len(),
{
    let hit = match entries.last().key {
        Node::Text(k) => k@ == key,
        _ => false,
    };
    if hit {
        assert(entries[entries.len() - 1].value == entries.last().value);
    } else {
        lemma_lookup_is_element(entries.drop_last(), key);
        let j = choose|j: int|
            0 <= j < entries.drop_last().len() && spec_lookup(entries.drop_last(), key) == Some(
                #[trigger] entries.drop_last()[j].value,
            );
        assert(entries.drop_last()[j] == entries[j]);
    }
}

/// The chapter a node builds into, probed against the set `fs` of existing
/// paths.
///
/// A text scalar whose value is in `fs` is a file-backed chapter titled
/// after its file name; any other text scalar is a draft titled verbatim.
/// A mapping applies the four recognized keys independently, recursing into
/// `sections`; unrecognized keys are ignored. Every other node kind yields
/// the all-empty sentinel chapter, which stays in the output, unfiltered.
pub open spec fn spec_build(node: Node, fs: Set<Seq<char>>) -> ChapterView
    decreases node,
    via spec_build_decreases
{
    match node {
        Node::Text(s) => if fs.contains(s@) {
            ChapterView {
                title: last_component(s@),
                path: s@,
                draft: false,
                sections: Seq::empty(),
            }
        } else {
            ChapterView { title: s@, path: Seq::empty(), draft: true, sections: Seq::empty() }
        },
        Node::Mapping(entries) => ChapterView {
            title: spec_title_of(entries@),
            path: spec_path_of(entries@),
            draft: spec_draft_of(entries@),
            sections: match spec_lookup(entries@, "sections"@) {
                Some(Node::Array(a)) => spec_build_seq(a@, fs),
                _ => Seq::empty(),
            },
        },
        Node::Int(_) => empty_chapter_view(),
        Node::Real(_) => empty_chapter_view(),
        Node::Bool(_) => empty_chapter_view(),
        Node::Null => empty_chapter_view(),
        Node::Invalid => empty_chapter_view(),
        Node::Array(_) => empty_chapter_view(),
    }
}

/// The chapters an ordered node sequence builds into, in order.
pub open spec fn spec_build_seq(nodes: Seq<Node>, fs: Set<Seq<char>>) -> Seq<ChapterView>
    decreases nodes,
{
    if nodes.len() == 0 {
        Seq::empty()
    } else {
        spec_build_seq(nodes.drop_last(), fs).push(spec_build(nodes.last(), fs))
    }
}

#[via_fn]
proof fn spec_build_decreases(node: Node, fs: Set<Seq<char>>) {
    match node {
        Node::Mapping(entries) => {
            if spec_lookup(entries@, "sections"@) is Some {
                lemma_lookup_is_element(entries@, "sections"@);
                let j = choose|j: int|
                    0 <= j < entries@.len() && spec_lookup(entries@, "sections"@) == Some(
                        #[trigger] entries@[j].value,
                    );
                assert(decreases_to!(node => entries));
                assert(decreases_to!(entries => entries@));
                assert(decreases_to!(entries@ => entries@[j]));
                assert(decreases_to!(entries@[j] => entries@[j].value));
                match entries@[j].value {
                    Node::Array(a) => {
                        assert(decreases_to!(entries@[j].value => a));
                        assert(decreases_to!(a => a@));
                        assert(decreases_to!(node => a@));
                    },
                    _ => {},
                }
            }
        },
        _ => {},
    }
}

/// `spec_build_seq` maps `spec_build` over its argument pointwise.
pub proof fn lemma_spec_build_seq(nodes: Seq<Node>, fs: Set<Seq<char>>)
    ensures
        spec_build_seq(nodes, fs).len() == nodes.len(),
        forall|i: int|
            0 <= i < nodes.len() ==> spec_build_seq(nodes, fs)[i] == spec_build(nodes[i], fs),
    decreases nodes.len(),
{
    if nodes.len() > 0 {
        lemma_spec_build_seq(nodes.drop_last(), fs);
    }
}

/// Builds the chapter for one generic node, probing path existence against
/// `fs`. Total: every node kind yields a chapter, a sentinel one when the
/// node has no valid chapter interpretation.
pub fn build(node: &Node, fs: &Filesystem) -> (c: Chapter)
    ensures
        chapter_view(c) == spec_build(*node, fs@),
    decreases *node,
{
    match node {
        Node::Text(s) => {
            if fs.contains_path(s.as_str()) {
                Chapter::from_path(s.clone())
            } else {
                Chapter::from_title(s.clone())
            }
        },
        Node::Mapping(entries) => {
            let title: String = match lookup_idx(entries, "title") {
                Some(j) => match &entries[j].value {
                    Node::Text(t) => t.clone(),
                    _ => String::from_str("Untitled"),
                },
                None => String::new(),
            };
            let path: String = match lookup_idx(entries, "path") {
                Some(j) => match &entries[j].value {
                    Node::Text(p) => p.clone(),
                    _ => String::new(),
                },
                None => String::new(),
            };
            let draft: bool = match lookup_idx(entries, "draft") {
                Some(j) => match &entries[j].value {
                    Node::Bool(b) => *b,
                    _ => false,
                },
                None => false,
            };
            let sections: Vec<Chapter> = match lookup_idx(entries, "sections") {
                Some(j) => match &entries[j].value {
                    Node::Array(a) => {
                        proof {
                            assert(decreases_to!(*node => *entries));
                            assert(decreases_to!(*entries => entries@));
                            assert(decreases_to!(entries@ => entries@[j as int]));
                            assert(decreases_to!(entries@[j as int] => entries@[j as int].value));
                            assert(entries@[j as int].value == Node::Array(*a));
                            assert(decreases_to!(entries@[j as int].value => *a));
                        }
                        build_sequence(a, fs)
                    },
                    _ => Vec::new(),
                },
                None => Vec::new(),
            };
            let c = Chapter { title, path, draft, sections };
            proof {
                assert(chapter_view(c) =~= spec_build(*node, fs@));
            }
            c
        },
        Node::Int(_) | Node::Real(_) | Node::Bool(_) | Node::Null | Node::Invalid
            | Node::Array(_) => Chapter::empty(),
    }
}

/// Builds the chapters for an ordered sequence of nodes: one chapter per
/// node, in the input order, with no filtering.
pub fn build_sequence(nodes: &Vec<Node>, fs: &Filesystem) -> (cs: Vec<Chapter>)
    ensures
        cs@.len() == nodes@.len(),
        forall|i: int| 0 <= i < nodes@.len() ==> chapter_view(cs@[i]) == spec_build(
            nodes@[i],
            fs@,
        ),
        chapters_view(cs@) == spec_build_seq(nodes@, fs@),
    decreases *nodes,
{
    let n = nodes.len();
    let mut cs: Vec<Chapter> = Vec::new();
    let mut i: usize = 0;
    while i < n
        invariant
            n == nodes@.len(),
            i <= n,
            cs@.len() == i,
            forall|k: int| 0 <= k < i ==> chapter_view(cs@[k]) == spec_build(nodes@[k], fs@),
        decreases n - i,
    {
        proof {
            assert(decreases_to!(*nodes => nodes@));
            assert(decreases_to!(nodes@ => nodes@[i as int]));
        }
        let c = build(&nodes[i], fs);
        cs.push(c);
        i = i + 1;
    }
    proof {
        lemma_chapters_view(cs@);
        lemma_spec_build_seq(nodes@, fs@);
        assert(chapters_view(cs@) =~= spec_build_seq(nodes@, fs@));
    }
    cs
}

/// The chapters of one named top-level group of `root`: those built from
/// the array under `name` when `root` is a mapping holding one, and none
/// otherwise — an absent key yields an empty group rather than an error.
pub open spec fn spec_group(root: Node, name: Seq<char>, fs: Set<Seq<char>>) -> Seq<ChapterView> {
    match root {
        Node::Mapping(entries) => match spec_lookup(entries@, name) {
            Some(v) => match v {
                Node::Array(a) => spec_build_seq(a@, fs),
                _ => Seq::empty(),
            },
            None => Seq::empty(),
        },
        _ => Seq::empty(),
    }
}

/// Builds the chapter sequence of the top-level group named `name`.
pub fn build_group(root: &Node, name: &str, fs: &Filesystem) -> (cs: Vec<Chapter>)
    ensures
        chapters_view(cs@) == spec_group(*root, name@, fs@),
{
    let cs: Vec<Chapter> = match root {
        Node::Mapping(entries) => match lookup_idx(entries, name) {
            Some(j) => match &entries[j].value {
                Node::Array(a) => build_sequence(a, fs),
                _ => Vec::new(),
            },
            None => Vec::new(),
        },
        _ => Vec::new(),
    };
    proof {
        assert(chapters_view(cs@) =~= spec_group(*root, name@, fs@));
    }
    cs
}

/// The three named top-level groups of a document outline, each an ordered
/// chapter sequence independently built from the corresponding key of the
/// root mapping.
#[derive(Debug, PartialEq)]
pub struct Outline {
    pub frontmatter: Vec<Chapter>,
    pub mainmatter: Vec<Chapter>,
    pub backmatter: Vec<Chapter>,
}

/// Builds all three groups of `root`.
pub fn build_outline(root: &Node, fs: &Filesystem) -> (o: Outline)
    ensures
        chapters_view(o.frontmatter@) == spec_group(*root, "frontmatter"@, fs@),
        chapters_view(o.mainmatter@) == spec_group(*root, "mainmatter"@, fs@),
        chapters_view(o.backmatter@) == spec_group(*root, "backmatter"@, fs@),
{
    Outline {
        frontmatter: build_group(root, "frontmatter", fs),
        mainmatter: build_group(root, "mainmatter", fs),
        backmatter: build_group(root, "backmatter", fs),
    }
}

} // verus!
