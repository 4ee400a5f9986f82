//! The typed outline node: a chapter with a title, an optional path, a draft
//! flag and nested sub-chapters, together with its mathematical view and the
//! factories for the simple chapter shapes.

use vstd::prelude::*;
use crate::text::{last_component, title_from_markdown};

verus! {

/// One node of the built outline.
///
/// `path` is a filesystem path as plain text; an absent path is the empty
/// string. `draft` means "not backed by a real file on disk". The record
/// rule sets `draft` from an explicit key only and defaults it to `false`
/// even beside an empty path, while the bare-string and link rules derive it
/// from the path: the two readings are kept as they are, not reconciled.
#[derive(Debug, PartialEq)]
pub struct Chapter {
    pub title: String,
    pub path: String,
    pub draft: bool,
    pub sections: Vec<Chapter>,
}

/// A title and a path as parsed from a markup link item.
#[derive(Debug, PartialEq)]
pub struct MdLink {
    pub title: String,
    pub path: String,
}

/// The mathematical value of a [`Chapter`]: its text fields as character
/// sequences and its sub-chapters as a sequence of the same.
#[verifier::ext_equal]
pub struct ChapterView {
    pub title: Seq<char>,
    pub path: Seq<char>,
    pub draft: bool,
    pub sections: Seq<ChapterView>,
}

/// The view of one chapter.
pub open spec fn chapter_view(c: Chapter) -> ChapterView
    decreases c,
{
    ChapterView {
        title: c.title@,
        path: c.path@,
        draft: c.draft,
        sections: chapters_view(c.sections@),
    }
}

/// The views of an ordered sequence of chapters, in order.
pub open spec fn chapters_view(cs: Seq<Chapter>) -> Seq<ChapterView>
    decreases cs,
{
    if cs.len() == 0 {
        Seq::empty()
    } else {
        chapters_view(cs.drop_last()).push(chapter_view(cs.last()))
    }
}

/// `chapters_view` maps `chapter_view` over its argument pointwise.
pub proof fn lemma_chapters_view(cs: Seq<Chapter>)
    ensures
        chapters_view(cs).len() == cs.len(),
        forall|i: int| 0 <= i < cs.len() ==> chapters_view(cs)[i] == chapter_view(cs[i]),
    decreases cs,
{
    if cs.len() > 0 {
        lemma_chapters_view(cs.drop_last());
    }
}

/// The all-empty sentinel chapter value: empty title and path, not a draft,
/// no sections.
pub open spec fn empty_chapter_view() -> ChapterView {
    ChapterView { title: Seq::empty(), path: Seq::empty(), draft: false, sections: Seq::empty() }
}

impl Chapter {
    /// The all-empty sentinel chapter, also the starting point for the
    /// record rule.
    pub fn empty() -> (c: Chapter)
        ensures
            chapter_view(c) == empty_chapter_view(),
    {
        let c = Chapter {
            title: String::new(),
            path: String::new(),
            draft: false,
            sections: Vec::new(),
        };
        proof {
            assert(chapter_view(c) =~= empty_chapter_view());
        }
        c
    }

    /// The chapter for a bare file reference: backed by `path`, titled after
    /// its file name, not a draft.
    pub fn from_path(path: String) -> (c: Chapter)
        ensures
            chapter_view(c) == (ChapterView {
                title: last_component(path@),
                path: path@,
                draft: false,
                sections: Seq::empty(),
            }),
    {
        let title = title_from_markdown(path.as_str());
        let c = Chapter { title, path, draft: false, sections: Vec::new() };
        proof {
            assert(chapter_view(c) =~= ChapterView {
                title: last_component(c.path@),
                path: c.path@,
                draft: false,
                sections: Seq::empty(),
            });
        }
        c
    }

    /// The chapter for a bare title: a draft with no path.
    pub fn from_title(title: String) -> (c: Chapter)
        ensures
            chapter_view(c) == (ChapterView {
                title: title@,
                path: Seq::empty(),
                draft: true,
                sections: Seq::empty(),
            }),
    {
        let c = Chapter { title, path: String::new(), draft: true, sections: Vec::new() };
        proof {
            assert(chapter_view(c) =~= ChapterView {
                title: c.title@,
                path: Seq::empty(),
                draft: true,
                sections: Seq::empty(),
            });
        }
        c
    }

    /// The chapter for a parsed link item: its title and path taken as they
    /// stand, a draft exactly when the path is empty.
    pub fn from_link(link: MdLink) -> (c: Chapter)
        ensures
            chapter_view(c) == (ChapterView {
                title: link.title@,
                path: link.path@,
                draft: link.path@.len() == 0,
                sections: Seq::empty(),
            }),
    {
        let draft = link.path.as_str().unicode_len() == 0;
        let c = Chapter { title: link.title, path: link.path, draft, sections: Vec::new() };
        proof {
            assert(chapter_view(c) =~= ChapterView {
                title: c.title@,
                path: c.path@,
                draft: c.path@.len() == 0,
                sections: Seq::empty(),
            });
        }
        c
    }
}

} // verus!
