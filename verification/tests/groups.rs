use book_outline::chapter::{Chapter, MdLink};
use book_outline::filesystem::Filesystem;
use book_outline::node::{Entry, Node};
use book_outline::outline::{build_group, build_outline};
use book_outline::text::{str_eq, title_from_markdown};

fn text(s: &str) -> Node {
    Node::Text(s.to_string())
}

fn pair(key: &str, value: Node) -> Entry {
    Entry { key: Node::Text(key.to_string()), value }
}

fn empty_fs() -> Filesystem {
    Filesystem::new(vec![])
}

fn draft(title: &str) -> Chapter {
    Chapter { title: title.to_string(), path: String::new(), draft: true, sections: vec![] }
}

/// The root mapping of the worked example: three named groups, the middle
/// one holding a structured record with nested sections.
fn example_root() -> Node {
    Node::Mapping(vec![
        pair("frontmatter", Node::Array(vec![text("preface.md"), text("intro.md")])),
        pair(
            "mainmatter",
            Node::Array(vec![
                text("chapter1.md"),
                Node::Mapping(vec![
                    pair("path", text("chapter2.md")),
                    pair("title", text("Nameless Stone Labyrinth")),
                    pair("sections", Node::Array(vec![text("ch2-sec1.md"), text("ch2-sec2.md")])),
                ]),
                text("chapter3.md"),
            ]),
        ),
        pair(
            "backmatter",
            Node::Array(vec![
                text("glossary.md"),
                Node::Mapping(vec![pair("title", text("Appendix A")), pair("path", text("appendix-a.md"))]),
                Node::Mapping(vec![pair("title", text("Appendix B")), pair("path", text("appendix-b.md"))]),
            ]),
        ),
    ])
}

#[test]
fn mainmatter_of_the_example_builds_as_documented() {
    let fs = empty_fs();
    let cs = build_group(&example_root(), "mainmatter", &fs);
    assert_eq!(cs.len(), 3);
    assert_eq!(cs[0], draft("chapter1.md"));
    assert_eq!(
        cs[1],
        Chapter {
            title: "Nameless Stone Labyrinth".to_string(),
            path: "chapter2.md".to_string(),
            draft: false,
            sections: vec![draft("ch2-sec1.md"), draft("ch2-sec2.md")],
        }
    );
    assert_eq!(cs[2], draft("chapter3.md"));
}

#[test]
fn all_three_groups_build_independently() {
    let fs = empty_fs();
    let o = build_outline(&example_root(), &fs);
    assert_eq!(o.frontmatter, vec![draft("preface.md"), draft("intro.md")]);
    assert_eq!(o.mainmatter.len(), 3);
    assert_eq!(o.backmatter.len(), 3);
    assert_eq!(o.backmatter[0], draft("glossary.md"));
    assert_eq!(o.backmatter[1].title, "Appendix A");
    assert_eq!(o.backmatter[1].path, "appendix-a.md");
    assert!(!o.backmatter[1].draft);
    assert_eq!(o.backmatter[2].title, "Appendix B");
}

#[test]
fn absent_group_key_yields_empty_group() {
    let fs = empty_fs();
    let root = Node::Mapping(vec![pair("mainmatter", Node::Array(vec![text("a.md")]))]);
    assert_eq!(build_group(&root, "frontmatter", &fs), vec![]);
    assert_eq!(build_group(&root, "mainmatter", &fs).len(), 1);
}

#[test]
fn group_key_with_non_array_value_yields_empty_group() {
    let fs = empty_fs();
    let root = Node::Mapping(vec![pair("mainmatter", text("not a list"))]);
    assert_eq!(build_group(&root, "mainmatter", &fs), vec![]);
}

#[test]
fn non_mapping_root_yields_empty_groups() {
    let fs = empty_fs();
    let o = build_outline(&text("just text"), &fs);
    assert_eq!(o.frontmatter, vec![]);
    assert_eq!(o.mainmatter, vec![]);
    assert_eq!(o.backmatter, vec![]);
}

#[test]
fn title_from_markdown_takes_the_file_name() {
    assert_eq!(title_from_markdown("a/b/c.md"), "c.md");
    assert_eq!(title_from_markdown("chapter1.md"), "chapter1.md");
    assert_eq!(title_from_markdown(""), "");
    assert_eq!(title_from_markdown("dir/"), "");
}

#[test]
fn filesystem_probe_finds_only_listed_paths() {
    let fs = Filesystem::new(vec!["a.md".to_string(), "b/c.md".to_string()]);
    assert!(fs.contains_path("a.md"));
    assert!(fs.contains_path("b/c.md"));
    assert!(!fs.contains_path("c.md"));
    assert!(!fs.contains_path(""));
}

#[test]
fn str_eq_compares_exactly() {
    assert!(str_eq("abc", "abc"));
    assert!(!str_eq("abc", "abd"));
    assert!(!str_eq("abc", "ab"));
    assert!(str_eq("", ""));
}

#[test]
fn link_with_empty_path_is_a_draft() {
    let c = Chapter::from_link(MdLink { title: "T".to_string(), path: String::new() });
    assert_eq!(c, Chapter { title: "T".to_string(), path: String::new(), draft: true, sections: vec![] });
}

#[test]
fn link_with_path_is_not_a_draft() {
    let c = Chapter::from_link(MdLink { title: "T".to_string(), path: "p.md".to_string() });
    assert_eq!(c, Chapter { title: "T".to_string(), path: "p.md".to_string(), draft: false, sections: vec![] });
}

#[test]
fn path_factory_titles_after_the_file_name() {
    let c = Chapter::from_path("guide/intro.md".to_string());
    assert_eq!(
        c,
        Chapter {
            title: "intro.md".to_string(),
            path: "guide/intro.md".to_string(),
            draft: false,
            sections: vec![],
        }
    );
}

#[test]
fn title_factory_makes_a_draft() {
    let c = Chapter::from_title("Working Title".to_string());
    assert_eq!(
        c,
        Chapter {
            title: "Working Title".to_string(),
            path: String::new(),
            draft: true,
            sections: vec![],
        }
    );
}

#[test]
fn empty_chapter_has_all_fields_at_defaults() {
    let c = Chapter::empty();
    assert_eq!(c.title, "");
    assert_eq!(c.path, "");
    assert!(!c.draft);
    assert!(c.sections.is_empty());
}
