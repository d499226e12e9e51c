use lx::config::{Author, Config};
use lx::item::{Error as ItemError, Image, Metadata, RenderedTexts, Slug};
use lx::page::{
    prepare, Error, Id, Item, Parsed, PostLink, Rendered, RootedPath, Source,
};
use lx::serial;
use std::collections::HashMap;

fn header(title: &str) -> serial::Item {
    serial::Item {
        title: Some(title.to_string()),
        subtitle: None,
        summary: None,
        qualifiers: None,
        date: None,
        updated: Vec::new(),
        permalink: None,
        thanks: None,
        tags: None,
        featured: false,
        layout: None,
        image: None,
        link: None,
        book: None,
        series: None,
        work: None,
    }
}

fn nothing_inherited() -> serial::Inherited {
    serial::Inherited {
        layout: None,
        qualifiers: None,
        thanks: None,
        tags: Vec::new(),
        image: None,
        book: None,
        series: None,
        subscribe: None,
        work: None,
    }
}

fn nothing_rendered() -> RenderedTexts {
    RenderedTexts { subtitle: Ok(String::new()), summary: Ok(String::new()), thanks: Ok(String::new()) }
}

fn metadata(path: &str, item: serial::Item) -> Metadata {
    Metadata::resolved(item, path, nothing_inherited(), "base.jinja".to_string(), nothing_rendered())
        .unwrap()
        .0
}

fn moment(seconds: i64, nanoseconds: u32) -> serial::Timestamp {
    serial::Timestamp {
        year: 2024,
        month: 5,
        day: 6,
        unix_seconds: seconds,
        nanoseconds,
        rfc3339: "2024-05-06T00:00:00+00:00".to_string(),
    }
}

fn config(url: &str) -> Config {
    Config {
        url: url.to_string(),
        repo: "repo".to_string(),
        title: "Site".to_string(),
        subtitle: None,
        description: "About".to_string(),
        author: Author { name: "A".to_string(), email: "a@example.com".to_string(), links: HashMap::new() },
        output: "/site/public".to_string(),
        image: Image::from("https://example.com/site.png".to_string()),
        nav: Vec::new(),
    }
}

#[test]
fn an_identifier_depends_on_the_path_alone() {
    assert_eq!(Id::of("content/a.md").describe(), "fc884355-65a0-5e4e-ad73-73777e4fc57a");
    assert_eq!(Id::of("content/b.md").describe(), "18d4f585-6536-5671-9aec-c0d34b898ba6");
    assert_eq!(Id::of("content/a.md"), Id::of("content/a.md"));
    assert_ne!(Id::of("content/a.md"), Id::of("content/b.md"));
}

#[test]
fn a_place_is_rooted_in_the_content_directory() {
    assert_eq!(
        RootedPath::new(&Slug::Permalink("about/me".to_string()), "/site/content"),
        Ok(RootedPath("about/me".to_string()))
    );
    assert_eq!(
        RootedPath::new(&Slug::FromPath("/site/content/notes/first".to_string()), "/site/content"),
        Ok(RootedPath("notes/first".to_string()))
    );
    assert_eq!(
        RootedPath::new(&Slug::FromPath("/other/notes/first".to_string()), "/site/content"),
        Err(Error::BadSlugRoot {
            root: "/site/content".to_string(),
            slug: "/other/notes/first".to_string()
        })
    );
}

#[test]
fn an_address_has_one_slash_between_site_and_place() {
    let place = RootedPath("notes/first".to_string());
    assert_eq!(place.url(&config("https://example.com")), "https://example.com/notes/first");
    assert_eq!(place.url(&config("https://example.com///")), "https://example.com/notes/first");
    assert_eq!(place.as_str(), "notes/first");
}

#[test]
fn preparing_fails_for_each_reason() {
    let source = Source { path: "content/a.md".to_string(), contents: String::new() };
    assert_eq!(
        prepare(&source, Parsed::Unprepared { reason: "bad".to_string() }, nothing_inherited(), nothing_rendered()),
        Err(Error::Preparation { source: "bad".to_string() })
    );
    assert_eq!(
        prepare(&source, Parsed::NoMetadata, nothing_inherited(), nothing_rendered()),
        Err(Error::MissingMetadata)
    );
    assert_eq!(
        prepare(&source, Parsed::Unparsed { reason: "yaml".to_string() }, nothing_inherited(), nothing_rendered()),
        Err(Error::MetadataParsing { source: "yaml".to_string() })
    );
    let mut untitled = header("x");
    untitled.title = None;
    assert_eq!(
        prepare(
            &source,
            Parsed::Header { item: untitled, body: "text".to_string() },
            nothing_inherited(),
            nothing_rendered()
        ),
        Err(Error::MetadataResolution {
            source: ItemError::MissingRequiredField { name: "title".to_string() }
        })
    );
}

#[test]
fn preparing_resolves_metadata_and_keeps_the_body() {
    let source = Source { path: "content/a.md".to_string(), contents: String::new() };
    let mut item = header("A");
    item.date = Some(moment(10, 0));
    let prepared = prepare(
        &source,
        Parsed::Header { item, body: "the *body*".to_string() },
        nothing_inherited(),
        nothing_rendered(),
    )
    .unwrap();
    assert_eq!(prepared.to_render, "the *body*");
    assert_eq!(prepared.date, Some(moment(10, 0)));
    assert_eq!(prepared.data.title, "A");
    assert_eq!(prepared.data.layout, "base.jinja");
    assert_eq!(prepared.data.slug, Slug::FromPath("content/a".to_string()));
    let rendered = prepared.clone().render(Ok("<p>the <em>body</em></p>".to_string())).unwrap();
    assert_eq!(rendered.content, "<p>the <em>body</em></p>");
    assert_eq!(rendered.date, Some(moment(10, 0)));
    assert_eq!(rendered.data, prepared.data);
    assert_eq!(
        prepared.render(Err("no such template".to_string())),
        Err(Error::Render { source: "no such template".to_string() })
    );
}

#[test]
fn an_item_with_a_date_is_a_post() {
    let source = Source { path: "/site/content/a.md".to_string(), contents: "raw".to_string() };
    let data = metadata("/site/content/a.md", header("A"));
    let dated = Rendered { content: "<p>a</p>".to_string(), date: Some(moment(5, 1)), data: data.clone() };
    let item = Item::from_rendered(dated, &source, "/site/content").unwrap();
    assert!(matches!(&item, Item::Post(post) if post.date == moment(5, 1)));
    assert_eq!(item.content(), "<p>a</p>");
    assert_eq!(item.layout(), "base.jinja");
    assert_eq!(item.title(), "A");
    assert_eq!(item.path(), &RootedPath("a".to_string()));
    assert_eq!(item.source(), &source);
    assert_eq!(item.data(), &data);
    let undated = Rendered { content: "<p>a</p>".to_string(), date: None, data };
    let item = Item::from_rendered(undated, &source, "/site/content").unwrap();
    assert!(matches!(&item, Item::Page(page) if page.id == Id::of("/site/content/a.md")));
}

#[test]
fn an_item_outside_the_content_directory_is_refused() {
    let source = Source { path: "/elsewhere/a.md".to_string(), contents: String::new() };
    let data = metadata("/elsewhere/a.md", header("A"));
    let rendered = Rendered { content: String::new(), date: None, data };
    assert!(matches!(
        Item::from_rendered(rendered, &source, "/site/content"),
        Err(Error::BadSlugRoot { root, slug }) if root == "/site/content" && slug == "/elsewhere/a"
    ));
}

#[test]
fn posts_are_ordered_by_their_dates() {
    let source = Source { path: "/c/a.md".to_string(), contents: String::new() };
    let post = |seconds: i64, nanoseconds: u32| {
        let rendered = Rendered {
            content: String::new(),
            date: Some(moment(seconds, nanoseconds)),
            data: metadata("/c/a.md", header("A")),
        };
        match Item::from_rendered(rendered, &source, "/c").unwrap() {
            Item::Post(post) => post,
            Item::Page(_) => unreachable!(),
        }
    };
    assert!(post(1, 0).is_before(&post(2, 0)));
    assert!(!post(2, 0).is_before(&post(1, 0)));
    assert!(post(1, 5).is_before(&post(1, 6)));
    assert!(!post(1, 5).is_before(&post(1, 5)));
    assert!(post(-3, 0).is_before(&post(0, 0)));
    assert!(post(1, 0).page.same(&post(2, 0).page));
}

#[test]
fn pages_are_told_apart_by_their_source_alone() {
    let a = Source { path: "/c/a.md".to_string(), contents: String::new() };
    let b = Source { path: "/c/b.md".to_string(), contents: String::new() };
    let post = |source, title: &str, seconds: i64| {
        let rendered = Rendered {
            content: String::new(),
            date: Some(moment(seconds, 0)),
            data: metadata("/c/a.md", header(title)),
        };
        match Item::from_rendered(rendered, source, "/c").unwrap() {
            Item::Post(post) => post,
            Item::Page(_) => unreachable!(),
        }
    };
    assert!(post(&a, "One", 1).page == post(&a, "Other", 2).page);
    assert!(post(&a, "One", 1).page != post(&b, "One", 1).page);
    assert!(post(&a, "One", 1) == post(&a, "Other", 1));
    assert!(post(&a, "One", 1) != post(&a, "One", 2));
    assert!(post(&a, "One", 1) != post(&b, "One", 1));
    assert!(moment(1, 2).same(&moment(1, 2)));
    assert!(!moment(1, 2).same(&moment(1, 3)));
}

#[test]
fn a_link_says_where_it_leads() {
    let source = Source { path: "/c/a.md".to_string(), contents: String::new() };
    let link_of = |link: Option<&str>| {
        let mut item = header("A");
        item.link = link.map(String::from);
        let rendered = Rendered {
            content: String::new(),
            date: Some(moment(1, 0)),
            data: metadata("/c/a.md", item),
        };
        match Item::from_rendered(rendered, &source, "/c").unwrap() {
            Item::Post(post) => PostLink::from(&post),
            Item::Page(_) => unreachable!(),
        }
    };
    let plain = link_of(None);
    assert_eq!(plain.anchor_title, "post permalink");
    assert_eq!(plain.slug, Slug::FromPath("/c/a".to_string()));
    let linked = link_of(Some("https://example.com"));
    assert_eq!(linked.anchor_title, "link to https://example.com");
    assert!(plain.same(&link_of(None)));
    assert!(!plain.same(&linked));
}

#[test]
fn page_errors_read_well() {
    let s = |t: &str| t.to_string();
    assert_eq!(
        Error::Preparation { source: s("why") }.describe(),
        "could not prepare Markdown for parsing"
    );
    assert_eq!(Error::Preparation { source: s("why") }.cause(), Some(s("why")));
    assert_eq!(Error::MissingMetadata.describe(), "no metadata");
    assert_eq!(Error::MissingMetadata.cause(), None);
    assert_eq!(Error::MetadataParsing { source: s("bad yaml") }.describe(), "bad yaml");
    let unresolved = Error::MetadataResolution {
        source: ItemError::MissingRequiredField { name: s("title") },
    };
    assert_eq!(unresolved.describe(), "could not resolve metadata");
    assert_eq!(unresolved.cause(), Some(s("missing required field 'title'")));
    assert_eq!(Error::Render { source: s("no template") }.describe(), "no template");
    assert_eq!(
        Error::BadSlugRoot { root: s("/r"), slug: s("/s") }.describe(),
        "Invalid combination of root '/r' and slug '/s'"
    );
}
