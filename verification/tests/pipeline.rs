use lx::item::RenderedTexts;
use lx::page::{self, prepare, Parsed, Prepared, RootedPath, Source};
use lx::pipeline::{
    advance, begin, BuildAction, Stage, display_paths, is_markdown, is_root_style, load_sources, markdown_sources, page_destination,
    partition, phase, root_styles, static_destination, style_destination, template_name,
    ContentError, Error, Outcome, PageError, PageErrorKind,
};
use lx::serial;

fn strings(items: &[&str]) -> Vec<String> {
    items.iter().map(|s| s.to_string()).collect()
}

fn header(title: &str) -> serial::Item {
    serial::Item {
        title: Some(title.to_string()),
        subtitle: None,
        summary: None,
        qualifiers: None,
        date: None,
        updated: Vec::new(),
        permalink: None,
        thanks: None,
        tags: None,
        featured: false,
        layout: None,
        image: None,
        link: None,
        book: None,
        series: None,
        work: None,
    }
}

fn nothing_inherited() -> serial::Inherited {
    serial::Inherited {
        layout: None,
        qualifiers: None,
        thanks: None,
        tags: Vec::new(),
        image: None,
        book: None,
        series: None,
        subscribe: None,
        work: None,
    }
}

fn prepared(source: &Source, parsed: Parsed) -> Outcome<Prepared, page::Error> {
    let rendered = RenderedTexts { subtitle: Ok(String::new()), summary: Ok(String::new()), thanks: Ok(String::new()) };
    Outcome { path: source.path.clone(), result: prepare(source, parsed, nothing_inherited(), rendered) }
}

fn valid(title: &str) -> Parsed {
    Parsed::Header { item: header(title), body: "text".to_string() }
}

fn source(path: &str) -> Source {
    Source { path: path.to_string(), contents: String::new() }
}

#[test]
fn one_malformed_source_fails_the_build_and_is_the_only_one_named() {
    let a = source("content/a.md");
    let b = source("content/b.md");
    let outcomes = vec![
        prepared(&a, valid("A")),
        prepared(&b, Parsed::Unparsed { reason: "did not find expected key".to_string() }),
    ];
    match phase(outcomes, PageErrorKind::Prepare) {
        Err(Error::Page(error)) => {
            assert_eq!(error.kind, PageErrorKind::Prepare);
            assert_eq!(error.paths(), strings(&["content/b.md"]));
            assert_eq!(error.errors.len(), 1);
            assert_eq!(
                error.errors[0].1,
                page::Error::MetadataParsing { source: "did not find expected key".to_string() }
            );
            assert_eq!(
                error.describe(),
                "could not prepare 1 pages for rendering\ncontent/b.md:\n\tdid not find expected key\n"
            );
        }
        other => panic!("the build went on: {other:?}"),
    }
}

#[test]
fn every_failure_is_named_in_order() {
    let names = ["content/1.md", "content/2.md", "content/3.md", "content/4.md", "content/5.md"];
    let sources: Vec<Source> = names.iter().map(|name| source(name)).collect();
    for failing in 0..32u32 {
        let outcomes: Vec<Outcome<Prepared, page::Error>> = sources
            .iter()
            .enumerate()
            .map(|(i, source)| {
                if failing & (1 << i) != 0 {
                    prepared(source, Parsed::NoMetadata)
                } else {
                    prepared(source, valid("T"))
                }
            })
            .collect();
        let expected: Vec<String> = names
            .iter()
            .enumerate()
            .filter(|(i, _)| failing & (1 << i) != 0)
            .map(|(_, name)| name.to_string())
            .collect();
        match phase(outcomes, PageErrorKind::Prepare) {
            Ok(items) => {
                assert_eq!(failing, 0);
                assert_eq!(items.len(), 5);
            }
            Err(Error::Page(error)) => {
                assert_eq!(error.paths(), expected);
                assert_eq!(error.errors.len(), failing.count_ones() as usize);
                assert!(error.errors.iter().all(|(_, cause)| *cause == page::Error::MissingMetadata));
            }
            Err(other) => panic!("unexpected error: {other:?}"),
        }
    }
}

#[test]
fn a_phase_without_failures_hands_on_every_item_in_order() {
    let outcomes: Vec<Outcome<u32, page::Error>> = vec![
        Outcome { path: "a".to_string(), result: Ok(1) },
        Outcome { path: "b".to_string(), result: Ok(2) },
        Outcome { path: "c".to_string(), result: Ok(3) },
    ];
    assert!(matches!(phase(outcomes, PageErrorKind::Render), Ok(items) if items == vec![1, 2, 3]));
    let none: Vec<Outcome<u32, page::Error>> = Vec::new();
    assert!(matches!(phase(none, PageErrorKind::Render), Ok(items) if items.is_empty()));
}

#[test]
fn a_failed_render_phase_says_so() {
    let outcomes: Vec<Outcome<u32, page::Error>> = vec![
        Outcome { path: "a.md".to_string(), result: Err(page::Error::Render { source: "no template".to_string() }) },
        Outcome { path: "b.md".to_string(), result: Ok(2) },
        Outcome {
            path: "c.md".to_string(),
            result: Err(page::Error::Preparation { source: "unclosed".to_string() }),
        },
    ];
    match phase(outcomes, PageErrorKind::Render) {
        Err(Error::Page(error)) => {
            assert_eq!(error.kind, PageErrorKind::Render);
            assert_eq!(
                error.describe(),
                "could not render 2 pages\na.md:\n\tno template\nc.md:\n\tcould not prepare Markdown for parsing\n\t\tunclosed\n"
            );
        }
        other => panic!("unexpected: {other:?}"),
    }
}

#[test]
fn partition_keeps_both_sides_in_order() {
    let outcomes: Vec<Outcome<u32, String>> = vec![
        Outcome { path: "a".to_string(), result: Ok(1) },
        Outcome { path: "b".to_string(), result: Err("x".to_string()) },
        Outcome { path: "c".to_string(), result: Ok(3) },
        Outcome { path: "d".to_string(), result: Err("y".to_string()) },
    ];
    let (failed, passed) = partition(outcomes);
    assert_eq!(failed, vec![("b".to_string(), "x".to_string()), ("d".to_string(), "y".to_string())]);
    assert_eq!(passed, vec![1, 3]);
}

#[test]
fn unreadable_sources_are_all_named() {
    let reads = vec![
        Outcome { path: "a.md".to_string(), result: Ok(Source { path: "a.md".to_string(), contents: "A".to_string() }) },
        Outcome { path: "b.md".to_string(), result: Err("denied".to_string()) },
        Outcome { path: "c.md".to_string(), result: Err("gone".to_string()) },
    ];
    match load_sources(reads) {
        Err(Error::Content(errors)) => assert_eq!(
            errors,
            vec![
                ContentError { path: "b.md".to_string(), source: "denied".to_string() },
                ContentError { path: "c.md".to_string(), source: "gone".to_string() },
            ]
        ),
        other => panic!("unexpected: {other:?}"),
    }
    let reads = vec![Outcome {
        path: "a.md".to_string(),
        result: Ok::<Source, String>(Source { path: "a.md".to_string(), contents: "A".to_string() }),
    }];
    assert!(matches!(
        load_sources(reads),
        Ok(sources) if sources == vec![Source { path: "a.md".to_string(), contents: "A".to_string() }]
    ));
}

#[test]
fn only_markdown_is_prepared() {
    assert!(is_markdown("content/a.md"));
    assert!(!is_markdown("content/a.markdown"));
    assert!(!is_markdown("content/md"));
    assert!(!is_markdown("content/_data.lx.yaml"));
    let sources = vec![source("a.md"), source("b.yaml"), source("c.md"), source("d")];
    let picked: Vec<&str> = markdown_sources(&sources).iter().map(|s| s.path.as_str()).collect();
    assert_eq!(picked, vec!["a.md", "c.md"]);
}

#[test]
fn templates_are_named_from_their_directory() {
    assert!(matches!(
        template_name("/site/_ui/base.jinja", "/site", Some("/_shared")),
        Ok(name) if name == "base.jinja"
    ));
    assert!(matches!(
        template_name("/_shared/_ui/views/archive.jinja", "/site", Some("/_shared")),
        Ok(name) if name == "views/archive.jinja"
    ));
    assert!(matches!(
        template_name("/other/_ui/base.jinja", "/site", Some("/_shared")),
        Err(Error::TemplatePath { path }) if path == "/other/_ui/base.jinja"
    ));
    assert!(matches!(
        template_name("/_shared/_ui/base.jinja", "/site", None),
        Err(Error::TemplatePath { path }) if path == "/_shared/_ui/base.jinja"
    ));
}

#[test]
fn destinations_lie_below_the_output() {
    assert_eq!(
        page_destination("/site/public", &RootedPath("notes/first".to_string())),
        "/site/public/notes/first/index.html"
    );
    assert!(matches!(
        static_destination("/site/_static/img/a.png", "/site", "/site", "/site/public"),
        Ok(path) if path == "/site/public/img/a.png"
    ));
    assert!(matches!(
        static_destination("/_shared/_static/font.woff", "/_shared", "/site", "/site/public"),
        Ok(path) if path == "/site/public/font.woff"
    ));
    assert!(matches!(
        static_destination("/elsewhere/a.png", "/site", "/site", "/site/public"),
        Err(Error::StripPrefix { prefix, path }) if prefix == "/site" && path == "/elsewhere/a.png"
    ));
    assert!(matches!(
        style_destination("/site/_styles/main.scss", "/site", "/site/public"),
        Ok(path) if path == "/site/public/main.css"
    ));
    assert!(matches!(
        style_destination("/site/_styles/print.css", "/site", "/site/public"),
        Ok(path) if path == "/site/public/print.css"
    ));
    assert!(matches!(
        style_destination("/site/other/main.css", "/site", "/site/public"),
        Err(Error::StripPrefix { prefix, path }) if prefix == "/site" && path == "/site/other/main.css"
    ));
}

#[test]
fn partial_style_sheets_are_not_built_by_themselves() {
    assert!(is_root_style("/site/_styles/main.css"));
    assert!(!is_root_style("/site/_styles/_reset.css"));
    assert_eq!(
        root_styles(&strings(&["/s/_styles/main.css", "/s/_styles/_reset.css", "/", "/s/_styles/dark.css"])),
        strings(&["/s/_styles/main.css", "/s/_styles/dark.css"])
    );
}

#[test]
fn paths_are_listed_for_the_log() {
    assert_eq!(display_paths(&Vec::new()), " (none)");
    assert_eq!(display_paths(&strings(&["a", "b"])), "\n      a\n      b");
}

#[test]
fn build_errors_read_well() {
    let s = |t: &str| t.to_string();
    assert_eq!(Error::LoadTemplates { source: s("could not load templates: x") }.describe(), "could not load templates: x");
    assert_eq!(Error::rewrite(s("syntax"), "{{ x").describe(), "could not rewrite {{ x with minijinja");
    assert_eq!(Error::Cascade { source: s("x") }.describe(), "could not load data cascade");
    assert_eq!(
        Error::Config { source: lx::config::Error::BadFile { path: s("c.yaml"), source: s("gone") } }.describe(),
        "could not load site config: could not read file 'c.yaml'"
    );
    assert_eq!(Error::Content(Vec::new()).describe(), "could not load one or more site content sources");
    assert_eq!(
        Error::Page(PageError { errors: Vec::new(), kind: PageErrorKind::Render }).describe(),
        "could not render 0 pages\n"
    );
    assert_eq!(
        Error::preparing_page(vec![(s("a.md"), page::Error::MissingMetadata)]).describe(),
        "could not prepare 1 pages for rendering\na.md:\n\tno metadata\n"
    );
    assert_eq!(
        Error::rendering_page(vec![(s("a.md"), page::Error::MissingMetadata)]).describe(),
        "could not render 1 pages\na.md:\n\tno metadata\n"
    );
    assert_eq!(
        Error::CreateOutputDirectory { path: s("/o"), source: s("x") }.describe(),
        "could not create output directory '/o'"
    );
    assert_eq!(
        Error::CopyFile { from: s("/a"), to: s("/b"), source: s("x") }.describe(),
        "could not copy from /a to /b"
    );
    assert_eq!(Error::WriteFile { path: s("/a"), source: s("x") }.describe(), "could not write to /a");
    assert_eq!(Error::GlobPattern { pattern: s("**["), source: s("x") }.describe(), "bad glob pattern: '**['");
    assert_eq!(Error::Glob { source: s("unreadable") }.describe(), "unreadable");
    assert_eq!(
        Error::StripPrefix { prefix: s("/a"), path: s("/b/c") }.describe(),
        "could not strip prefix '/a' from path '/b/c'"
    );
    assert_eq!(Error::Styles { source: s("x") }.describe(), "error compiling CSS");
    assert_eq!(Error::TemplatePath { path: s("/t") }.describe(), "invalid template path /t");
    assert_eq!(Error::RemoveDir { path: s("/o"), source: s("x") }.describe(), "could not delete directory '/o'");
    assert_eq!(Error::CreateDir { path: s("/o"), source: s("x") }.describe(), "could not create directory '/o'");
    assert_eq!(
        Error::NonUtf8Path { path: s("/o"), source: s("bad bytes") }.describe(),
        "Could not convert path '/o' to unicode: bad bytes"
    );
    assert_eq!(ContentError { path: s("a.md"), source: s("x") }.describe(), "Could not load file a.md");
}

#[test]
fn a_build_writes_only_after_both_phases_and_composing() {
    let (stage, action) = begin();
    assert_eq!((stage, action), (Stage::Preparing, BuildAction::Prepare));
    let (stage, action) = advance(stage, true);
    assert_eq!((stage, action), (Stage::Rendering, BuildAction::Render));
    let (stage, action) = advance(stage, true);
    assert_eq!((stage, action), (Stage::Composing, BuildAction::Compose));
    let (stage, action) = advance(stage, true);
    assert_eq!((stage, action), (Stage::Clearing, BuildAction::Clear));
    let (stage, action) = advance(stage, true);
    assert_eq!((stage, action), (Stage::Writing, BuildAction::Write));
    let (stage, action) = advance(stage, true);
    assert_eq!((stage, action), (Stage::Done, BuildAction::Finish));
    assert_eq!(advance(stage, false), (Stage::Done, BuildAction::Finish));
}

#[test]
fn a_failed_step_ends_the_build_and_nothing_is_touched() {
    for failing in 0..5 {
        let (mut stage, mut action) = begin();
        let mut asked = vec![action];
        for step in 0..7 {
            (stage, action) = advance(stage, step != failing);
            asked.push(action);
        }
        assert_eq!(stage, Stage::Failed);
        assert_eq!(action, BuildAction::Abort);
        let cleared = asked.contains(&BuildAction::Clear);
        let written = asked.contains(&BuildAction::Write);
        assert_eq!(cleared, failing >= 3);
        assert_eq!(written, failing >= 4);
        assert!(!asked.contains(&BuildAction::Finish));
    }
}

#[test]
fn a_phase_with_a_malformed_source_leaves_the_output_alone() {
    let a = source("content/a.md");
    let b = source("content/b.md");
    let outcomes = vec![prepared(&a, valid("A")), prepared(&b, Parsed::NoMetadata)];
    let (stage, _) = begin();
    let ended = phase(outcomes, PageErrorKind::Prepare);
    assert_eq!(advance(stage, ended.is_ok()), (Stage::Failed, BuildAction::Abort));
}
