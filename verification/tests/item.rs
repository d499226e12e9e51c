use camino::Utf8PathBuf;
use lx::item::{
    nearest_data_dir, nice_list, same_option, Book, Error, FieldError, Metadata, MusicalWork, Qualifiers, Rendered, RenderedTexts,
    Slug, Video, WorkError, WorkMissingFrom,
};
use lx::serial;

fn strings(items: &[&str]) -> Vec<String> {
    items.iter().map(|s| s.to_string()).collect()
}

fn header() -> serial::Item {
    serial::Item {
        title: Some("A Title".to_string()),
        subtitle: None,
        summary: None,
        qualifiers: None,
        date: None,
        updated: Vec::new(),
        permalink: None,
        thanks: None,
        tags: None,
        featured: false,
        layout: None,
        image: None,
        link: None,
        book: None,
        series: None,
        work: None,
    }
}

fn nothing_inherited() -> serial::Inherited {
    serial::Inherited {
        layout: None,
        qualifiers: None,
        thanks: None,
        tags: Vec::new(),
        image: None,
        book: None,
        series: None,
        subscribe: None,
        work: None,
    }
}

fn nothing_rendered() -> RenderedTexts {
    RenderedTexts { subtitle: Ok(String::new()), summary: Ok(String::new()), thanks: Ok(String::new()) }
}

fn work(title: Option<&str>, date: Option<&str>, duration: Option<&str>, instrumentation: Option<&str>) -> serial::MusicalWork {
    serial::MusicalWork {
        title: title.map(String::from),
        subtitle: None,
        date: date.map(String::from),
        duration: duration.map(String::from),
        instrumentation: instrumentation.map(String::from),
        listen: None,
        video: None,
    }
}

fn moment(year: u32, month: u32, day: u32) -> serial::Timestamp {
    serial::Timestamp {
        year,
        month,
        day,
        unix_seconds: 0,
        nanoseconds: 0,
        rfc3339: format!("{year:04}-{month:02}-{day:02}T00:00:00+00:00"),
    }
}

#[test]
fn slug_from_explicit_permalink() {
    let permalink = "Hello There";
    let source = Utf8PathBuf::default();

    assert_eq!(
        Slug::new(Some(permalink), source.as_str()).unwrap(),
        Slug::Permalink(String::from(permalink)),
        "The provided permalink is always respected"
    );
}

#[test]
fn slug_from_simple_relative_path_with_simple_title() {
    let source = Utf8PathBuf::from("a/b/c/q.rs");
    let expected = Utf8PathBuf::from("a/b/c/q");

    assert_eq!(
        Slug::new(None, source.as_str()).unwrap(),
        Slug::FromPath(expected.into_string())
    );
}

#[test]
fn slug_from_simple_relative_path_with_complicated_title() {
    let source = Utf8PathBuf::from("a/b/c/Q R S.rs");
    let expected = Utf8PathBuf::from("a/b/c/q-r-s");

    assert_eq!(
        Slug::new(None, source.as_str()).unwrap(),
        Slug::FromPath(expected.into_string())
    );
}

#[test]
fn slug_from_complex_relative_path_with_simple_title() {
    let source = Utf8PathBuf::from("a/B C/d/q.rs");
    let expected = Utf8PathBuf::from("a/B C/d/q");

    assert_eq!(
        Slug::new(None, source.as_str()).unwrap(),
        Slug::FromPath(expected.into_string())
    );
}

#[test]
fn slug_from_complex_relative_path_with_complex_title() {
    let source = Utf8PathBuf::from("a/B C/d/Q R S.rs");
    let expected = Utf8PathBuf::from("a/B C/d/q-r-s");

    assert_eq!(
        Slug::new(None, source.as_str()).unwrap(),
        Slug::FromPath(expected.into_string())
    );
}

#[test]
fn nice_list_formatting() {
    assert_eq!(
        nice_list(&strings(&["a", "b", "c"])),
        Some(String::from("a, b, and c"))
    );
    assert_eq!(nice_list(&strings(&["a", "b"])), Some(String::from("a and b")));
    assert_eq!(nice_list(&strings(&["a"])), Some(String::from("a")));
    assert_eq!(nice_list(&Vec::<String>::new()), None);
}

#[test]
fn nice_list_of_four() {
    assert_eq!(
        nice_list(&strings(&["a", "b", "c", "d"])),
        Some(String::from("a, b, c, and d"))
    );
}

#[test]
fn slug_without_parent_is_an_error() {
    assert_eq!(
        Slug::new(None, ""),
        Err(Error::BadPermalink { reason: "missing parent on ''?!?".to_string() })
    );
}

#[test]
fn slug_without_file_stem_is_an_error() {
    assert_eq!(
        Slug::new(None, "a/.."),
        Err(Error::BadPermalink { reason: "missing file stem on 'a/..'?!?".to_string() })
    );
}

#[test]
fn slug_is_not_the_stem_unchanged() {
    assert_eq!(
        Slug::new(None, "posts/Hello, World!.md").unwrap(),
        Slug::FromPath("posts/hello-world".to_string())
    );
}

#[test]
fn error_texts() {
    assert_eq!(WorkError::Title.describe(), "title");
    assert_eq!(WorkError::Instrumentation.describe(), "instrumentation");
    assert_eq!(WorkError::Date.describe(), "date");
    assert_eq!(WorkError::Duration.describe(), "duration");
    assert_eq!(WorkMissingFrom::Item.describe(), "item (not present in cascade)");
    assert_eq!(WorkMissingFrom::Cascade.describe(), "cascade (not present on item)");
    assert_eq!(WorkMissingFrom::Both.describe(), "both item and cascade");
    assert_eq!(FieldError::Update.describe(), "missing `updated.at` field");
    assert_eq!(
        FieldError::Work(WorkError::Date, WorkMissingFrom::Both).describe(),
        "missing `date` in both item and cascade"
    );
    assert_eq!(
        Error::MissingRequiredField { name: "title".to_string() }.describe(),
        "missing required field 'title'"
    );
    assert_eq!(Error::bad_field(FieldError::Update).describe(), "bad field data");
    assert_eq!(
        Error::BadPermalink { reason: "why".to_string() }.describe(),
        "bad permalink: 'why'"
    );
    assert_eq!(Error::Markdown { source: "broken".to_string() }.describe(), "broken");
}

#[test]
fn work_from_nowhere_is_no_work() {
    assert_eq!(MusicalWork::resolved(None, None), Ok(None));
}

#[test]
fn work_from_item_alone() {
    let resolved = MusicalWork::resolved(
        Some(work(Some("Sonata"), Some("2020"), Some("10'"), Some("piano"))),
        None,
    )
    .unwrap()
    .unwrap();
    assert_eq!(resolved.title, "Sonata");
    assert_eq!(resolved.date, "2020");
    assert_eq!(resolved.duration, "10'");
    assert_eq!(resolved.instrumentation, "piano");
    assert_eq!(resolved.subtitle, None);
    assert_eq!(resolved.listen, None);
    assert_eq!(resolved.video, None);
}

#[test]
fn work_item_comes_before_cascade() {
    let mut from_item = work(Some("Sonata"), None, Some("10'"), None);
    from_item.video = Some(serial::Video::YouTube { yt: "abc".to_string() });
    let mut from_cascade = work(Some("Other"), Some("1999"), None, Some("strings"));
    from_cascade.subtitle = Some("for friends".to_string());
    from_cascade.video = Some(serial::Video::Url { url: "https://example.com".to_string() });
    let resolved = MusicalWork::resolved(Some(from_item), Some(from_cascade)).unwrap().unwrap();
    assert_eq!(resolved.title, "Sonata");
    assert_eq!(resolved.date, "1999");
    assert_eq!(resolved.duration, "10'");
    assert_eq!(resolved.instrumentation, "strings");
    assert_eq!(resolved.subtitle, Some("for friends".to_string()));
    assert_eq!(resolved.video, Some(Video::YouTube { id: "abc".to_string() }));
}

#[test]
fn work_missing_fields_name_field_and_place() {
    assert_eq!(
        MusicalWork::resolved(Some(work(None, None, None, None)), None),
        Err(Error::BadField { source: FieldError::Work(WorkError::Title, WorkMissingFrom::Item) })
    );
    assert_eq!(
        MusicalWork::resolved(None, Some(work(Some("t"), None, None, None))),
        Err(Error::BadField { source: FieldError::Work(WorkError::Date, WorkMissingFrom::Cascade) })
    );
    assert_eq!(
        MusicalWork::resolved(
            Some(work(Some("t"), None, None, None)),
            Some(work(None, Some("d"), None, Some("i")))
        ),
        Err(Error::BadField { source: FieldError::Work(WorkError::Duration, WorkMissingFrom::Both) })
    );
    assert_eq!(
        MusicalWork::resolved(Some(work(Some("t"), Some("d"), Some("u"), None)), None),
        Err(Error::BadField {
            source: FieldError::Work(WorkError::Instrumentation, WorkMissingFrom::Item)
        })
    );
}

#[test]
fn video_kinds_carry_over() {
    assert_eq!(
        Video::from(serial::Video::YouTubePlaylist { pl: "list".to_string() }),
        Video::YouTubePlaylist { id: "list".to_string() }
    );
    assert_eq!(
        Video::from(serial::Video::Url { url: "u".to_string() }),
        Video::Url { url: "u".to_string() }
    );
}

#[test]
fn book_cover_becomes_an_image() {
    let book = Book::from(serial::Book {
        title: Some("Title".to_string()),
        author: Some("Author".to_string()),
        year: Some("400 B.C.".to_string()),
        editors: None,
        translators: None,
        cover: Some("https://example.com/cover.png".to_string()),
        link: None,
        review: None,
    });
    assert_eq!(book.cover.unwrap().url(), "https://example.com/cover.png");
    assert_eq!(book.year, Some("400 B.C.".to_string()));
}

#[test]
fn qualifiers_need_rendering_only_when_present() {
    let none = Qualifiers {
        audience: None,
        epistemic: None,
        context: None,
        discusses: None,
        disclosure: None,
        retraction: None,
    };
    assert!(!none.needs_to_render());
    assert_eq!(none.render(), "");
    let some = Qualifiers { context: Some("background".to_string()), ..none.clone() };
    assert!(some.needs_to_render());
    assert_eq!(some.render(), "<p class=\"qualifier\"><b>A bit of context:</b> background</p>");
    let retracted = Qualifiers {
        retraction: Some(serial::Retraction { url: "/new".to_string(), title: "New".to_string() }),
        ..none
    };
    assert!(retracted.needs_to_render());
    assert_eq!(
        retracted.render(),
        "<p><strong>Caveat lector:</strong> I have since retracted this (see <a href=\"/new\">New</a>), but as a matter of policy I leave even work I have retracted publicly available as a matter of record.<p>"
    );
}

#[test]
fn qualifiers_render_in_order() {
    let all = Qualifiers {
        audience: Some("A".to_string()),
        epistemic: Some("E".to_string()),
        context: None,
        discusses: Some("D".to_string()),
        disclosure: Some("F".to_string()),
        retraction: None,
    };
    assert_eq!(
        all.render(),
        "<p class=\"qualifier\"><b><a href=\"https://v4.chriskrycho.com/2018/assumed-audiences.html\">Assumed Audience</a>:</b> A</p>\
<p class=\"qualifier\"><b><a href='https://v5.chriskrycho.com/journal/epistemic-status/'>Epistemic status</a>:</b> E</p>\
<p class=\"qualifier\"><b>Heads up:</b> this post directly discusses D</p>\
<p class=\"qualifier\"><b>Full disclosure:</b> F</p>"
    );
}

#[test]
fn rendered_plain_is_the_source() {
    let rendered = Rendered { source: "*hi*".to_string(), html: "<em>hi</em>".to_string() };
    assert_eq!(rendered.plain(), "*hi*");
}

#[test]
fn metadata_resolves_with_defaults() {
    let (metadata, date) = Metadata::resolved(
        header(),
        "content/notes/first.md",
        nothing_inherited(),
        "base.jinja".to_string(),
        nothing_rendered(),
    )
    .unwrap();
    assert_eq!(metadata.title, "A Title");
    assert_eq!(metadata.slug, Slug::FromPath("content/notes/first".to_string()));
    assert_eq!(metadata.layout, "base.jinja");
    assert_eq!(metadata.tags, Vec::<String>::new());
    assert!(!metadata.qualifiers.needs_to_render());
    assert_eq!(metadata.subtitle, None);
    assert_eq!(date, None);
}

#[test]
fn metadata_merges_item_and_cascade() {
    let mut item = header();
    item.permalink = Some("/about/me/".to_string());
    item.subtitle = Some("sub".to_string());
    item.tags = Some(strings(&["a"]));
    item.date = Some(moment(2024, 2, 29));
    item.qualifiers = Some(serial::Qualifiers {
        audience: Some("everyone".to_string()),
        epistemic: None,
        context: None,
        discusses: strings(&["x", "y"]),
        disclosure: None,
        retraction: None,
    });
    item.updated = vec![serial::Update { at: Some(moment(2024, 3, 1)), changes: Some("typo".to_string()) }];
    let mut cascade = nothing_inherited();
    cascade.layout = Some("post.jinja".to_string());
    cascade.thanks = Some("friends".to_string());
    cascade.tags = strings(&["b", "c"]);
    cascade.image = Some("https://example.com/i.png".to_string());
    cascade.qualifiers = Some(serial::Qualifiers {
        audience: Some("nobody".to_string()),
        epistemic: Some("sure".to_string()),
        context: None,
        discusses: strings(&["z"]),
        disclosure: None,
        retraction: None,
    });
    cascade.subscribe = Some(serial::Subscribe { atom: Some("/feed.xml".to_string()), json: None });
    let texts = Metadata::texts_to_render(&item, &cascade);
    assert_eq!(texts.subtitle, Some("sub".to_string()));
    assert_eq!(texts.summary, None);
    assert_eq!(texts.thanks, Some("friends".to_string()));
    let rendered = RenderedTexts {
        subtitle: Ok("<p>sub</p>".to_string()),
        summary: Err("never looked at".to_string()),
        thanks: Ok("<p>friends</p>".to_string()),
    };
    let (metadata, date) =
        Metadata::resolved(item, "content/about.md", cascade, "base.jinja".to_string(), rendered)
            .unwrap();
    assert_eq!(metadata.slug, Slug::Permalink("about/me".to_string()));
    assert_eq!(metadata.layout, "post.jinja");
    assert_eq!(
        metadata.subtitle,
        Some(Rendered { source: "sub".to_string(), html: "<p>sub</p>".to_string() })
    );
    assert_eq!(metadata.summary, None);
    assert_eq!(
        metadata.thanks,
        Some(Rendered { source: "friends".to_string(), html: "<p>friends</p>".to_string() })
    );
    assert_eq!(metadata.tags, strings(&["a", "b", "c"]));
    assert_eq!(metadata.qualifiers.audience, Some("everyone".to_string()));
    assert_eq!(metadata.qualifiers.epistemic, Some("sure".to_string()));
    assert_eq!(
        metadata.qualifiers.discusses,
        Some("<b>Heads up:</b> this post directly discusses x, y, and z".to_string())
    );
    assert_eq!(metadata.image.unwrap().url(), "https://example.com/i.png");
    assert_eq!(metadata.subscribe.unwrap().atom, Some("/feed.xml".to_string()));
    assert_eq!(metadata.updated.len(), 1);
    assert_eq!(metadata.updated[0].at, moment(2024, 3, 1));
    assert_eq!(metadata.updated[0].changes, Some("typo".to_string()));
    assert_eq!(date, Some(moment(2024, 2, 29)));
}

#[test]
fn metadata_title_comes_from_the_work() {
    let mut item = header();
    item.work = Some(work(Some("Sonata"), Some("2020"), Some("10'"), Some("piano")));
    let (metadata, _) = Metadata::resolved(
        item,
        "content/music/sonata.md",
        nothing_inherited(),
        "base.jinja".to_string(),
        nothing_rendered(),
    )
    .unwrap();
    assert_eq!(metadata.title, "Sonata");
    assert_eq!(metadata.work.unwrap().instrumentation, "piano");
}

#[test]
fn metadata_errors_come_in_order() {
    let mut item = header();
    item.title = None;
    item.subtitle = Some("s".to_string());
    item.updated = vec![serial::Update { at: None, changes: None }];
    let failing = || RenderedTexts {
        subtitle: Err("subtitle broke".to_string()),
        summary: Ok(String::new()),
        thanks: Ok(String::new()),
    };
    assert_eq!(
        Metadata::resolved(item.clone(), "", nothing_inherited(), "b".to_string(), failing()),
        Err(Error::BadPermalink { reason: "Missing parent for file at ".to_string() })
    );
    assert_eq!(
        Metadata::resolved(item.clone(), "c/a.md", nothing_inherited(), "b".to_string(), failing()),
        Err(Error::MissingRequiredField { name: "title".to_string() })
    );
    item.title = Some("t".to_string());
    assert_eq!(
        Metadata::resolved(item.clone(), "c/a.md", nothing_inherited(), "b".to_string(), failing()),
        Err(Error::Markdown { source: "subtitle broke".to_string() })
    );
    assert_eq!(
        Metadata::resolved(
            item.clone(),
            "c/a.md",
            nothing_inherited(),
            "b".to_string(),
            nothing_rendered()
        ),
        Err(Error::BadField { source: FieldError::Update })
    );
    item.work = Some(work(None, None, None, None));
    assert_eq!(
        Metadata::resolved(item, "c/a.md", nothing_inherited(), "b".to_string(), failing()),
        Err(Error::BadField { source: FieldError::Work(WorkError::Title, WorkMissingFrom::Item) })
    );
}

#[test]
fn review_reads_rating_and_summary() {
    let review = serial::Review { rating: serial::Rating::WithQualifications, summary: "Good, but.".to_string() };
    assert_eq!(review.describe(), "Recommended with qualifications: Good, but.");
    assert_eq!(serial::Rating::NotRecommended.describe(), "Not recommended");
    assert_eq!(serial::Rating::Recommended.describe(), "Recommended");
    assert_eq!(serial::Rating::Required.describe(), "Required");
}

#[test]
fn the_nearest_data_file_speaks_for_a_source() {
    let dirs = strings(&["/c", "/c/notes/2024", "/c/notes", "/c/essays", "/c/not"]);
    assert_eq!(nearest_data_dir(&dirs, "/c/notes/2024/a.md"), Some(1));
    assert_eq!(nearest_data_dir(&dirs, "/c/notes/2023/a.md"), Some(2));
    assert_eq!(nearest_data_dir(&dirs, "/c/essays/a.md"), Some(3));
    assert_eq!(nearest_data_dir(&dirs, "/c/a.md"), Some(0));
    assert_eq!(nearest_data_dir(&dirs, "/c/nothing/a.md"), Some(0));
    assert_eq!(nearest_data_dir(&dirs, "/elsewhere/a.md"), None);
    assert_eq!(nearest_data_dir(&Vec::new(), "/c/a.md"), None);
    let reversed = strings(&["/c/notes/2024", "/c/notes", "/c"]);
    assert_eq!(nearest_data_dir(&reversed, "/c/notes/2024/a.md"), Some(0));
    assert_eq!(nearest_data_dir(&reversed, "/c/notes/a.md"), Some(1));
}

#[test]
fn books_are_the_same_where_everything_said_of_them_is() {
    let book = |title: &str, cover: Option<&str>, review: Option<&str>| {
        Book::from(serial::Book {
            title: Some(title.to_string()),
            author: Some("Author".to_string()),
            year: None,
            editors: None,
            translators: None,
            cover: cover.map(String::from),
            link: None,
            review: review.map(|summary| serial::Review {
                rating: serial::Rating::Recommended,
                summary: summary.to_string(),
            }),
        })
    };
    assert!(book("A", None, None).same(&book("A", None, None)));
    assert!(book("A", Some("c.png"), Some("good")).same(&book("A", Some("c.png"), Some("good"))));
    assert!(!book("A", None, None).same(&book("B", None, None)));
    assert!(!book("A", Some("c.png"), None).same(&book("A", None, None)));
    assert!(!book("A", Some("c.png"), None).same(&book("A", Some("d.png"), None)));
    assert!(!book("A", None, Some("good")).same(&book("A", None, Some("bad"))));
    assert!(same_option(&None, &None));
    assert!(same_option(&Some("x".to_string()), &Some("x".to_string())));
    assert!(!same_option(&Some("x".to_string()), &None));
    assert!(!same_option(&Some("x".to_string()), &Some("y".to_string())));
}
