use lx::config::{Author, Config, Error, NavItem, Title, Written};
use lx::style::{self, OutputMode};
use std::collections::HashMap;

fn written(output: &str) -> Written {
    Written {
        url: "https://example.com".to_string(),
        repo: "https://example.com/repo".to_string(),
        title: Title { normal: "Site".to_string(), stylized: Some("S·I·T·E".to_string()) },
        subtitle: Some("sub".to_string()),
        description: "A site".to_string(),
        author: Author {
            name: "Someone".to_string(),
            email: "someone@example.com".to_string(),
            links: HashMap::new(),
        },
        output: output.to_string(),
        image: "https://example.com/site.png".to_string(),
        nav: vec![
            NavItem::Page { title: "Home".to_string(), path: "/".to_string() },
            NavItem::Separator,
        ],
    }
}

#[test]
fn a_title_is_shown_stylized_where_it_can_be() {
    assert_eq!(
        Title { normal: "Site".to_string(), stylized: Some("S·I·T·E".to_string()) }.describe(),
        "S·I·T·E"
    );
    assert_eq!(Title { normal: "Site".to_string(), stylized: None }.describe(), "Site");
}

#[test]
fn navigation_entries_as_html() {
    assert_eq!(NavItem::Separator.render(), "<hr>");
    assert_eq!(
        NavItem::Page { title: "About".to_string(), path: "/about/".to_string() }.render(),
        "<a href=\"/about/\">About</a>"
    );
}

#[test]
fn the_output_is_counted_from_the_configuration_file() {
    let config = Config::from_written("/sites/mine/config.lx.yaml", written("public")).unwrap();
    assert_eq!(config.output, "/sites/mine/public");
    assert_eq!(config.title, "S·I·T·E");
    assert_eq!(config.url, "https://example.com");
    assert_eq!(config.subtitle, Some("sub".to_string()));
    assert_eq!(config.image.url(), "https://example.com/site.png");
    assert_eq!(config.nav.len(), 2);
    assert_eq!(config.author.name, "Someone");
    let config = Config::from_written("/sites/mine/config.lx.yaml", written("../out/./www")).unwrap();
    assert_eq!(config.output, "/sites/out/www");
    let config = Config::from_written("config.lx.yaml", written("public")).unwrap();
    assert_eq!(config.output, "public");
}

#[test]
fn a_configuration_file_without_a_directory_has_no_configuration() {
    assert!(Config::from_file_contents("", written("public")).is_none());
    assert!(Config::from_file_contents("/", written("public")).is_none());
    let config = Config::from_file_contents("/site/config.lx.yaml", written("public")).unwrap().unwrap();
    assert_eq!(config.output, "/site/public");
}

#[test]
fn config_errors_read_well() {
    let s = |t: &str| t.to_string();
    assert_eq!(
        Error::BadFile { path: s("c.yaml"), source: s("gone") }.describe(),
        "could not read file 'c.yaml'"
    );
    assert_eq!(
        Error::YamlParsing { path: s("c.yaml"), source: s("bad") }.describe(),
        "could not parse c.yaml as YAML"
    );
    assert_eq!(
        Error::NonUtf8Path { path: s("c.yaml") }.describe(),
        "could not write the path 'c.yaml' as UTF-8"
    );
}

#[test]
fn style_sheets_are_made_small_only_for_publishing() {
    assert_eq!(OutputMode::for_minify(true), OutputMode::Prod);
    assert_eq!(OutputMode::for_minify(false), OutputMode::Dev);
    assert!(OutputMode::Prod.minify());
    assert!(!OutputMode::Dev.minify());
}

#[test]
fn style_errors_read_well() {
    let s = |t: &str| t.to_string();
    assert_eq!(style::Error::Bundle(s("x")).describe(), "Could not bundle CSS. Cause:\nx");
    assert_eq!(style::Error::Minify(s("x")).describe(), "Could not minify CSS. Cause:\nx");
    assert_eq!(style::Error::EmitCss(s("x")).describe(), "Could not emit CSS. Cause:\nx");
    assert_eq!(style::Error::IO(s("denied")).describe(), "denied");
}
