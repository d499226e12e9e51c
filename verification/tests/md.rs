use lx::md::{convert, metadata_table, yaml_to_html, Document, Error, Include, InvalidKind, Yaml};

const OPENING: &str = "<html>\n          <head>\n              <link rel=\"stylesheet\" href=\"/light.css\" media=\"(prefers-color-scheme: light)\" />\n              <link rel=\"stylesheet\" href=\"/dark.css\" media=\"(prefers-color-scheme: dark)\" />\n          </head>\n          <body>";

fn text(value: &str) -> Yaml {
    Yaml::String(value.to_string())
}

fn table() -> Document {
    Document {
        value: Yaml::Mapping(vec![
            (text("title"), text("Hello")),
            (text("tags"), Yaml::Sequence(vec![text("a"), Yaml::Number("2".to_string()), Yaml::Null])),
            (text("draft"), Yaml::Bool(false)),
        ]),
        debug: "Mapping {..}".to_string(),
    }
}

fn html_of(value: &Yaml) -> String {
    let mut output = String::from(">");
    yaml_to_html(value, &mut output);
    output
}

#[test]
fn writing_appends() {
    let mut output = String::from("a");
    lx::md::write("b", &mut output);
    lx::md::write("", &mut output);
    lx::md::write("c", &mut output);
    assert_eq!(output, "abc");
}

#[test]
fn scalars_are_their_text() {
    assert_eq!(html_of(&Yaml::Null), ">(null)");
    assert_eq!(html_of(&Yaml::Bool(true)), ">true");
    assert_eq!(html_of(&Yaml::Bool(false)), ">false");
    assert_eq!(html_of(&Yaml::Number("1.5".to_string())), ">1.5");
    assert_eq!(html_of(&text("hi")), ">hi");
    assert_eq!(html_of(&Yaml::Tagged("!tag x".to_string())), ">!tag x");
}

#[test]
fn sequences_are_lists_and_mappings_are_tables() {
    assert_eq!(html_of(&Yaml::Sequence(Vec::new())), "><ul></ul>");
    assert_eq!(html_of(&Yaml::Sequence(vec![text("a"), text("b")])), "><ul>ab</ul>");
    assert_eq!(html_of(&Yaml::Mapping(Vec::new())), "><table></table>");
    assert_eq!(
        html_of(&table().value),
        "><table><thead><tr><th>title</th><th>tags</th><th>draft</th></tr></thead>\
<tbody><tr><td>Hello</td><td><ul>a2(null)</ul></td><td>false</td></tr></tbody></table>"
    );
    let nested = Yaml::Mapping(vec![(text("k"), Yaml::Mapping(vec![(text("i"), text("v"))]))]);
    assert_eq!(
        html_of(&nested),
        "><table><thead><tr><th>k</th></tr></thead><tbody><tr><td><table><thead><tr><th>i</th></tr></thead><tbody><tr><td>v</td></tr></tbody></table></td></tr></tbody></table>"
    );
}

#[test]
fn only_a_mapping_is_a_table() {
    let document = |value: Yaml| Document { value, debug: "DEBUG".to_string() };
    assert!(matches!(metadata_table(table()), Ok(Yaml::Mapping(entries)) if entries.len() == 3));
    assert!(matches!(
        metadata_table(document(Yaml::Null)),
        Err(Error::CouldNotRenderYamlMetadata { kind: InvalidKind::Null, src }) if src == "null"
    ));
    assert!(matches!(
        metadata_table(document(Yaml::Bool(true))),
        Err(Error::CouldNotRenderYamlMetadata { kind: InvalidKind::Bool, src }) if src == "true"
    ));
    assert!(matches!(
        metadata_table(document(Yaml::Number("7".to_string()))),
        Err(Error::CouldNotRenderYamlMetadata { kind: InvalidKind::Number, src }) if src == "7"
    ));
    assert!(matches!(
        metadata_table(document(text("hi"))),
        Err(Error::CouldNotRenderYamlMetadata { kind: InvalidKind::String, src }) if src == "hi"
    ));
    assert!(matches!(
        metadata_table(document(Yaml::Sequence(Vec::new()))),
        Err(Error::CouldNotRenderYamlMetadata { kind: InvalidKind::Sequence, src }) if src == "DEBUG"
    ));
    assert!(matches!(
        metadata_table(document(Yaml::Tagged("!x".to_string()))),
        Err(Error::CouldNotRenderYamlMetadata { kind: InvalidKind::Tagged, src }) if src == "DEBUG"
    ));
}

#[test]
fn converting_puts_the_pieces_together() {
    let bare = Include { metadata: false, wrapping_html: false };
    assert!(matches!(convert("<p>hi</p>", None, bare), Ok(output) if output == "<p>hi</p>"));
    assert!(matches!(convert("<p>hi</p>", Some(Ok(table())), bare), Ok(output) if output == "<p>hi</p>"));
    assert!(matches!(
        convert("<p>hi</p>", Some(Err("bad yaml".to_string())), bare),
        Ok(output) if output == "<p>hi</p>"
    ));
    let wrapped = Include { metadata: false, wrapping_html: true };
    assert!(matches!(
        convert("<p>hi</p>", None, wrapped),
        Ok(output) if output == format!("{OPENING}<p>hi</p></body></html>")
    ));
    let with_metadata = Include { metadata: true, wrapping_html: false };
    let small = Document { value: Yaml::Mapping(vec![(text("a"), text("b"))]), debug: String::new() };
    assert!(matches!(
        convert("<p>hi</p>", Some(Ok(small)), with_metadata),
        Ok(output) if output == "<table><thead><tr><th>a</th></tr></thead><tbody><tr><td>b</td></tr></tbody></table><p>hi</p>"
    ));
    assert!(matches!(convert("<p>hi</p>", None, with_metadata), Ok(output) if output == "<p>hi</p>"));
    let everything = Include { metadata: true, wrapping_html: true };
    let small = Document { value: Yaml::Mapping(Vec::new()), debug: String::new() };
    assert!(matches!(
        convert("x", Some(Ok(small)), everything),
        Ok(output) if output == format!("{OPENING}<table></table>x</body></html>")
    ));
}

#[test]
fn converting_fails_on_unusable_metadata() {
    let with_metadata = Include { metadata: true, wrapping_html: true };
    assert!(matches!(
        convert("x", Some(Err("bad yaml".to_string())), with_metadata),
        Err(Error::CouldNotParseYaml { source }) if source == "bad yaml"
    ));
    let list = Document { value: Yaml::Sequence(vec![text("a")]), debug: "Sequence [..]".to_string() };
    assert!(matches!(
        convert("x", Some(Ok(list)), with_metadata),
        Err(Error::CouldNotRenderYamlMetadata { kind: InvalidKind::Sequence, src }) if src == "Sequence [..]"
    ));
}

#[test]
fn md_errors_read_well() {
    let s = |t: &str| t.to_string();
    assert_eq!(Error::ReadBuffer { source: s("x") }.describe(), "could not read buffer");
    assert_eq!(Error::WriteBuffer { source: s("x") }.describe(), "could not write to buffer");
    assert_eq!(Error::CouldNotParseYaml { source: s("bad yaml") }.describe(), "bad yaml");
    assert_eq!(Error::Render { source: s("bad markdown") }.describe(), "bad markdown");
    assert_eq!(
        Error::CouldNotRenderYamlMetadata { kind: InvalidKind::Null, src: s("null") }.describe(),
        "Could not render YAML metadata as an HTML table. Instead of a table it was: null"
    );
}
