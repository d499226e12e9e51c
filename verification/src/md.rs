//! Markdown turned into a page of HTML by itself, with its metadata shown
//! as a table where that is asked for.

use vstd::prelude::*;
use vstd::string::*;

verus! {

/// What goes into the output besides the rendered text.
#[derive(Debug, Clone, Copy, PartialEq, Eq, Structural)]
pub struct Include {
    pub metadata: bool,
    pub wrapping_html: bool,
}

/// The kinds of metadata that cannot be shown as a table.
#[derive(Debug, Clone, Copy, PartialEq, Eq, Structural)]
pub enum InvalidKind {
    Null,
    Bool,
    Number,
    String,
    Sequence,
    Tagged,
}

/// A value of YAML. A number is kept as it is written, and a tagged value
/// as it is shown when debugging.
#[derive(Debug)]
pub enum Yaml {
    Null,
    Bool(bool),
    Number(String),
    String(String),
    Sequence(Vec<Yaml>),
    Mapping(Vec<(Yaml, Yaml)>),
    Tagged(String),
}

/// The metadata of a document: the value, and how the value is shown when
/// debugging.
#[derive(Debug)]
pub struct Document {
    pub value: Yaml,
    pub debug: String,
}

/// Why a document could not be converted.
#[derive(Debug)]
pub enum Error {
    ReadBuffer { source: String },
    WriteBuffer { source: String },
    CouldNotParseYaml { source: String },
    Render { source: String },
    CouldNotRenderYamlMetadata { kind: InvalidKind, src: String },
}

pub open spec fn error_text(error: Error) -> Seq<char> {
    match error {
        Error::ReadBuffer { source } => "could not read buffer"@,
        Error::WriteBuffer { source } => "could not write to buffer"@,
        Error::CouldNotParseYaml { source } => source@,
        Error::Render { source } => source@,
        Error::CouldNotRenderYamlMetadata { kind, src } =>
            "Could not render YAML metadata as an HTML table. Instead of a table it was: "@
            + src@,
    }
}

impl Error {
    /// Says why the document could not be converted.
    pub fn describe(&self) -> (text: String)
        ensures
            text@ == error_text(*self),
    {
        match self {
            Error::ReadBuffer { source: _ } => String::from_str("could not read buffer"),
            Error::WriteBuffer { source: _ } => String::from_str("could not write to buffer"),
            Error::CouldNotParseYaml { source } => source.clone(),
            Error::Render { source } => source.clone(),
            Error::CouldNotRenderYamlMetadata { kind: _, src } => {
                let mut text = String::from_str(
                    "Could not render YAML metadata as an HTML table. Instead of a table it was: ",
                );
                text.append(src.as_str());
                text
            },
        }
    }
}

/// Adds a piece of text to the output.
pub fn write(src: &str, dest: &mut String)
    ensures
        final(dest)@ == old(dest)@ + src@,
{
    dest.append(src);
}

/// A value of YAML as HTML. A scalar is its text, a sequence a list of its
/// items, and a mapping a table with one column for each entry: the keys
/// in the head, the values in the one row of the body.
pub open spec fn yaml_html(value: Yaml) -> Seq<char>
    decreases value, 0nat,
{
    match value {
        Yaml::Null => "(null)"@,
        Yaml::Bool(flag) => if flag {
            "true"@
        } else {
            "false"@
        },
        Yaml::Number(number) => number@,
        Yaml::String(text) => text@,
        Yaml::Sequence(values) => "<ul>"@ + items_html(values@) + "</ul>"@,
        Yaml::Mapping(entries) => "<table>"@ + (if entries@.len() > 0 {
            "<thead><tr>"@ + keys_html(entries@) + "</tr></thead>"@ + "<tbody><tr>"@
                + values_html(entries@) + "</tr></tbody>"@
        } else {
            Seq::empty()
        }) + "</table>"@,
        Yaml::Tagged(shown) => shown@,
    }
}

/// The items of a sequence as HTML, one after another.
pub open spec fn items_html(values: Seq<Yaml>) -> Seq<char>
    decreases values, values.len(),
{
    if values.len() == 0 {
        Seq::empty()
    } else {
        items_html(values.drop_last()) + yaml_html(values.last())
    }
}

/// The keys of a mapping as the cells of the head of a table.
pub open spec fn keys_html(entries: Seq<(Yaml, Yaml)>) -> Seq<char>
    decreases entries, entries.len(),
{
    if entries.len() == 0 {
        Seq::empty()
    } else {
        keys_html(entries.drop_last()) + "<th>"@ + yaml_html(entries.last().0) + "</th>"@
    }
}

/// The values of a mapping as the cells of a row of a table.
pub open spec fn values_html(entries: Seq<(Yaml, Yaml)>) -> Seq<char>
    decreases entries, entries.len(),
{
    if entries.len() == 0 {
        Seq::empty()
    } else {
        values_html(entries.drop_last()) + "<td>"@ + yaml_html(entries.last().1) + "</td>"@
    }
}

/// Writes a value of YAML as HTML.
pub fn yaml_to_html(source: &Yaml, output: &mut String)
    ensures
        final(output)@ == old(output)@ + yaml_html(*source),
    decreases source,
{
    let ghost start = output@;
    match source {
        Yaml::Null => write("(null)", output),
        Yaml::Bool(flag) => {
            if *flag {
                write("true", output)
            } else {
                write("false", output)
            }
        },
        Yaml::Number(number) => write(number.as_str(), output),
        Yaml::String(text) => write(text.as_str(), output),
        Yaml::Sequence(values) => {
            write("<ul>", output);
            let mut i: usize = 0;
            assert(values@.take(0) =~= Seq::empty());
            assert(output@ =~= start + "<ul>"@ + items_html(values@.take(0)));
            while i < values.len()
                invariant
                    i <= values.len(),
                    *source == Yaml::Sequence(*values),
                    output@ == start + "<ul>"@ + items_html(values@.take(i as int)),
                decreases values.len() - i,
            {
                assert((*source)->Sequence_0 == *values);
                assert(decreases_to!(*source => (*source)->Sequence_0));
                assert(decreases_to!(*values => values[i as int]));
                yaml_to_html(&values[i], output);
                proof {
                    assert(values@.take(i + 1).drop_last() =~= values@.take(i as int));
                    assert(values@.take(i + 1).last() == values@[i as int]);
                    assert(output@ =~= start + "<ul>"@ + items_html(values@.take(i + 1)));
                }
                i += 1;
            }
            assert(values@.take(i as int) =~= values@);
            write("</ul>", output);
            assert(output@ =~= start + yaml_html(*source));
        },
        Yaml::Mapping(entries) => {
            write("<table>", output);
            if entries.len() > 0 {
                write("<thead><tr>", output);
                let ghost head = output@;
                let mut i: usize = 0;
                assert(entries@.take(0) =~= Seq::empty());
                assert(output@ =~= head + keys_html(entries@.take(0)));
                while i < entries.len()
                    invariant
                        i <= entries.len(),
                        *source == Yaml::Mapping(*entries),
                        output@ == head + keys_html(entries@.take(i as int)),
                    decreases entries.len() - i,
                {
                    write("<th>", output);
                    assert((*source)->Mapping_0 == *entries);
                    assert(decreases_to!(*source => (*source)->Mapping_0));
                    assert(decreases_to!(*entries => entries[i as int]));
                    assert(decreases_to!(entries[i as int] => entries[i as int].0));
                    yaml_to_html(&entries[i].0, output);
                    write("</th>", output);
                    proof {
                        assert(entries@.take(i + 1).drop_last() =~= entries@.take(i as int));
                        assert(entries@.take(i + 1).last() == entries@[i as int]);
                        assert(output@ =~= head + keys_html(entries@.take(i + 1)));
                    }
                    i += 1;
                }
                assert(entries@.take(i as int) =~= entries@);
                write("</tr></thead>", output);
                write("<tbody><tr>", output);
                let ghost body = output@;
                let mut j: usize = 0;
                assert(output@ =~= body + values_html(entries@.take(0)));
                while j < entries.len()
                    invariant
                        j <= entries.len(),
                        *source == Yaml::Mapping(*entries),
                        output@ == body + values_html(entries@.take(j as int)),
                    decreases entries.len() - j,
                {
                    write("<td>", output);
                    assert((*source)->Mapping_0 == *entries);
                    assert(decreases_to!(*source => (*source)->Mapping_0));
                    assert(decreases_to!(*entries => entries[j as int]));
                    assert(decreases_to!(entries[j as int] => entries[j as int].1));
                    yaml_to_html(&entries[j].1, output);
                    write("</td>", output);
                    proof {
                        assert(entries@.take(j + 1).drop_last() =~= entries@.take(j as int));
                        assert(entries@.take(j + 1).last() == entries@[j as int]);
                        assert(output@ =~= body + values_html(entries@.take(j + 1)));
                    }
                    j += 1;
                }
                assert(entries@.take(j as int) =~= entries@);
                write("</tr></tbody>", output);
            }
            write("</table>", output);
            assert(output@ =~= start + yaml_html(*source));
        },
        Yaml::Tagged(shown) => write(shown.as_str(), output),
    }
}

/// What is wrong with metadata that is no mapping: its kind, and how it
/// reads. Metadata that is a mapping is in order.
pub open spec fn not_a_table(document: Document) -> Option<(InvalidKind, Seq<char>)> {
    match document.value {
        Yaml::Mapping(_) => None,
        Yaml::Null => Some((InvalidKind::Null, "null"@)),
        Yaml::Bool(flag) => Some(
            (InvalidKind::Bool, if flag {
                "true"@
            } else {
                "false"@
            }),
        ),
        Yaml::Number(number) => Some((InvalidKind::Number, number@)),
        Yaml::String(text) => Some((InvalidKind::String, text@)),
        Yaml::Sequence(_) => Some((InvalidKind::Sequence, document.debug@)),
        Yaml::Tagged(_) => Some((InvalidKind::Tagged, document.debug@)),
    }
}

/// Takes metadata for a table: only a mapping can be shown as one.
pub fn metadata_table(document: Document) -> (result: Result<Yaml, Error>)
    ensures
        match not_a_table(document) {
            None => result == Ok::<Yaml, Error>(document.value),
            Some((wrong, shown)) => result matches Err(
                Error::CouldNotRenderYamlMetadata { kind, src },
            ) && kind == wrong && src@ == shown,
        },
{
    let Document { value, debug } = document;
    match value {
        Yaml::Mapping(entries) => Ok(Yaml::Mapping(entries)),
        Yaml::Null => Err(
            Error::CouldNotRenderYamlMetadata {
                kind: InvalidKind::Null,
                src: String::from_str("null"),
            },
        ),
        Yaml::Bool(flag) => Err(
            Error::CouldNotRenderYamlMetadata {
                kind: InvalidKind::Bool,
                src: if flag {
                    String::from_str("true")
                } else {
                    String::from_str("false")
                },
            },
        ),
        Yaml::Number(number) => Err(
            Error::CouldNotRenderYamlMetadata { kind: InvalidKind::Number, src: number },
        ),
        Yaml::String(text) => Err(
            Error::CouldNotRenderYamlMetadata { kind: InvalidKind::String, src: text },
        ),
        Yaml::Sequence(_) => Err(
            Error::CouldNotRenderYamlMetadata { kind: InvalidKind::Sequence, src: debug },
        ),
        Yaml::Tagged(_) => Err(
            Error::CouldNotRenderYamlMetadata { kind: InvalidKind::Tagged, src: debug },
        ),
    }
}

/// What stands before the rendered text in a whole page of HTML.
pub open spec fn page_opening() -> Seq<char> {
    "<html>\n          <head>\n              <link rel=\"stylesheet\" href=\"/light.css\" media=\"(prefers-color-scheme: light)\" />\n              <link rel=\"stylesheet\" href=\"/dark.css\" media=\"(prefers-color-scheme: dark)\" />\n          </head>\n          <body>"@
}

/// What stands behind the rendered text in a whole page of HTML.
pub open spec fn page_closing() -> Seq<char> {
    "</body></html>"@
}

/// The metadata that is shown: what the document has, where metadata is
/// asked for.
pub open spec fn shown_metadata(
    metadata: Option<Result<Document, String>>,
    wanted: Include,
) -> Option<Result<Document, String>> {
    if wanted.metadata {
        metadata
    } else {
        None
    }
}

/// Whether this is what converting a document gives. The output is the
/// rendered text; before it stands the metadata as a table, where that is
/// asked for and there is any; and around both stands a page of HTML,
/// where that is asked for. Metadata that cannot be read, or that is no
/// mapping, is an error where metadata is asked for.
pub open spec fn converted(
    html: Seq<char>,
    metadata: Option<Result<Document, String>>,
    wanted: Include,
    result: Result<String, Error>,
) -> bool {
    let opening = if wanted.wrapping_html {
        page_opening()
    } else {
        Seq::empty()
    };
    let closing = if wanted.wrapping_html {
        page_closing()
    } else {
        Seq::empty()
    };
    match shown_metadata(metadata, wanted) {
        None => result is Ok && result->Ok_0@ == opening + html + closing,
        Some(Err(source)) => result == Err::<String, Error>(Error::CouldNotParseYaml { source }),
        Some(Ok(document)) => match not_a_table(document) {
            Some((wrong, shown)) => result matches Err(
                Error::CouldNotRenderYamlMetadata { kind, src },
            ) && kind == wrong && src@ == shown,
            None => result is Ok && result->Ok_0@ == opening + yaml_html(document.value) + html
                + closing,
        },
    }
}

/// Puts together the output for a rendered document and its metadata.
pub fn convert(html: &str, metadata: Option<Result<Document, String>>, wanted: Include) -> (result:
    Result<String, Error>)
    ensures
        converted(html@, metadata, wanted, result),
{
    let mut output = String::new();
    if wanted.wrapping_html {
        write(
            "<html>\n          <head>\n              <link rel=\"stylesheet\" href=\"/light.css\" media=\"(prefers-color-scheme: light)\" />\n              <link rel=\"stylesheet\" href=\"/dark.css\" media=\"(prefers-color-scheme: dark)\" />\n          </head>\n          <body>",
            &mut output,
        );
    }
    let ghost opening = output@;
    if wanted.metadata {
        match metadata {
            Some(Ok(document)) => {
                let table = match metadata_table(document) {
                    Ok(table) => table,
                    Err(error) => {
                        return Err(error);
                    },
                };
                yaml_to_html(&table, &mut output);
            },
            Some(Err(source)) => {
                return Err(Error::CouldNotParseYaml { source });
            },
            None => {},
        }
    }
    let ghost table = output@;
    write(html, &mut output);
    if wanted.wrapping_html {
        write("</body></html>", &mut output);
    }
    proof {
        if wanted.wrapping_html {
            assert(output@ =~= table + html@ + page_closing());
        } else {
            assert(output@ =~= table + html@ + Seq::<char>::empty());
        }
        assert(opening =~= if wanted.wrapping_html {
            page_opening()
        } else {
            Seq::empty()
        });
    }
    Ok(output)
}

} // verus!
