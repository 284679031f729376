//! The output sink as a buffer of whole lines, and the summary of a run.

use crate::cli_types::{pretty_text, value_to_pretty, OutputFormat};
use crate::error::{decimal, decimal_text, serialization_error, AstgenError};
use crate::parsing::{
    built_value, json_rendering, json_text, to_json_value, JsonDoc, JsonField, JsonValue,
};
use vstd::prelude::*;
use vstd::string::*;

verus! {

/// The lines written one after the other, each closed by a line feed.
pub open spec fn joined_lines(lines: Seq<Seq<char>>) -> Seq<char>
    decreases lines.len(),
{
    if lines.len() == 0 {
        Seq::<char>::empty()
    } else {
        joined_lines(lines.drop_last()) + lines.last() + "\n"@
    }
}

/// Collects the records of a run, one line each, until they are handed to
/// the output. A record is taken in whole or not at all.
pub struct OutputWriter {
    pending: Vec<String>,
}

impl OutputWriter {
    /// The records that wait to be written, oldest first.
    pub closed spec fn lines(&self) -> Seq<Seq<char>> {
        Seq::new(self.pending@.len(), |i: int| self.pending@[i]@)
    }

    /// A writer without records.
    pub fn new() -> (writer: Self)
        ensures
            writer.lines() == Seq::<Seq<char>>::empty(),
    {
        let writer = OutputWriter { pending: Vec::new() };
        assert(writer.lines() =~= Seq::<Seq<char>>::empty());
        writer
    }

    /// Takes one record behind those that wait.
    pub fn write_result(&mut self, content: &str)
        ensures
            final(self).lines() == old(self).lines().push(content@),
    {
        self.pending.push(String::from_str(content));
        assert(self.lines() =~= old(self).lines().push(content@));
    }

    /// Hands out the text of all waiting records, each closed by a line
    /// feed, and forgets them.
    pub fn flush(&mut self) -> (text: String)
        ensures
            text@ == joined_lines(old(self).lines()),
            final(self).lines() == Seq::<Seq<char>>::empty(),
    {
        let mut text = String::new();
        let mut i: usize = 0;
        while i < self.pending.len()
            invariant
                i <= self.pending.len(),
                *self == *old(self),
                text@ == joined_lines(self.lines().subrange(0, i as int)),
            decreases self.pending.len() - i,
        {
            proof {
                let upto = self.lines().subrange(0, i + 1);
                assert(upto.drop_last() =~= self.lines().subrange(0, i as int));
                assert(upto.last() == self.pending@[i as int]@);
            }
            text.append(self.pending[i].as_str());
            text.append("\n");
            i += 1;
        }
        assert(self.lines().subrange(0, i as int) =~= self.lines());
        self.pending = Vec::new();
        assert(self.lines() =~= Seq::<Seq<char>>::empty());
        text
    }
}

/// The indented text of a JSON value: what `serde_json::to_string_pretty`
/// writes for the `serde_json::Value` built from it.
pub open spec fn json_pretty_rendering(value: JsonValue) -> Seq<char> {
    pretty_text(built_value(value))
}

/// The indented JSON text of a value. Every value has one.
pub fn json_pretty_text(doc: &JsonDoc) -> (text: Result<String, AstgenError>)
    ensures
        text matches Ok(t) && t@ == json_pretty_rendering(doc@),
{
    match value_to_pretty(&to_json_value(doc)) {
        Ok(t) => Ok(t),
        Err(e) => Err(serialization_error(&e)),
    }
}

/// The summary of a run as a JSON value.
pub open spec fn summary_value(success_count: nat, error_count: nat) -> JsonValue {
    JsonValue::Object(
        seq![
            (
                "summary"@,
                JsonValue::Object(
                    seq![
                        ("files_processed"@, JsonValue::Number(success_count)),
                        ("errors"@, JsonValue::Number(error_count)),
                        ("total"@, JsonValue::Number(success_count + error_count)),
                    ],
                ),
            ),
        ],
    )
}

/// The summary of a run in the YAML form.
pub open spec fn summary_yaml(success_count: nat, error_count: nat) -> Seq<char> {
    "summary:\n  files_processed: "@ + decimal_text(success_count) + "\n  errors: "@
        + decimal_text(error_count) + "\n  total: "@ + decimal_text(success_count + error_count)
}

/// Builds the summary of a run as a JSON value.
pub fn summary_doc(success_count: usize, error_count: usize) -> (doc: JsonDoc)
    requires
        success_count + error_count <= usize::MAX,
    ensures
        doc@ == summary_value(success_count as nat, error_count as nat),
{
    let mut inner: Vec<JsonField> = Vec::new();
    inner.push(
        JsonField {
            name: String::from_str("files_processed"),
            value: JsonDoc::Number(success_count),
        },
    );
    inner.push(JsonField { name: String::from_str("errors"), value: JsonDoc::Number(error_count) });
    inner.push(
        JsonField {
            name: String::from_str("total"),
            value: JsonDoc::Number(success_count + error_count),
        },
    );
    let mut outer: Vec<JsonField> = Vec::new();
    outer.push(JsonField { name: String::from_str("summary"), value: JsonDoc::Object(inner) });
    let doc = JsonDoc::Object(outer);
    proof {
        reveal_with_fuel(crate::parsing::doc_model, 3);
        let want = summary_value(success_count as nat, error_count as nat);
        assert(doc@->Object_0[0].1->Object_0 =~= want->Object_0[0].1->Object_0);
        assert(doc@->Object_0 =~= want->Object_0);
    }
    doc
}

/// The summary text once its JSON form was rendered: the rendered text, or
/// the empty text where rendering failed.
pub fn rendered_or_empty(rendered: Result<String, AstgenError>) -> (text: String)
    ensures
        match rendered {
            Ok(t) => text == t,
            Err(_) => text@ == Seq::<char>::empty(),
        },
{
    match rendered {
        Ok(t) => t,
        Err(_) => String::new(),
    }
}

/// The summary of a run in the given format: the YAML form written out, or
/// the compact or indented rendering of `summary_value`.
pub fn format_summary(success_count: usize, error_count: usize, format: &OutputFormat) -> (text:
    String)
    requires
        success_count + error_count <= usize::MAX,
    ensures
        match *format {
            OutputFormat::Json => text@ == json_rendering(
                summary_value(success_count as nat, error_count as nat),
            ),
            OutputFormat::PrettyJson => text@ == json_pretty_rendering(
                summary_value(success_count as nat, error_count as nat),
            ),
            OutputFormat::Yaml => text@ == summary_yaml(success_count as nat, error_count as nat),
        },
{
    match format {
        OutputFormat::Json => rendered_or_empty(json_text(&summary_doc(success_count, error_count))),
        OutputFormat::PrettyJson => rendered_or_empty(
            json_pretty_text(&summary_doc(success_count, error_count)),
        ),
        OutputFormat::Yaml => String::from_str("summary:\n  files_processed: ").concat(
            decimal(success_count).as_str(),
        ).concat("\n  errors: ").concat(decimal(error_count).as_str()).concat("\n  total: ").concat(
            decimal(success_count + error_count).as_str(),
        ),
    }
}

} // verus!
