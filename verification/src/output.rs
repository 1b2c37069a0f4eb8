//! Writing a document out: as one line, or as one line for each item.
//!
//! Nothing is printed here. A [`Rendered`] holds the lines to print, in
//! order, and says whether the user is to be warned that no items were
//! found.

use crate::json::array_model;
use crate::json::rendered;
use crate::json::Json;
use crate::json::JsonError;
use crate::json::JsonValue;
use crate::providers::types::ReadwiseType;
use vstd::prelude::*;
use vstd::string::*;

verus! {

/// How a document is written out.
#[derive(Debug, Clone, Copy, PartialEq, Eq, Structural)]
pub enum OutputFormat {
    /// The whole document on one line.
    Json,
    /// Each item on a line of its own.
    Jsonl,
}

impl Default for OutputFormat {
    fn default() -> (format: Self)
        ensures
            format == OutputFormat::Json,
    {
        OutputFormat::Json
    }
}

/// What made a document, which decides where its items are.
#[derive(Debug, Clone, Copy, PartialEq, Eq, Structural)]
pub enum Stage {
    /// A page as the service sent it: the items are under `results`.
    Envelope,
    /// Gathered items: the document is itself the array of them.
    Collection,
    /// A projection for a kind of resource: the items are under `items` of
    /// the object under the kind's key.
    Projected(ReadwiseType),
}

/// What the user is told where no items are found.
pub const MISSING_ITEMS_WARNING: &'static str =
    "Warning: Expected items array not found in JSON-LD structure for JSONL output. No data will be produced.";

/// Lines to print, and whether to warn that no items were found.
#[derive(Debug, Clone, PartialEq, Eq)]
pub struct Rendered {
    pub lines: Vec<String>,
    pub warning: bool,
}

/// The items of a projected document for the kind `kind`.
pub open spec fn projected_items(document: JsonValue, kind: ReadwiseType) -> Option<
    Seq<JsonValue>,
> {
    match document.member(kind.root()) {
        Some(holder) => match holder.member("items"@) {
            Some(items) => items.elements(),
            None => None,
        },
        None => None,
    }
}

/// The items of a document, where it has them at the place that its stage
/// says.
pub open spec fn items_of(document: JsonValue, stage: Stage) -> Option<Seq<JsonValue>> {
    match stage {
        Stage::Envelope => match document.member("results"@) {
            Some(results) => results.elements(),
            None => None,
        },
        Stage::Collection => document.elements(),
        Stage::Projected(kind) => projected_items(document, kind),
    }
}

/// The items of a projected document for the provider `provider_id`; none
/// where the identifier is of no known kind.
pub open spec fn jsonld_items(document: JsonValue, provider_id: Seq<char>) -> Option<
    Seq<JsonValue>,
> {
    match ReadwiseType::of_id(provider_id) {
        Some(kind) => projected_items(document, kind),
        None => None,
    }
}

/// Every one of the items can be written as text.
pub open spec fn all_written(items: Seq<JsonValue>) -> bool {
    forall|i: int| 0 <= i < items.len() ==> (#[trigger] rendered(items[i])) is Some
}

/// `lines` are the texts of `items`: as many, in the same order, each the
/// compact text of its item.
pub open spec fn lines_of(lines: Seq<String>, items: Seq<JsonValue>) -> bool {
    &&& lines.len() == items.len()
    &&& forall|i: int| 0 <= i < items.len() ==> rendered(items[i]) == Some(#[trigger] lines[i]@)
}

/// What is printed for a document in a format: for `Json`, the one line of
/// the whole document; for `Jsonl`, the lines of its items, or no line and a
/// warning where it has no items at the place that `items` stands for.
pub open spec fn renders(
    output: Rendered,
    document: JsonValue,
    items: Option<Seq<JsonValue>>,
    format: OutputFormat,
) -> bool {
    match format {
        OutputFormat::Json => {
            &&& !output.warning
            &&& output.lines@.len() == 1
            &&& rendered(document) == Some(output.lines@[0]@)
        },
        OutputFormat::Jsonl => match items {
            Some(items) => !output.warning && lines_of(output.lines@, items),
            None => output.warning && output.lines@.len() == 0,
        },
    }
}

/// Whether a document in a format can be written: for `Json`, the document
/// can; for `Jsonl`, each of its items can.
pub open spec fn writable(
    document: JsonValue,
    items: Option<Seq<JsonValue>>,
    format: OutputFormat,
) -> bool {
    match format {
        OutputFormat::Json => rendered(document) is Some,
        OutputFormat::Jsonl => match items {
            Some(items) => all_written(items),
            None => true,
        },
    }
}

/// The texts of `items`, one line for each, in order.
pub fn jsonl_lines(items: &Vec<Json>) -> (lines: Result<Vec<String>, JsonError>)
    ensures
        match lines {
            Ok(lines) => all_written(array_model(items@)) && lines_of(
                lines@,
                array_model(items@),
            ),
            Err(_) => !all_written(array_model(items@)),
        },
{
    let mut lines: Vec<String> = Vec::new();
    let mut i: usize = 0;
    while i < items.len()
        invariant
            i <= items.len(),
            all_written(array_model(items@).take(i as int)),
            lines_of(lines@, array_model(items@).take(i as int)),
        decreases items.len() - i,
    {
        match items[i].to_text() {
            Ok(line) => {
                lines.push(line);
            },
            Err(error) => {
                assert(rendered(array_model(items@)[i as int]) is None);
                return Err(error);
            },
        }
        i += 1;
    }
    assert(array_model(items@).take(i as int) =~= array_model(items@));
    Ok(lines)
}

/// The whole of `data` on one line.
pub fn json_output(data: &Json) -> (output: Result<Rendered, JsonError>)
    ensures
        match output {
            Ok(output) => renders(output, data@, None, OutputFormat::Json),
            Err(_) => !writable(data@, None, OutputFormat::Json),
        },
{
    match data.to_text() {
        Ok(line) => {
            let mut lines: Vec<String> = Vec::new();
            lines.push(line);
            Ok(Rendered { lines, warning: false })
        },
        Err(error) => Err(error),
    }
}

/// The lines of `items`; no line and a warning where there are none to be
/// had.
fn jsonl_output(items: Option<&Vec<Json>>) -> (output: Result<Rendered, JsonError>)
    ensures
        match output {
            Ok(output) => match items {
                Some(items) => !output.warning && all_written(array_model(items@)) && lines_of(
                    output.lines@,
                    array_model(items@),
                ),
                None => output.warning && output.lines@.len() == 0,
            },
            Err(_) => items matches Some(items) && !all_written(array_model(items@)),
        },
{
    match items {
        Some(items) => match jsonl_lines(items) {
            Ok(lines) => Ok(Rendered { lines, warning: false }),
            Err(error) => Err(error),
        },
        None => Ok(Rendered { lines: Vec::new(), warning: true }),
    }
}

/// One line for each of the results of a page; no line and a warning for a
/// page without results.
pub fn jsonl_from_results(results: Option<&Vec<Json>>) -> (output: Result<
    Rendered,
    JsonError,
>)
    ensures
        match output {
            Ok(output) => match results {
                Some(items) => !output.warning && all_written(array_model(items@)) && lines_of(
                    output.lines@,
                    array_model(items@),
                ),
                None => output.warning && output.lines@.len() == 0,
            },
            Err(_) => results matches Some(items) && !all_written(array_model(items@)),
        },
{
    jsonl_output(results)
}

/// The items of a projected document for the kind `kind`.
fn locate_projected<'a>(document: &'a Json, kind: ReadwiseType) -> (items: Option<&'a Vec<Json>>)
    ensures
        match items {
            Some(items) => projected_items(document@, kind) == Some(array_model(items@)),
            None => projected_items(document@, kind) is None,
        },
{
    match document.get(kind.root_key()) {
        Some(holder) => match holder.get("items") {
            Some(items) => items.as_array(),
            None => None,
        },
        None => None,
    }
}

/// The items of a document at the place that its stage says.
pub fn locate_items<'a>(document: &'a Json, stage: Stage) -> (items: Option<&'a Vec<Json>>)
    ensures
        match items {
            Some(items) => items_of(document@, stage) == Some(array_model(items@)),
            None => items_of(document@, stage) is None,
        },
{
    match stage {
        Stage::Envelope => match document.get("results") {
            Some(results) => results.as_array(),
            None => None,
        },
        Stage::Collection => document.as_array(),
        Stage::Projected(kind) => locate_projected(document, kind),
    }
}

/// One line for each item of a projected document for the provider
/// `provider_id`; no line and a warning where it has no items there, or
/// where the identifier is of no known kind.
pub fn jsonl_from_jsonld(json_ld: &Json, provider_id: &str) -> (output: Result<
    Rendered,
    JsonError,
>)
    ensures
        match output {
            Ok(output) => renders(
                output,
                json_ld@,
                jsonld_items(json_ld@, provider_id@),
                OutputFormat::Jsonl,
            ),
            Err(_) => !writable(
                json_ld@,
                jsonld_items(json_ld@, provider_id@),
                OutputFormat::Jsonl,
            ),
        },
{
    let items = match ReadwiseType::from_id(provider_id) {
        Some(kind) => locate_projected(json_ld, kind),
        None => None,
    };
    jsonl_output(items)
}

/// What is printed for `document` in `format`.
pub fn render(document: &Json, stage: Stage, format: OutputFormat) -> (output: Result<
    Rendered,
    JsonError,
>)
    ensures
        match output {
            Ok(output) => renders(output, document@, items_of(document@, stage), format),
            Err(_) => !writable(document@, items_of(document@, stage), format),
        },
{
    match format {
        OutputFormat::Json => json_output(document),
        OutputFormat::Jsonl => jsonl_output(locate_items(document, stage)),
    }
}

} // verus!
