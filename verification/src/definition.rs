//! How the tool is described to a language model.

use crate::call::SetStatusTool;
use vstd::prelude::*;
use vstd::string::*;

verus! {

/// A JSON value, as far as a description of parameters needs them.
#[derive(Debug)]
pub enum JsonValue {
    /// A string.
    Text(String),
    /// An array.
    Array(Vec<JsonValue>),
    /// An object, by its members.
    Object(Vec<(String, JsonValue)>),
}

/// What a [`JsonValue`] says.
pub enum JsonView {
    /// See [`JsonValue::Text`].
    Text(Seq<char>),
    /// See [`JsonValue::Array`].
    Array(Seq<JsonView>),
    /// See [`JsonValue::Object`].
    Object(Seq<(Seq<char>, JsonView)>),
}

impl JsonValue {
    /// What the value says.
    pub open spec fn view(self) -> JsonView
        decreases self,
    {
        match self {
            JsonValue::Text(text) => JsonView::Text(text@),
            JsonValue::Array(items) => JsonView::Array(
                Seq::new(
                    items@.len(),
                    |i: int|
                        if 0 <= i < items@.len() {
                            items@[i].view()
                        } else {
                            arbitrary()
                        },
                ),
            ),
            JsonValue::Object(members) => JsonView::Object(
                Seq::new(
                    members@.len(),
                    |i: int|
                        if 0 <= i < members@.len() {
                            (members@[i].0@, members@[i].1.view())
                        } else {
                            arbitrary()
                        },
                ),
            ),
        }
    }
}

/// What the model is told of the parameter `status`.
pub const STATUS_DESCRIPTION: &'static str =
    "A concise status message describing your current progress or final result (1-2 sentences)";

/// What the model is told of the parameter `kind`.
pub const KIND_DESCRIPTION: &'static str =
    "Use \"progress\" for intermediate updates. Use \"outcome\" ONLY when ALL steps of the task have reached a terminal result (success or failure) and you are ready to finish. Do not signal outcome if there are remaining steps — premature outcome signaling causes the task to be incorrectly reported as complete.";

/// What the model is told of the parameter `evidence`.
pub const EVIDENCE_DESCRIPTION: &'static str =
    "REQUIRED for kind=\"outcome\": at least one item documenting the command you ran and its exit code (e.g. cargo test --lib with exit_code 0). Text-only outcomes are rejected.";

/// What the model is told of an item's `command`.
pub const COMMAND_DESCRIPTION: &'static str = "The command that produced the evidence";

/// What the model is told of an item's `exit_code`.
pub const EXIT_CODE_DESCRIPTION: &'static str = "The command's exit code (0 = success)";

/// What the model is told of an item's `summary`.
pub const SUMMARY_DESCRIPTION: &'static str = "Optional summary, e.g. '42 tests passed'";

/// The schema of values of the plain type `kind_of_value`.
pub open spec fn plain_schema(kind_of_value: Seq<char>, description: Seq<char>) -> JsonView {
    JsonView::Object(
        seq![
            ("type"@, JsonView::Text(kind_of_value)),
            ("description"@, JsonView::Text(description)),
        ],
    )
}

/// The schema of the parameter `kind`.
pub open spec fn kind_schema() -> JsonView {
    JsonView::Object(
        seq![
            ("type"@, JsonView::Text("string"@)),
            (
                "enum"@,
                JsonView::Array(seq![JsonView::Text("progress"@), JsonView::Text("outcome"@)]),
            ),
            ("default"@, JsonView::Text("progress"@)),
            ("description"@, JsonView::Text(KIND_DESCRIPTION@)),
        ],
    )
}

/// The schema of one item of evidence.
pub open spec fn item_schema() -> JsonView {
    JsonView::Object(
        seq![
            ("type"@, JsonView::Text("object"@)),
            (
                "properties"@,
                JsonView::Object(
                    seq![
                        ("command"@, plain_schema("string"@, COMMAND_DESCRIPTION@)),
                        ("exit_code"@, plain_schema("integer"@, EXIT_CODE_DESCRIPTION@)),
                        ("summary"@, plain_schema("string"@, SUMMARY_DESCRIPTION@)),
                    ],
                ),
            ),
            (
                "required"@,
                JsonView::Array(seq![JsonView::Text("command"@), JsonView::Text("exit_code"@)]),
            ),
        ],
    )
}

/// The schema of the parameter `evidence`.
pub open spec fn evidence_schema() -> JsonView {
    JsonView::Object(
        seq![
            ("type"@, JsonView::Text("array"@)),
            ("items"@, item_schema()),
            ("description"@, JsonView::Text(EVIDENCE_DESCRIPTION@)),
        ],
    )
}

/// The schema of the tool's parameters.
pub open spec fn parameters_schema() -> JsonView {
    JsonView::Object(
        seq![
            ("type"@, JsonView::Text("object"@)),
            (
                "properties"@,
                JsonView::Object(
                    seq![
                        ("status"@, plain_schema("string"@, STATUS_DESCRIPTION@)),
                        ("kind"@, kind_schema()),
                        ("evidence"@, evidence_schema()),
                    ],
                ),
            ),
            ("required"@, JsonView::Array(seq![JsonView::Text("status"@)])),
        ],
    )
}

/// A string.
fn text(content: &str) -> (value: JsonValue)
    ensures
        value.view() == JsonView::Text(content@),
{
    JsonValue::Text(content.to_string())
}

/// An array.
fn array(items: Vec<JsonValue>) -> (value: JsonValue)
    ensures
        value.view() == JsonView::Array(items@.map_values(|item: JsonValue| item.view())),
{
    let value = JsonValue::Array(items);
    assert(value.view()->Array_0 =~= items@.map_values(|item: JsonValue| item.view()));
    value
}

/// A member of an object.
fn member(name: &str, value: JsonValue) -> (res: (String, JsonValue))
    ensures
        res.0@ == name@,
        res.1 == value,
{
    (name.to_string(), value)
}

/// An object.
fn object(members: Vec<(String, JsonValue)>) -> (value: JsonValue)
    ensures
        value.view() == JsonView::Object(
            members@.map_values(|member: (String, JsonValue)| (member.0@, member.1.view())),
        ),
{
    let value = JsonValue::Object(members);
    assert(value.view()->Object_0 =~= members@.map_values(
        |member: (String, JsonValue)| (member.0@, member.1.view()),
    ));
    value
}

/// The schema of values of the plain type `kind_of_value`.
fn plain(kind_of_value: &str, description: &str) -> (value: JsonValue)
    ensures
        value.view() == plain_schema(kind_of_value@, description@),
{
    let value = object(
        vec![member("type", text(kind_of_value)), member("description", text(description))],
    );
    assert(value.view()->Object_0 =~= plain_schema(kind_of_value@, description@)->Object_0);
    value
}

/// The schema of the parameter `kind`.
fn kind() -> (value: JsonValue)
    ensures
        value.view() == kind_schema(),
{
    let names = array(vec![text("progress"), text("outcome")]);
    assert(names.view()->Array_0 =~= seq![
        JsonView::Text("progress"@),
        JsonView::Text("outcome"@),
    ]);
    let value = object(
        vec![
            member("type", text("string")),
            member("enum", names),
            member("default", text("progress")),
            member("description", text(KIND_DESCRIPTION)),
        ],
    );
    assert(value.view()->Object_0 =~= kind_schema()->Object_0);
    value
}

/// The schema of one item of evidence.
fn item() -> (value: JsonValue)
    ensures
        value.view() == item_schema(),
{
    let properties = object(
        vec![
            member("command", plain("string", COMMAND_DESCRIPTION)),
            member("exit_code", plain("integer", EXIT_CODE_DESCRIPTION)),
            member("summary", plain("string", SUMMARY_DESCRIPTION)),
        ],
    );
    assert(properties.view()->Object_0 =~= item_schema()->Object_0[1].1->Object_0);
    let required = array(vec![text("command"), text("exit_code")]);
    assert(required.view()->Array_0 =~= item_schema()->Object_0[2].1->Array_0);
    let value = object(
        vec![
            member("type", text("object")),
            member("properties", properties),
            member("required", required),
        ],
    );
    assert(value.view()->Object_0 =~= item_schema()->Object_0);
    value
}

/// The schema of the parameter `evidence`.
fn evidence() -> (value: JsonValue)
    ensures
        value.view() == evidence_schema(),
{
    let value = object(
        vec![
            member("type", text("array")),
            member("items", item()),
            member("description", text(EVIDENCE_DESCRIPTION)),
        ],
    );
    assert(value.view()->Object_0 =~= evidence_schema()->Object_0);
    value
}

/// The schema of the tool's parameters.
fn parameters() -> (value: JsonValue)
    ensures
        value.view() == parameters_schema(),
{
    let properties = object(
        vec![
            member("status", plain("string", STATUS_DESCRIPTION)),
            member("kind", kind()),
            member("evidence", evidence()),
        ],
    );
    assert(properties.view()->Object_0 =~= parameters_schema()->Object_0[1].1->Object_0);
    let required = array(vec![text("status")]);
    assert(required.view()->Array_0 =~= parameters_schema()->Object_0[2].1->Array_0);
    let value = object(
        vec![
            member("type", text("object")),
            member("properties", properties),
            member("required", required),
        ],
    );
    assert(value.view()->Object_0 =~= parameters_schema()->Object_0);
    value
}

/// How a tool is described to a language model.
#[derive(Debug)]
pub struct ToolDefinition {
    /// The name by which the model calls the tool.
    pub name: String,
    /// What the tool is for.
    pub description: String,
    /// The schema of the tool's parameters.
    pub parameters: JsonValue,
}

impl SetStatusTool {
    /// The name by which the model calls the tool.
    pub const NAME: &'static str = "set_status";

    /// The name of the prompt text that describes the tool.
    pub const PROMPT: &'static str = "tools/set_status";

    /// How the tool is described to a model, where the text of its prompt is
    /// `description`.
    pub fn definition(&self, description: String) -> (definition: ToolDefinition)
        ensures
            definition.name@ == Self::NAME@,
            definition.description == description,
            definition.parameters.view() == parameters_schema(),
    {
        ToolDefinition {
            name: Self::NAME.to_string(),
            description,
            parameters: parameters(),
        }
    }
}

} // verus!
