use serde_json::Value;
use set_status::{JsonValue, SetStatusTool};
use std::sync::Arc;

fn to_value(json: JsonValue) -> Value {
    match json {
        JsonValue::Text(text) => Value::String(text),
        JsonValue::Array(items) => Value::Array(items.into_iter().map(to_value).collect()),
        JsonValue::Object(members) => {
            let count = members.len();
            let map: serde_json::Map<String, Value> = members
                .into_iter()
                .map(|(name, value)| (name, to_value(value)))
                .collect();
            // No two members share a name.
            assert_eq!(map.len(), count);
            Value::Object(map)
        }
    }
}

#[test]
fn definition_describes_the_tool() {
    let tool = SetStatusTool::new(Arc::from("agent"), uuid::Uuid::new_v4(), None, false);
    assert_eq!(SetStatusTool::NAME, "set_status");
    assert_eq!(SetStatusTool::PROMPT, "tools/set_status");
    let definition = tool.definition("Report your status.".to_string());
    assert_eq!(definition.name, "set_status");
    assert_eq!(definition.description, "Report your status.");
    let expected: Value = serde_json::from_str(
        r#"{
            "type": "object",
            "properties": {
                "status": {
                    "type": "string",
                    "description": "A concise status message describing your current progress or final result (1-2 sentences)"
                },
                "kind": {
                    "type": "string",
                    "enum": ["progress", "outcome"],
                    "default": "progress",
                    "description": "Use \"progress\" for intermediate updates. Use \"outcome\" ONLY when ALL steps of the task have reached a terminal result (success or failure) and you are ready to finish. Do not signal outcome if there are remaining steps — premature outcome signaling causes the task to be incorrectly reported as complete."
                },
                "evidence": {
                    "type": "array",
                    "items": {
                        "type": "object",
                        "properties": {
                            "command": { "type": "string", "description": "The command that produced the evidence" },
                            "exit_code": { "type": "integer", "description": "The command's exit code (0 = success)" },
                            "summary": { "type": "string", "description": "Optional summary, e.g. '42 tests passed'" }
                        },
                        "required": ["command", "exit_code"]
                    },
                    "description": "REQUIRED for kind=\"outcome\": at least one item documenting the command you ran and its exit code (e.g. cargo test --lib with exit_code 0). Text-only outcomes are rejected."
                }
            },
            "required": ["status"]
        }"#,
    )
    .unwrap();
    assert_eq!(to_value(definition.parameters), expected);
}
