use matrix_relay::mcp::{format_tools_markdown, ToolSummary};

#[test]
fn no_tools_gives_note() {
    assert_eq!(format_tools_markdown(&vec![]), "**Available tools**\n\nno tools available\n");
}

#[test]
fn tools_are_listed_in_order() {
    let tools = vec![
        ToolSummary { name: "report".to_string(), description: Some("Generate a report".to_string()) },
        ToolSummary { name: "ping".to_string(), description: None },
    ];
    assert_eq!(
        format_tools_markdown(&tools),
        "**Available tools**\n\n- `report` \u{2014} Generate a report\n- `ping`\n"
    );
}

#[test]
fn single_tool_without_description() {
    let tools = vec![ToolSummary { name: "x".to_string(), description: None }];
    assert_eq!(format_tools_markdown(&tools), "**Available tools**\n\n- `x`\n");
}

use matrix_relay::mcp::{report_text, ResourcePart};

#[test]
fn report_text_joins_text_parts() {
    let parts = vec![
        ResourcePart::Text("Daily ".to_string()),
        ResourcePart::Other,
        ResourcePart::Text("report".to_string()),
    ];
    assert_eq!(report_text("kid://report/daily", &parts), Ok("Daily report".to_string()));
}

#[test]
fn report_text_needs_some_text() {
    assert_eq!(
        report_text("kid://x", &vec![ResourcePart::Other]),
        Err("MCP resource kid://x has no text content".to_string())
    );
    assert_eq!(
        report_text("kid://x", &vec![]),
        Err("MCP resource kid://x has no text content".to_string())
    );
    assert_eq!(report_text("kid://x", &vec![ResourcePart::Text(String::new())]), Ok(String::new()));
}
