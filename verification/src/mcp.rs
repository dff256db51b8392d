//! What the relay makes of the "generate message" tool server's answers: the
//! Markdown chat reply that lists its tools, and the text of a report
//! resource.
use vstd::prelude::*;

verus! {

/// A tool as the listing shows it: its name and, where the server gives one,
/// its description.
#[derive(Debug, PartialEq, Eq)]
pub struct ToolSummary {
    pub name: String,
    pub description: Option<String>,
}

/// The list item for one tool: its name as code, then its description if it
/// has one.
pub open spec fn tool_line(tool: ToolSummary) -> Seq<char> {
    match tool.description {
        Some(d) => "- `"@ + tool.name@ + "` — "@ + d@,
        None => "- `"@ + tool.name@ + "`"@,
    }
}

/// The list items of `tools`, in order, one per line, joined by newlines.
pub open spec fn tool_lines(tools: Seq<ToolSummary>) -> Seq<char>
    decreases tools.len(),
{
    if tools.len() == 0 {
        Seq::empty()
    } else if tools.len() == 1 {
        tool_line(tools[0])
    } else {
        tool_lines(tools.drop_last()) + "\n"@ + tool_line(tools.last())
    }
}

/// The whole reply: a heading, then the list, or a note that there are none.
pub open spec fn tools_markdown(tools: Seq<ToolSummary>) -> Seq<char> {
    if tools.len() == 0 {
        "**Available tools**\n\nno tools available\n"@
    } else {
        "**Available tools**\n\n"@ + tool_lines(tools) + "\n"@
    }
}

/// The list item of a tool, written out: `- `, its name in backticks, then
/// ` — ` and its description where it has one.
pub open spec fn listed_tool(tool: ToolSummary) -> Seq<char> {
    match tool.description {
        Some(d) => seq!['-', ' ', '`'] + tool.name@ + seq!['`', ' ', '—', ' '] + d@,
        None => seq!['-', ' ', '`'] + tool.name@ + seq!['`'],
    }
}

/// The heading of the listing, written out.
pub open spec fn listing_heading() -> Seq<char> {
    "**Available tools**"@ + seq!['\n', '\n']
}

/// With no tools the reply is the heading and a note that there are none.
pub proof fn law_no_tools_listing()
    ensures
        tools_markdown(Seq::empty()) == listing_heading() + "no tools available"@ + seq!['\n'],
{
    reveal_strlit("**Available tools**\n\nno tools available\n");
    reveal_strlit("**Available tools**");
    reveal_strlit("no tools available");
    assert(tools_markdown(Seq::empty()) =~= listing_heading() + "no tools available"@ + seq!['\n']);
}

/// A single tool is listed as the heading, then its item (with its
/// description where it has one), then a newline.
pub proof fn law_single_tool_listing(tool: ToolSummary)
    ensures
        tools_markdown(seq![tool]) == listing_heading() + listed_tool(tool) + seq!['\n'],
{
    reveal_literals();
    assert(seq![tool].len() == 1);
    assert(seq![tool][0] == tool);
    assert(tools_markdown(seq![tool]) =~= listing_heading() + listed_tool(tool) + seq!['\n']);
}

/// Listing one more tool adds its item as a new last line, after everything
/// the shorter list gave: every tool is listed, in order.
pub proof fn law_listing_appends_tool(tools: Seq<ToolSummary>, tool: ToolSummary)
    requires
        tools.len() > 0,
    ensures
        tools_markdown(tools.push(tool)) == tools_markdown(tools) + listed_tool(tool) + seq!['\n'],
{
    reveal_literals();
    let longer = tools.push(tool);
    assert(longer.drop_last() =~= tools);
    assert(longer.last() == tool);
    assert(tools_markdown(longer) =~= tools_markdown(tools) + listed_tool(tool) + seq!['\n']);
}

/// What the literals of the listing hold.
proof fn reveal_literals()
    ensures
        "- `"@ == seq!['-', ' ', '`'],
        "`"@ == seq!['`'],
        "` — "@ == seq!['`', ' ', '—', ' '],
        "\n"@ == seq!['\n'],
        "**Available tools**\n\n"@ == "**Available tools**"@ + seq!['\n', '\n'],
{
    reveal_strlit("- `");
    reveal_strlit("`");
    reveal_strlit("` — ");
    reveal_strlit("\n");
    reveal_strlit("**Available tools**\n\n");
    reveal_strlit("**Available tools**");
    assert("- `"@ =~= seq!['-', ' ', '`']);
    assert("`"@ =~= seq!['`']);
    assert("` — "@ =~= seq!['`', ' ', '—', ' ']);
    assert("\n"@ =~= seq!['\n']);
    assert("**Available tools**\n\n"@ =~= "**Available tools**"@ + seq!['\n', '\n']);
}

/// Formats the tools exposed by the "generate message" server as Markdown,
/// ready to send as a chat reply.
pub fn format_tools_markdown(tools: &Vec<ToolSummary>) -> (res: String)
    ensures
        res@ == tools_markdown(tools@),
{
    let n = tools.len();
    if n == 0 {
        return String::from_str("**Available tools**\n\nno tools available\n");
    }
    let mut res = String::from_str("**Available tools**\n\n");
    let ghost heading = res@;
    let mut i: usize = 0;
    assert(tools@.take(0) =~= Seq::<ToolSummary>::empty());
    while i < n
        invariant
            n == tools@.len(),
            0 <= i <= n,
            res@ =~= heading + tool_lines(tools@.take(i as int)),
        decreases n - i,
    {
        let ghost before = res@;
        if i > 0 {
            res.append("\n");
        }
        let tool = &tools[i];
        res.append("- `");
        res.append(tool.name.as_str());
        match &tool.description {
            Some(d) => {
                res.append("` — ");
                res.append(d.as_str());
            },
            None => {
                res.append("`");
            },
        }
        proof {
            let prefix = tools@.take(i + 1);
            assert(prefix.drop_last() =~= tools@.take(i as int));
            assert(prefix.last() == tools@[i as int]);
            if i == 0 {
                assert(prefix.len() == 1);
                assert(prefix[0] == tools@[0]);
            }
        }
        i = i + 1;
    }
    res.append("\n");
    assert(tools@.take(n as int) =~= tools@);
    res
}

/// One part of a resource read from the tool server: text, or content of
/// another kind (binary data).
#[derive(Debug, PartialEq, Eq)]
pub enum ResourcePart {
    Text(String),
    Other,
}

/// The text parts of `parts`, in order, run together.
pub open spec fn joined_text(parts: Seq<ResourcePart>) -> Seq<char>
    decreases parts.len(),
{
    if parts.len() == 0 {
        Seq::empty()
    } else {
        joined_text(parts.drop_last()) + match parts.last() {
            ResourcePart::Text(t) => t@,
            ResourcePart::Other => Seq::empty(),
        }
    }
}

/// Whether some part of `parts` is text.
pub open spec fn has_text(parts: Seq<ResourcePart>) -> bool {
    exists|i: int| 0 <= i < parts.len() && parts[i] is Text
}

/// The error text for a resource without any text.
pub open spec fn no_text_message(resource: Seq<char>) -> Seq<char> {
    "MCP resource "@ + resource + " has no text content"@
}

/// The report text that the resource `resource` read as `parts` gives: its
/// text parts run together, or an error when it has none.
pub fn report_text(resource: &str, parts: &Vec<ResourcePart>) -> (res: Result<String, String>)
    ensures
        has_text(parts@) ==> (res matches Ok(t) && t@ == joined_text(parts@)),
        !has_text(parts@) ==> (res matches Err(m) && m@ == no_text_message(resource@)),
{
    let n = parts.len();
    let mut text = String::new();
    let mut found = false;
    let mut i: usize = 0;
    assert(parts@.take(0) =~= Seq::<ResourcePart>::empty());
    while i < n
        invariant
            n == parts@.len(),
            0 <= i <= n,
            text@ == joined_text(parts@.take(i as int)),
            found <==> has_text(parts@.take(i as int)),
        decreases n - i,
    {
        proof {
            let prefix = parts@.take(i + 1);
            assert(prefix.drop_last() =~= parts@.take(i as int));
            assert(prefix.last() == parts@[i as int]);
        }
        match &parts[i] {
            ResourcePart::Text(t) => {
                text.append(t.as_str());
                found = true;
                proof {
                    let prefix = parts@.take(i + 1);
                    assert(prefix[i as int] is Text);
                }
            },
            ResourcePart::Other => {
                proof {
                    let prefix = parts@.take(i + 1);
                    if has_text(prefix) {
                        let k = choose|k: int| 0 <= k < prefix.len() && prefix[k] is Text;
                        assert(parts@.take(i as int)[k] is Text);
                    }
                }
            },
        }
        i = i + 1;
    }
    assert(parts@.take(n as int) =~= parts@);
    if found {
        Ok(text)
    } else {
        let mut message = String::from_str("MCP resource ");
        message.append(resource);
        message.append(" has no text content");
        Err(message)
    }
}

} // verus!
