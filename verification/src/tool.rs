//! The tools offered to the backend on every turn.

use crate::content::views;
use crate::error::{ConfigurationError, ConfigurationErrorView};
use crate::json::{error_text, error_to_string, from_str, parsed};
use crate::text::same_text;
use vstd::prelude::*;

verus! {

/// A tool that the backend may ask for: its name, what it does, and the
/// JSON schema of its parameters.
#[derive(Debug, PartialEq)]
pub struct Tool {
    pub name: String,
    pub description: String,
    pub parameters: serde_json::Value,
}

/// The view of a [`Tool`].
pub struct ToolView {
    pub name: Seq<char>,
    pub description: Seq<char>,
    pub parameters: serde_json::Value,
}

impl View for Tool {
    type V = ToolView;

    open spec fn view(&self) -> ToolView {
        ToolView { name: self.name@, description: self.description@, parameters: self.parameters }
    }
}

/// The name of the built-in word-counting tool.
pub const WORD_COUNT_NAME: &'static str = "count_words";

/// What the built-in word-counting tool says of itself.
pub const WORD_COUNT_DESCRIPTION: &'static str = "Count the number of words in text";

/// The parameter schema of the built-in word-counting tool: an object with
/// one required string field, `text`.
pub const WORD_COUNT_SCHEMA: &'static str =
    "{\"type\":\"object\",\"properties\":{\"text\":{\"type\":\"string\",\"description\":\"The text to count words in\"}},\"required\":[\"text\"]}";

impl Tool {
    pub fn new(name: &str, description: &str, parameters: serde_json::Value) -> (tool: Tool)
        ensures
            tool@ == (ToolView { name: name@, description: description@, parameters }),
    {
        Tool {
            name: String::from_str(name),
            description: String::from_str(description),
            parameters,
        }
    }

    /// The tool with the given name and description whose parameters are
    /// what `schema` parses to.
    pub open spec fn described(
        name: Seq<char>,
        description: Seq<char>,
        schema: Seq<char>,
    ) -> Result<ToolView, ConfigurationErrorView> {
        match parsed(schema) {
            Ok(parameters) => Ok(ToolView { name, description, parameters }),
            Err(error) => Err(
                ConfigurationErrorView::InvalidToolSchema { reason: error_text(error) },
            ),
        }
    }

    /// A tool whose parameter schema is given as JSON text. Text that is
    /// not JSON is refused.
    pub fn from_schema(name: &str, description: &str, schema: &str) -> (made: Result<
        Tool,
        ConfigurationError,
    >)
        ensures
            match Tool::described(name@, description@, schema@) {
                Ok(tool) => made matches Ok(t) && t@ == tool,
                Err(error) => made matches Err(e) && e@ == error,
            },
    {
        match from_str(schema) {
            Ok(parameters) => Ok(Tool::new(name, description, parameters)),
            Err(error) => Err(
                ConfigurationError::InvalidToolSchema { reason: error_to_string(&error) },
            ),
        }
    }

    /// The built-in tool that counts the words of a text.
    pub fn word_count() -> (made: Result<Tool, ConfigurationError>)
        ensures
            match Tool::described(
                WORD_COUNT_NAME@,
                WORD_COUNT_DESCRIPTION@,
                WORD_COUNT_SCHEMA@,
            ) {
                Ok(tool) => made matches Ok(t) && t@ == tool,
                Err(error) => made matches Err(e) && e@ == error,
            },
    {
        Tool::from_schema(WORD_COUNT_NAME, WORD_COUNT_DESCRIPTION, WORD_COUNT_SCHEMA)
    }
}

/// Whether one of `tools` is called `name`.
pub open spec fn has_tool(tools: Seq<ToolView>, name: Seq<char>) -> bool {
    exists|i: int| 0 <= i < tools.len() && (#[trigger] tools[i]).name == name
}

/// No two of `tools` have the same name.
pub open spec fn distinct_names(tools: Seq<ToolView>) -> bool {
    forall|i: int, j: int|
        0 <= i < j < tools.len() ==> (#[trigger] tools[i]).name != (#[trigger] tools[j]).name
}

/// What registering `tool` makes of `tools`: the tool is added at the end,
/// or refused because its name is taken.
pub open spec fn with_tool(tools: Seq<ToolView>, tool: ToolView) -> Result<
    Seq<ToolView>,
    ConfigurationErrorView,
> {
    if has_tool(tools, tool.name) {
        Err(ConfigurationErrorView::DuplicateTool { name: tool.name })
    } else {
        Ok(tools.push(tool))
    }
}

/// Registering keeps the names distinct, and a second tool of the same name
/// is refused whatever else it holds: once `first` is in, `second` is not.
pub proof fn lemma_names_stay_distinct(tools: Seq<ToolView>, first: ToolView, second: ToolView)
    requires
        distinct_names(tools),
        first.name == second.name,
    ensures
        with_tool(tools, first) matches Ok(more) ==> distinct_names(more) && with_tool(more, second)
            == Err::<Seq<ToolView>, ConfigurationErrorView>(
            ConfigurationErrorView::DuplicateTool { name: second.name },
        ),
        with_tool(tools, first) is Err ==> with_tool(tools, second) is Err,
{
    if !has_tool(tools, first.name) {
        let more = tools.push(first);
        assert(more[tools.len() as int].name == second.name);
    }
}

/// The tools of a conversation, in the order in which they were registered.
/// No two have the same name.
pub struct ToolRegistry {
    tools: Vec<Tool>,
}

impl View for ToolRegistry {
    type V = Seq<ToolView>;

    closed spec fn view(&self) -> Seq<ToolView> {
        views(self.tools@)
    }
}

impl ToolRegistry {
    /// The names in the registry are distinct.
    pub open spec fn wf(&self) -> bool {
        distinct_names(self@)
    }

    /// An empty registry.
    pub fn new() -> (registry: Self)
        ensures
            registry.wf(),
            registry@ == Seq::<ToolView>::empty(),
    {
        let registry = ToolRegistry { tools: Vec::new() };
        assert(registry@ =~= Seq::<ToolView>::empty());
        registry
    }

    /// Whether a tool is registered under `name`.
    pub fn contains(&self, name: &str) -> (found: bool)
        ensures
            found == has_tool(self@, name@),
    {
        let mut i: usize = 0;
        while i < self.tools.len()
            invariant
                i <= self.tools.len(),
                forall|k: int| 0 <= k < i ==> (#[trigger] self@[k]).name != name@,
            decreases self.tools.len() - i,
        {
            assert(self@[i as int] == self.tools@[i as int]@);
            if same_text(self.tools[i].name.as_str(), name) {
                return true;
            }
            i += 1;
        }
        false
    }

    /// Adds `tool` at the end, unless a tool of that name is registered
    /// already: then the registry stays as it is and the tool is refused.
    pub fn register(&mut self, tool: Tool) -> (done: Result<(), ConfigurationError>)
        requires
            old(self).wf(),
        ensures
            final(self).wf(),
            match with_tool(old(self)@, tool@) {
                Ok(tools) => done is Ok && final(self)@ == tools,
                Err(error) => (done matches Err(e) && e@ == error) && final(self)@ == old(self)@,
            },
    {
        if self.contains(tool.name.as_str()) {
            return Err(ConfigurationError::DuplicateTool { name: tool.name });
        }
        let ghost before = self@;
        self.tools.push(tool);
        assert(self@ =~= before.push(tool@));
        Ok(())
    }

    /// The number of tools.
    pub fn len(&self) -> (n: usize)
        ensures
            n == self@.len(),
    {
        self.tools.len()
    }

    /// The tools, in registration order.
    pub fn tools(&self) -> (tools: &Vec<Tool>)
        ensures
            views(tools@) == self@,
    {
        &self.tools
    }
}

} // verus!
