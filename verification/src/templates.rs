//! The prompt handed to the agent, and its rendering.

use std::collections::BTreeMap;
use vstd::prelude::*;

verus! {

/// The prompt up to the place of the completion signal.
pub const PROMPT_HEAD: &'static str = r#"# Ralph Wiggum Loop - ONE TASK THEN EXIT

You are in a Ralph Wiggum loop. You have NO MEMORY of previous runs.
Your state persists ONLY in `.rwl/progress.txt`.

## CRITICAL RULES

1. **READ .rwl/progress.txt FIRST** - It tells you what was done
2. **DO ONE SMALL THING** - Not a phase. One file, one fix, one test.
3. **EXIT IMMEDIATELY** - Do not retry errors. Just exit.

The loop will restart you with fresh context. That's the whole point.
Validation runs EXTERNALLY - you do NOT run tests or validation.

---

## Your Workflow

1. Read state: `cat .rwl/progress.txt && git log --oneline -10`
2. Do ONE small task
3. Record what you did in progress.txt
4. If ALL work is complete, signal: `"#;

/// The prompt between the completion signal and the path of the plan.
pub const PROMPT_MIDDLE: &'static str = r#"`
5. EXIT - do nothing else

---

## Implementation Plan

Read `"#;

/// The prompt behind the path of the plan.
pub const PROMPT_TAIL: &'static str = r#"` for what to build.
Each phase lists files and validation criteria.

## Now: Read progress.txt and do ONE thing
"#;

/// What stands in the template for the completion signal.
pub const SIGNAL_VARIABLE: &'static str = "{{completion_signal}}";

/// What stands in the template for the path of the plan.
pub const PLAN_VARIABLE: &'static str = "{{plan_path}}";

/// The template of the prompt: its three fixed parts, with the two
/// variables between them.
pub open spec fn template() -> Seq<char> {
    PROMPT_HEAD@ + SIGNAL_VARIABLE@ + PROMPT_MIDDLE@ + PLAN_VARIABLE@ + PROMPT_TAIL@
}

/// The template of the prompt.
pub fn prompt_template() -> (r: String)
    ensures
        r@ == template(),
{
    let mut r = PROMPT_HEAD.to_string();
    r.append(SIGNAL_VARIABLE);
    r.append(PROMPT_MIDDLE);
    r.append(PLAN_VARIABLE);
    r.append(PROMPT_TAIL);
    r
}

/// Why there is no prompt.
#[derive(Debug)]
pub enum PromptError {
    /// The template is not well formed.
    Template { reason: String },
    /// The template could not be rendered.
    Render { reason: String },
}

pub enum PromptErrorView {
    Template { reason: Seq<char> },
    Render { reason: Seq<char> },
}

impl View for PromptError {
    type V = PromptErrorView;

    open spec fn view(&self) -> PromptErrorView {
        match self {
            PromptError::Template { reason } => PromptErrorView::Template { reason: reason@ },
            PromptError::Render { reason } => PromptErrorView::Render { reason: reason@ },
        }
    }
}

impl PromptErrorView {
    pub open spec fn message(self) -> Seq<char> {
        match self {
            PromptErrorView::Template { .. } => "Failed to register prompt template"@,
            PromptErrorView::Render { .. } => "Failed to render prompt template"@,
        }
    }
}

impl PromptError {
    /// The error in words.
    pub fn message(&self) -> (r: String)
        ensures
            r@ == self@.message(),
    {
        match self {
            PromptError::Template { .. } => "Failed to register prompt template".to_string(),
            PromptError::Render { .. } => "Failed to render prompt template".to_string(),
        }
    }
}

/// The view of a rendered text or of the reason why there is none.
pub open spec fn rendering(r: Result<String, PromptError>) -> Result<Seq<char>, PromptErrorView> {
    match r {
        Ok(s) => Ok(s@),
        Err(e) => Err(e@),
    }
}

/// The prompt for an agent that is to signal `completion_signal` and to
/// follow the plan at `plan_path`: the fixed parts of the template, with
/// the two values, as they are, in the places of the variables. The agent
/// is shown the very signal that the loop looks for.
pub open spec fn prompt_text(completion_signal: Seq<char>, plan_path: Seq<char>) -> Seq<char> {
    PROMPT_HEAD@ + completion_signal + PROMPT_MIDDLE@ + plan_path + PROMPT_TAIL@
}

/// The prompt, which is always there.
pub open spec fn prompt(completion_signal: Seq<char>, plan_path: Seq<char>) -> Result<
    Seq<char>,
    PromptErrorView,
> {
    Ok(prompt_text(completion_signal, plan_path))
}

/// Makes a registry with `handlebars::Handlebars::new`, puts
/// `handlebars::no_escape` in the place of its escape function with
/// `register_escape_fn`, registers the template with
/// `register_template_string` and renders it with `render`, the values
/// handed over as a map from the names of the variables. Only the prompt
/// template is admitted, with its two variables: it holds no partial and no
/// block, only its three fixed parts and the two variables. For it the
/// registration does not fail; `render` writes the fixed parts as they are
/// and, for each variable, the text of its value as the escape function
/// hands it back, which is unchanged, and does not fail either.
#[verifier::external_body]
fn render_template(name: &str, text: &str, data: &Vec<(String, String)>) -> (r: Result<
    String,
    PromptError,
>)
    requires
        name@ == "prompt"@,
        text@ == template(),
        data@.len() == 2,
        data@[0].0@ == "completion_signal"@,
        data@[1].0@ == "plan_path"@,
    ensures
        rendering(r) == prompt(data@[0].1@, data@[1].1@),
{
    let mut registry = handlebars::Handlebars::new();
    registry.register_escape_fn(handlebars::no_escape);
    if let Err(e) = registry.register_template_string(name, text) {
        return Err(PromptError::Template { reason: e.to_string() });
    }
    let map: BTreeMap<String, String> = data.iter().cloned().collect();
    match registry.render(name, &map) {
        Ok(text) => Ok(text),
        Err(e) => Err(PromptError::Render { reason: e.to_string() }),
    }
}

/// Renders the prompt.
pub fn build_prompt(completion_signal: &str, plan_path: &str) -> (r: Result<String, PromptError>)
    ensures
        rendering(r) == prompt(completion_signal@, plan_path@),
{
    let template = prompt_template();
    let mut data: Vec<(String, String)> = Vec::new();
    data.push(("completion_signal".to_string(), completion_signal.to_string()));
    data.push(("plan_path".to_string(), plan_path.to_string()));
    render_template("prompt", template.as_str(), &data)
}

} // verus!
