//! The prompt handed to the inference process: a fixed instruction followed
//! by the aggregate diff text.

use vstd::prelude::*;
use vstd::string::StringExecFns;

verus! {

/// The fixed instruction that opens every prompt. It does not depend on the
/// repository path or on anything else observed at run time.
pub const INSTRUCTION: &'static str = "Given the following git diffs, generate concise, present-tense commit messages in a single line. If multiple distinct changes are detected, provide separate commit messages for each. Use the conventional git style, summarizing what the changes do (e.g., 'Add', 'Update', 'Fix', 'Remove'). Avoid past tense, and aim for clarity in a single line per commit. Return the results formatted in HTML.\n\nGit Diffs:\n";

/// The prompt for a given aggregate diff text: the fixed instruction,
/// then the text, nothing else.
pub open spec fn prompt_of(aggregate: Seq<char>) -> Seq<char> {
    INSTRUCTION@ + aggregate
}

/// Builds the prompt for an aggregate diff text.
pub fn build_prompt(aggregate: &str) -> (prompt: String)
    ensures
        prompt@ == prompt_of(aggregate@),
{
    let mut prompt = String::from_str(INSTRUCTION);
    prompt.append(aggregate);
    prompt
}

/// The prompt is a function of the aggregate text alone: it is exactly the
/// fixed instruction followed by that text, so two prompts built from the
/// same aggregate are identical, whatever else differs between the runs.
pub proof fn lemma_prompt_shape(aggregate: Seq<char>)
    ensures
        prompt_of(aggregate).len() == INSTRUCTION@.len() + aggregate.len(),
        prompt_of(aggregate).subrange(0, INSTRUCTION@.len() as int) == INSTRUCTION@,
        prompt_of(aggregate).subrange(
            INSTRUCTION@.len() as int,
            prompt_of(aggregate).len() as int,
        ) == aggregate,
{
    assert(prompt_of(aggregate).subrange(0, INSTRUCTION@.len() as int) =~= INSTRUCTION@);
    assert(prompt_of(aggregate).subrange(
        INSTRUCTION@.len() as int,
        prompt_of(aggregate).len() as int,
    ) =~= aggregate);
}

} // verus!
