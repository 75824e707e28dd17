use commit_suggest::prompt::build_prompt;
use commit_suggest::prompt::INSTRUCTION;

#[test]
fn empty_aggregate_gives_bare_instruction() {
    let prompt = build_prompt("");
    assert_eq!(prompt, INSTRUCTION);
}

#[test]
fn prompt_is_instruction_then_aggregate() {
    let prompt = build_prompt("a.rs\n+line\n");
    assert_eq!(prompt, format!("{}{}", INSTRUCTION, "a.rs\n+line\n"));
}

#[test]
fn prompt_is_byte_identical_across_runs() {
    let aggregate = "src/lib.rs\n-old\n+new\n";
    let first = build_prompt(aggregate);
    let second = build_prompt(aggregate);
    assert_eq!(first, second);
    assert_eq!(first.as_bytes(), second.as_bytes());
}

#[test]
fn instruction_opens_every_prompt() {
    let prompt = build_prompt("whatever diff text");
    assert!(prompt.starts_with(INSTRUCTION));
    assert!(prompt.ends_with("whatever diff text"));
}
