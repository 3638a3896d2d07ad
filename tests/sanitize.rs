use vibe_api::sanitize::remove_markdown;

#[test]
fn strips_json_fence() {
    assert_eq!(remove_markdown("```json\n{\"a\":1}\n```"), "{\"a\":1}");
}

#[test]
fn leaves_unfenced_text() {
    assert_eq!(remove_markdown("{\"a\":1}"), "{\"a\":1}");
}

#[test]
fn strips_fence_without_tag() {
    assert_eq!(remove_markdown("```\n  [1, 2]  \n```"), "[1, 2]");
}

#[test]
fn takes_first_block_only() {
    assert_eq!(remove_markdown("intro ```json\n{}\n``` and ```\n[]\n```"), "{}");
}

#[test]
fn single_fence_is_left_alone() {
    assert_eq!(remove_markdown("```json\n{\"a\":1}"), "```json\n{\"a\":1}");
}

#[test]
fn empty_input_stays_empty() {
    assert_eq!(remove_markdown(""), "");
}

#[test]
fn empty_block_gives_empty_text() {
    assert_eq!(remove_markdown("``````"), "");
}
