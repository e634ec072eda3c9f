use harness::persona::persona_prompt;

#[test]
fn persona_locales_are_distinct_bounded_and_keep_core_identity() {
    let prompts = [
        persona_prompt("en"),
        persona_prompt("zh-CN"),
        persona_prompt("zh-TW"),
        persona_prompt("ja"),
    ];
    for prompt in prompts {
        assert!(prompt.contains("Kernary"));
        assert!(prompt.contains("<identity>"));
        assert!(prompt.contains("<collaboration>"));
        assert!(prompt.contains("<conversation>"));
        assert!(prompt.contains("<multi-agent>"));
        assert!(
            (900..=5_000).contains(&prompt.len()),
            "len={}",
            prompt.len()
        );
    }
    assert_ne!(prompts[0], prompts[1]);
    assert_ne!(prompts[1], prompts[2]);
    assert_ne!(prompts[2], prompts[3]);
    assert_eq!(persona_prompt("unknown"), persona_prompt("en"));
}
