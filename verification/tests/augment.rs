use reverie::augment::{augment_prompt_blocks, should_augment, user_text_from_prompt, PromptBlock};
use reverie::reverie_http::SmartContext;

fn text_block(s: &str) -> PromptBlock<u32> {
    PromptBlock::Text(s.to_string())
}

fn block_text(b: &PromptBlock<u32>) -> Option<String> {
    match b {
        PromptBlock::Text(t) => Some(t.to_string()),
        _ => None,
    }
}

#[test]
fn augment_prompt_blocks_prepends_memory_when_present() {
    let blocks = vec![text_block("hello")];
    let memory = Some(SmartContext { content: "- item 1".into() });
    let out = augment_prompt_blocks(blocks, memory);
    assert_eq!(out.len(), 2);
    assert_eq!(block_text(&out[0]).unwrap(), "Relevant memory:\n- item 1\n");
    assert_eq!(block_text(&out[1]).unwrap(), "hello");
}

#[test]
fn augment_prompt_blocks_passes_through_on_no_memory() {
    let blocks = vec![text_block("hello")];
    let out = augment_prompt_blocks(blocks, None);
    assert_eq!(out.len(), 1);
    assert_eq!(block_text(&out[0]).unwrap(), "hello");
}

#[test]
fn augment_prompt_blocks_skips_empty_memory() {
    let blocks = vec![text_block("hello")];
    let memory = Some(SmartContext { content: "   \n".into() });
    let out = augment_prompt_blocks(blocks, memory);
    assert_eq!(out.len(), 1, "whitespace-only memory should be skipped");
    assert_eq!(block_text(&out[0]).unwrap(), "hello");
}

#[test]
fn augment_keeps_other_blocks_in_place() {
    let blocks = vec![PromptBlock::Other(7u32), text_block("hi")];
    let out = augment_prompt_blocks(blocks, Some(SmartContext { content: "m".into() }));
    assert_eq!(out.len(), 3);
    assert!(matches!(out[1], PromptBlock::Other(7)));
    assert_eq!(block_text(&out[2]).unwrap(), "hi");
}

#[test]
fn user_text_joins_text_blocks_by_line() {
    let blocks = vec![
        text_block("first"),
        PromptBlock::Other(1u32),
        text_block("second"),
        text_block(""),
    ];
    assert_eq!(user_text_from_prompt(&blocks), "first\nsecond\n");
    let none: Vec<PromptBlock<u32>> = vec![PromptBlock::Other(2)];
    assert_eq!(user_text_from_prompt(&none), "");
    assert_eq!(user_text_from_prompt(&[text_block("only")]), "only");
}

#[test]
fn reverie_itself_is_not_augmented() {
    assert!(!should_augment("reverie"));
    assert!(should_augment("native-agent"));
    assert!(should_augment("Reverie"));
}
