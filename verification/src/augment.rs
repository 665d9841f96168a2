//! Memory augmentation of prompts sent to other agents, and reading the
//! user's text out of a prompt.

use vstd::prelude::*;

use crate::reverie_http::SmartContext;
use crate::server::REVERIE_AGENT_NAME;
use crate::text::{is_blank, push_str, str_eq, trim};

verus! {

/// One block of a prompt: text, or some other content (an image, a
/// resource, ...) that is passed along as it is.
#[derive(Debug)]
pub enum PromptBlock<B> {
    Text(String),
    Other(B),
}

/// The texts of the text blocks of `bs`, in order.
pub open spec fn block_texts<B>(bs: Seq<PromptBlock<B>>) -> Seq<Seq<char>>
    decreases bs.len(),
{
    if bs.len() == 0 {
        Seq::empty()
    } else {
        block_texts(bs.drop_last()) + match bs.last() {
            PromptBlock::Text(t) => seq![t@],
            PromptBlock::Other(_) => Seq::empty(),
        }
    }
}

/// `parts` joined with `sep` between neighbours.
pub open spec fn join(parts: Seq<Seq<char>>, sep: Seq<char>) -> Seq<char>
    decreases parts.len(),
{
    if parts.len() == 0 {
        Seq::empty()
    } else if parts.len() == 1 {
        parts[0]
    } else {
        join(parts.drop_last(), sep) + sep + parts.last()
    }
}

/// The texts of a prompt are those of its text blocks, in order, whatever
/// other blocks stand around them: a text block adds its text where it
/// stands, any other block adds nothing, and a prompt with no blocks has no
/// texts. This holds appending blocks at the end or putting them in front.
pub proof fn lemma_block_texts_keep_every_text<B>(bs: Seq<PromptBlock<B>>, t: String, b: B)
    ensures
        block_texts(Seq::<PromptBlock<B>>::empty()) == Seq::<Seq<char>>::empty(),
        block_texts(bs.push(PromptBlock::Text(t))) == block_texts(bs).push(t@),
        block_texts(bs.push(PromptBlock::Other(b))) == block_texts(bs),
        block_texts(seq![PromptBlock::Text(t)] + bs) == seq![t@] + block_texts(bs),
        block_texts(seq![PromptBlock::<B>::Other(b)] + bs) == block_texts(bs),
    decreases bs.len(),
{
    assert(bs.push(PromptBlock::Text(t)).drop_last() =~= bs);
    assert(bs.push(PromptBlock::Other(b)).drop_last() =~= bs);
    let front_t = seq![PromptBlock::Text(t)] + bs;
    let front_o = seq![PromptBlock::<B>::Other(b)] + bs;
    if bs.len() == 0 {
        assert(front_t.drop_last() =~= Seq::<PromptBlock<B>>::empty());
        assert(front_o.drop_last() =~= Seq::<PromptBlock<B>>::empty());
        assert(front_t.last() == PromptBlock::<B>::Text(t));
        assert(front_o.last() == PromptBlock::<B>::Other(b));
        assert(block_texts(front_t) == block_texts(front_t.drop_last()) + seq![t@]);
        assert(block_texts(front_o) == block_texts(front_o.drop_last()) + Seq::<Seq<char>>::empty());
        assert(Seq::<Seq<char>>::empty() + seq![t@] =~= seq![t@]);
        assert(seq![t@] + Seq::<Seq<char>>::empty() =~= seq![t@]);
        assert(Seq::<Seq<char>>::empty() + Seq::<Seq<char>>::empty() =~= Seq::<Seq<char>>::empty());
    } else {
        lemma_block_texts_keep_every_text(bs.drop_last(), t, b);
        assert(front_t.drop_last() =~= seq![PromptBlock::Text(t)] + bs.drop_last());
        assert(front_o.drop_last() =~= seq![PromptBlock::<B>::Other(b)] + bs.drop_last());
        assert(front_t.last() == bs.last());
        assert(front_o.last() == bs.last());
        let tail = match bs.last() {
            PromptBlock::Text(x) => seq![x@],
            PromptBlock::Other(_) => Seq::<Seq<char>>::empty(),
        };
        assert(block_texts(bs) == block_texts(bs.drop_last()) + tail);
        assert(block_texts(front_t) == block_texts(front_t.drop_last()) + tail);
        assert(block_texts(front_o) == block_texts(front_o.drop_last()) + tail);
        assert(seq![t@] + block_texts(bs.drop_last()) + tail =~= seq![t@] + (block_texts(
            bs.drop_last(),
        ) + tail));
    }
}

/// The text block that carries retrieved memory into a prompt.
pub open spec fn memory_block_text(memory: Seq<char>) -> Seq<char> {
    "Relevant memory:\n"@ + memory + "\n"@
}

/// The text of a prompt: its text blocks, one per line.
pub fn user_text_from_prompt<B>(blocks: &[PromptBlock<B>]) -> (r: String)
    ensures
        r@ == join(block_texts(blocks@), "\n"@),
{
    let mut out = String::new();
    let mut count: usize = 0;
    let mut i: usize = 0;
    while i < blocks.len()
        invariant
            i <= blocks@.len(),
            count == block_texts(blocks@.take(i as int)).len(),
            count <= i,
            out@ == join(block_texts(blocks@.take(i as int)), "\n"@),
        decreases blocks@.len() - i,
    {
        assert(blocks@.take(i as int + 1).drop_last() =~= blocks@.take(i as int));
        let ghost before = block_texts(blocks@.take(i as int));
        match &blocks[i] {
            PromptBlock::Text(t) => {
                if count > 0 {
                    push_str(&mut out, "\n");
                }
                push_str(&mut out, t.as_str());
                count = count + 1;
                assert(block_texts(blocks@.take(i as int + 1)) =~= before.push(t@));
                assert(before.push(t@).drop_last() =~= before);
            },
            PromptBlock::Other(_) => {
                assert(block_texts(blocks@.take(i as int + 1)) =~= before);
            },
        }
        i = i + 1;
    }
    assert(blocks@.take(blocks@.len() as int) =~= blocks@);
    out
}

/// Puts a "Relevant memory" text block in front of the prompt when there is
/// memory that is not blank; otherwise the prompt stays as it is.
pub fn augment_prompt_blocks<B>(blocks: Vec<PromptBlock<B>>, memory: Option<SmartContext>) -> (r:
    Vec<PromptBlock<B>>)
    ensures
        match memory {
            Some(m) => if trim(m.content@).len() > 0 {
                &&& r@.len() == blocks@.len() + 1
                &&& r@[0] matches PromptBlock::Text(t) && t@ == memory_block_text(m.content@)
                &&& r@.skip(1) == blocks@
            } else {
                r@ == blocks@
            },
            None => r@ == blocks@,
        },
{
    let mut blocks = blocks;
    let ghost orig = blocks@;
    if let Some(ctx) = memory {
        if !is_blank(ctx.content.as_str()) {
            let mut text = "Relevant memory:\n".to_owned();
            push_str(&mut text, ctx.content.as_str());
            push_str(&mut text, "\n");
            blocks.insert(0, PromptBlock::Text(text));
            assert(blocks@.skip(1) =~= orig);
        }
    }
    blocks
}

/// Whether prompts to the agent named `agent_id` get memory added: every
/// agent but the Reverie agent itself, which retrieves memory on its own.
pub fn should_augment(agent_id: &str) -> (r: bool)
    ensures
        r == (agent_id@ != REVERIE_AGENT_NAME@),
{
    !str_eq(agent_id, REVERIE_AGENT_NAME)
}

} // verus!
