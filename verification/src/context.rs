//! Context compression: decides when the conversation view sent to the
//! reasoning backend must shrink, and how. Only the ephemeral view of one
//! reasoning call is ever replaced; the underlying history is never rewritten.

use vstd::prelude::*;
use crate::caps::ChatMessage;
use crate::error::CapabilityError;
use crate::types::{sat_add64, saturating_add64};

verus! {

/// Configuration of the compression trigger.
#[derive(Debug, Clone, Copy)]
pub struct CompressionConfig {
    /// Compress once the view holds more messages than this.
    pub trigger_len: usize,
    /// How many of the most recent messages a truncation keeps.
    pub keep_recent: usize,
}

impl Default for CompressionConfig {
    /// Compress views longer than 20 messages down to the leading message
    /// plus the 8 most recent ones.
    fn default() -> (r: CompressionConfig)
        ensures
            r.trigger_len == 20,
            r.keep_recent == 8,
    {
        CompressionConfig { trigger_len: 20, keep_recent: 8 }
    }
}

/// The replacement view a compression returns.
#[derive(Debug)]
pub struct CompressionResult {
    /// The replacement ordered message view.
    pub messages: Vec<ChatMessage>,
    /// How many entries were folded away.
    pub messages_compressed: usize,
    /// Estimated token count of the replacement view.
    pub estimated_tokens: u64,
}

/// The context-compression capability. The need check must not suspend;
/// the compression itself may fail, which aborts the iteration.
pub trait ContextCompressor {
    /// Whether this view needs compression under this configuration.
    fn needs_compression(&self, messages: &Vec<ChatMessage>, config: &CompressionConfig) -> bool;

    /// Produce the replacement view.
    fn compress(&self, messages: Vec<ChatMessage>, config: &CompressionConfig) -> Result<
        CompressionResult,
        CapabilityError,
    >;
}

/// A message's contribution to the token estimate: a quarter of its length.
pub open spec fn quarter_len(m: ChatMessage) -> u64 {
    let q = m.content@.len() as int / 4;
    if q <= u64::MAX {
        q as u64
    } else {
        u64::MAX
    }
}

/// Estimated token count of a message view: the saturating sum of each
/// message's contribution.
pub open spec fn estimated_tokens_of(s: Seq<ChatMessage>) -> u64
    decreases s.len(),
{
    if s.len() == 0 {
        0u64
    } else {
        sat_add64(estimated_tokens_of(s.drop_last()), quarter_len(s.last()))
    }
}

/// Estimate the token count of a message view.
pub fn estimate_tokens(messages: &Vec<ChatMessage>) -> (r: u64)
    ensures
        r == estimated_tokens_of(messages@),
{
    let n = messages.len();
    let mut acc: u64 = 0;
    let mut i: usize = 0;
    proof {
        assert(messages@.subrange(0, 0) =~= Seq::<ChatMessage>::empty());
    }
    while i < n
        invariant
            0 <= i <= n,
            n == messages@.len(),
            acc == estimated_tokens_of(messages@.subrange(0, i as int)),
        decreases n - i,
    {
        let len = messages[i].content.as_str().unicode_len();
        proof {
            let pre = messages@.subrange(0, i as int + 1);
            assert(pre.drop_last() =~= messages@.subrange(0, i as int));
            assert(pre.last() == messages@[i as int]);
        }
        acc = saturating_add64(acc, (len / 4) as u64);
        i = i + 1;
    }
    proof {
        assert(messages@.subrange(0, n as int) =~= messages@);
    }
    acc
}

/// The default compressor: keeps the leading message and the most recent
/// ones, folding everything between them away.
#[derive(Debug)]
pub struct TruncationCompressor {}

impl TruncationCompressor {
    /// A truncation compressor.
    pub fn new() -> (r: TruncationCompressor) {
        TruncationCompressor {  }
    }

    /// Whether the view is longer than the configured trigger.
    pub fn should_compress(&self, messages: &Vec<ChatMessage>, config: &CompressionConfig) -> (r:
        bool)
        ensures
            r == (messages@.len() > config.trigger_len),
    {
        messages.len() > config.trigger_len
    }

    /// Truncate the view: when it is longer than the leading message plus the
    /// configured recent window, keep exactly those; otherwise keep it whole.
    pub fn truncate(&self, messages: Vec<ChatMessage>, config: &CompressionConfig) -> (r:
        CompressionResult)
        ensures
            r.estimated_tokens == estimated_tokens_of(r.messages@),
            messages@.len() <= config.keep_recent + 1 ==> r.messages@ == messages@
                && r.messages_compressed == 0,
            messages@.len() > config.keep_recent + 1 ==> {
                &&& r.messages@.len() == config.keep_recent + 1
                &&& r.messages@[0].role@ == messages@[0].role@
                &&& r.messages@[0].content@ == messages@[0].content@
                &&& (forall|j: int|
                    1 <= j < r.messages@.len() ==> (#[trigger] r.messages@[j]).role@ == messages@[
                        messages@.len() - config.keep_recent + j - 1
                    ].role@ && r.messages@[j].content@ == messages@[
                        messages@.len() - config.keep_recent + j - 1
                    ].content@)
                &&& r.messages_compressed == messages@.len() - config.keep_recent - 1
            },
    {
        let n = messages.len();
        let keep = config.keep_recent;
        if n <= keep || n - keep < 2 {
            let est = estimate_tokens(&messages);
            return CompressionResult { messages, messages_compressed: 0, estimated_tokens: est };
        }
        let start = n - keep;
        let mut kept: Vec<ChatMessage> = Vec::new();
        kept.push(messages[0].clone());
        let mut j = start;
        while j < n
            invariant
                start <= j <= n,
                n == messages@.len(),
                start == n - keep,
                2 <= start,
                kept@.len() == 1 + j - start,
                kept@[0].role@ == messages@[0].role@,
                kept@[0].content@ == messages@[0].content@,
                forall|k: int|
                    1 <= k < kept@.len() ==> #[trigger] kept@[k].role@ == messages@[start + k
                        - 1].role@ && kept@[k].content@ == messages@[start + k - 1].content@,
            decreases n - j,
        {
            kept.push(messages[j].clone());
            j = j + 1;
        }
        let folded = n - keep - 1;
        let est = estimate_tokens(&kept);
        proof {
            assert(kept@.len() == keep + 1);
            assert(forall|j: int|
                1 <= j < kept@.len() ==> (#[trigger] kept@[j]).role@ == messages@[
                    messages@.len() - config.keep_recent + j - 1
                ].role@ && kept@[j].content@ == messages@[
                    messages@.len() - config.keep_recent + j - 1
                ].content@);
        }
        CompressionResult { messages: kept, messages_compressed: folded, estimated_tokens: est }
    }
}

impl ContextCompressor for TruncationCompressor {
    fn needs_compression(&self, messages: &Vec<ChatMessage>, config: &CompressionConfig) -> bool {
        self.should_compress(messages, config)
    }

    fn compress(&self, messages: Vec<ChatMessage>, config: &CompressionConfig) -> Result<
        CompressionResult,
        CapabilityError,
    > {
        Ok(self.truncate(messages, config))
    }
}

} // verus!
