use vstd::prelude::*;
use crate::binding::{
    all_ok, group_transcript, lemma_stopped_push, outstanding, queries_only, reply, reports,
    stopped_at_last, Entry, Native, NativeBinding, Reply, Role,
};
use crate::bounding_box::{raw_of, BoundingBox};
use crate::errors::{bad_output, check_call, OneOcrError};
use crate::handles::WordHandle;

verus! {

broadcast use group_transcript;

/// A recognized word, fully copied out of native memory; it holds no native handle.
#[derive(Debug)]
pub struct OcrWord {
    pub text: String,
    /// Bit pattern of the single-precision confidence score (0.0-1.0).
    pub confidence: u32,
    pub bounding_box: BoundingBox,
}

/// The successful calls that copy out word `w` through the word handle with raw value `h`:
/// its content, its bounding box, its confidence.
pub open spec fn word_replies(h: int, w: OcrWord) -> Seq<Reply> {
    seq![
        Reply {
            entry: Entry::GetOcrWordContent,
            status: 0,
            args: seq![h],
            outs: seq![],
            texts: seq![w.text@],
            bbox: None,
        },
        Reply {
            entry: Entry::GetOcrWordBoundingBox,
            status: 0,
            args: seq![h],
            outs: seq![],
            texts: seq![],
            bbox: Some(raw_of(w.bounding_box)),
        },
        reply(Entry::GetOcrWordConfidence, 0, seq![h], seq![w.confidence as int]),
    ]
}

/// The entry point of the call at position `k` when a word is copied out.
pub open spec fn word_entry(k: int) -> Entry {
    if k == 0 {
        Entry::GetOcrWordContent
    } else if k == 1 {
        Entry::GetOcrWordBoundingBox
    } else {
        Entry::GetOcrWordConfidence
    }
}

impl OcrWord {
    /// Copies a word out of the native layer: its content, its bounding box and its
    /// confidence, in that order, stopping at the first call that fails.
    pub fn new<B: NativeBinding>(native: &mut Native<B>, word_handle: &WordHandle) -> (r: Result<
        Self,
        OneOcrError,
    >)
        ensures
            old(native).log().is_prefix_of(final(native).log()),
            queries_only(final(native).log(), old(native).log().len() as int),
            forall|role: Role|
                #[trigger] outstanding(final(native).log(), role) == outstanding(old(native).log(), role),
            r is Ok <==> all_ok(final(native).log(), old(native).log().len() as int),
            r matches Ok(w) ==> final(native).log() == old(native).log() + word_replies(
                word_handle.id() as int,
                w,
            ),
            r matches Err(e) ==> {
                let log = final(native).log();
                let s = old(native).log().len() as int;
                &&& stopped_at_last(log, s)
                &&& reports(e, log.last())
                &&& log.len() <= s + 3
                &&& forall|k: int|
                    s <= k < log.len() ==> (#[trigger] log[k]).entry == word_entry(k - s)
                        && log[k].args == seq![word_handle.id() as int]
            },
    {
        let ghost start = native.log();
        let (status, text) = native.get_ocr_word_content(word_handle);
        if let Err(e) = check_call(status, "Failed to get word content") {
            proof { lemma_stopped_push(start, native.log().last(), start.len() as int); }
            return Err(e);
        }
        let text = match text {
            Some(text) => text,
            None => {
                proof { lemma_stopped_push(start, native.log().last(), start.len() as int); }
                return Err(bad_output("GetOcrWordContent returned a null pointer."));
            },
        };
        let ghost mid = native.log();
        let (status, bbox) = native.get_ocr_word_bounding_box(word_handle);
        if let Err(e) = check_call(status, "Failed to get word bounding box") {
            proof { lemma_stopped_push(mid, native.log().last(), start.len() as int); }
            return Err(e);
        }
        let raw = match bbox {
            Some(raw) => raw,
            None => {
                proof { lemma_stopped_push(mid, native.log().last(), start.len() as int); }
                return Err(bad_output("GetOcrWordBoundingBox returned a null pointer."));
            },
        };
        let bounding_box = BoundingBox::new(raw);
        let ghost mid = native.log();
        let (status, confidence) = native.get_ocr_word_confidence(word_handle);
        if let Err(e) = check_call(status, "Failed to get word confidence") {
            proof { lemma_stopped_push(mid, native.log().last(), start.len() as int); }
            return Err(e);
        }
        let w = OcrWord { text, confidence, bounding_box };
        proof {
            crate::bounding_box::lemma_corner_mapping_bijective(raw, bounding_box);
            assert(native.log() =~= start + word_replies(word_handle.id() as int, w));
        }
        Ok(w)
    }
}

} // verus!
