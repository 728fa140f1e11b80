use vstd::prelude::*;
use crate::binding::{
    all_ok, group_transcript, lemma_all_ok_extend, lemma_queries_only_extend, lemma_stopped_extend,
    lemma_stopped_push, outstanding, queries_only, reply, reports, stopped_at_last, Entry,
    Native, NativeBinding, Reply, Role,
};
use crate::bounding_box::{raw_of, BoundingBox};
use crate::errors::{bad_output, check_call, OneOcrError};
use crate::handles::LineHandle;
use crate::ocr_word::{word_replies, OcrWord};

verus! {

broadcast use group_transcript;

/// A recognized line: its text and bounding box copied out of native memory, and, when
/// word-level detail was asked for, its words. The line handle is freed by the result that
/// owns the line, never by the line itself.
#[derive(Debug)]
pub struct OcrLine {
    pub line_handle: LineHandle,
    pub text: String,
    pub bounding_box: BoundingBox,
    pub words: Option<Vec<OcrWord>>,
}

/// The number of calls that copy out `l`.
pub open spec fn line_len(l: OcrLine) -> int {
    match l.words {
        Some(ws) => 3 + 4 * ws@.len() as int,
        None => 2int,
    }
}

/// `seg` is exactly the successful calls that copied out words `ws` of the line whose
/// handle has raw value `h`, in index order: for word `i`, `GetOcrWord(h, i)`, then the
/// three calls on the word handle that it handed out.
pub open spec fn words_walked(seg: Seq<Reply>, h: int, ws: Seq<OcrWord>) -> bool
    decreases ws.len(),
{
    if ws.len() == 0 {
        seg.len() == 0
    } else {
        let n = seg.len() as int;
        let i = ws.len() - 1;
        &&& n >= 4
        &&& seg[n - 4] == reply(Entry::GetOcrWord, 0, seq![h, i], seq![seg[n - 4].outs[0]])
        &&& seg.subrange(n - 3, n) == word_replies(seg[n - 4].outs[0], ws[i])
        &&& words_walked(seg.subrange(0, n - 4), h, ws.drop_last())
    }
}

pub proof fn lemma_words_walked_len(seg: Seq<Reply>, h: int, ws: Seq<OcrWord>)
    requires
        words_walked(seg, h, ws),
    ensures
        seg.len() == 4 * ws.len(),
    decreases ws.len(),
{
    if ws.len() > 0 {
        lemma_words_walked_len(seg.subrange(0, seg.len() - 4), h, ws.drop_last());
    }
}

/// `seg` is exactly the successful calls that copied out line `l` through its handle: its
/// content, its bounding box, then, when words were asked for, its word count and its
/// words.
pub open spec fn line_walked(seg: Seq<Reply>, l: OcrLine, word_level_detail: bool) -> bool {
    let h = l.line_handle.id() as int;
    &&& seg.len() >= 2
    &&& seg[0] == Reply {
        entry: Entry::GetOcrLineContent,
        status: 0,
        args: seq![h],
        outs: seq![],
        texts: seq![l.text@],
        bbox: None,
    }
    &&& seg[1] == Reply {
        entry: Entry::GetOcrLineBoundingBox,
        status: 0,
        args: seq![h],
        outs: seq![],
        texts: seq![],
        bbox: Some(raw_of(l.bounding_box)),
    }
    &&& (l.words is Some <==> word_level_detail)
    &&& match l.words {
        None => seg.len() == 2,
        Some(ws) => {
            &&& seg.len() >= 3
            &&& seg[2] == reply(Entry::GetOcrLineWordCount, 0, seq![h], seq![ws@.len() as int])
            &&& words_walked(seg.subrange(3, seg.len() as int), h, ws@)
        },
    }
}

pub proof fn lemma_line_walked_len(seg: Seq<Reply>, l: OcrLine, word_level_detail: bool)
    requires
        line_walked(seg, l, word_level_detail),
    ensures
        seg.len() == line_len(l),
{
    if let Some(ws) = l.words {
        lemma_words_walked_len(seg.subrange(3, seg.len() as int), l.line_handle.id() as int, ws@);
    }
}

impl OcrLine {
    /// Copies a line out of the native layer: its content and bounding box, then, if
    /// `word_level_detail` is set, its word count and each word in index order. Stops at
    /// the first call that fails.
    pub fn new<B: NativeBinding>(
        native: &mut Native<B>,
        line_handle: LineHandle,
        word_level_detail: bool,
    ) -> (r: Result<Self, OneOcrError>)
        ensures
            old(native).log().is_prefix_of(final(native).log()),
            queries_only(final(native).log(), old(native).log().len() as int),
            forall|role: Role|
                #[trigger] outstanding(final(native).log(), role) == outstanding(old(native).log(), role),
            r is Ok <==> all_ok(final(native).log(), old(native).log().len() as int),
            r matches Ok(l) ==> {
                &&& l.line_handle == line_handle
                &&& line_walked(
                    final(native).log().subrange(
                        old(native).log().len() as int,
                        final(native).log().len() as int,
                    ),
                    l,
                    word_level_detail,
                )
            },
            r matches Err(e) ==> stopped_at_last(
                final(native).log(),
                old(native).log().len() as int,
            ) && reports(e, final(native).log().last()),
    {
        let ghost start = native.log();
        let ghost s = start.len() as int;
        let ghost h = line_handle.id() as int;
        let (status, text) = native.get_ocr_line_content(&line_handle);
        if let Err(e) = check_call(status, "Failed to get line content") {
            proof { lemma_stopped_push(start, native.log().last(), s); }
            return Err(e);
        }
        let text = match text {
            Some(text) => text,
            None => {
                proof { lemma_stopped_push(start, native.log().last(), s); }
                return Err(bad_output("GetOcrLineContent returned a null pointer."));
            },
        };
        let ghost mid = native.log();
        let (status, bbox) = native.get_ocr_line_bounding_box(&line_handle);
        if let Err(e) = check_call(status, "Failed to get line bounding box") {
            proof { lemma_stopped_push(mid, native.log().last(), s); }
            return Err(e);
        }
        let raw = match bbox {
            Some(raw) => raw,
            None => {
                proof { lemma_stopped_push(mid, native.log().last(), s); }
                return Err(bad_output("GetOcrLineBoundingBox returned a null pointer."));
            },
        };
        let bounding_box = BoundingBox::new(raw);
        proof {
            crate::bounding_box::lemma_corner_mapping_bijective(raw, bounding_box);
        }
        if !word_level_detail {
            let line = OcrLine { line_handle, text, bounding_box, words: None };
            proof {
                let seg = native.log().subrange(s, native.log().len() as int);
                assert(seg[0] == native.log()[s]);
                assert(seg[1] == native.log()[s + 1]);
            }
            return Ok(line);
        }
        let ghost mid = native.log();
        let (status, word_count) = native.get_ocr_line_word_count(&line_handle);
        if let Err(e) = check_call(status, "Failed to get word count") {
            proof { lemma_stopped_push(mid, native.log().last(), s); }
            return Err(e);
        }
        if word_count < 0 {
            proof { lemma_stopped_push(mid, native.log().last(), s); }
            return Err(bad_output("GetOcrLineWordCount returned a negative count."));
        }
        let ghost head = native.log();
        let mut words: Vec<OcrWord> = Vec::new();
        let mut i: i64 = 0;
        while i < word_count
            invariant
                start == old(native).log(),
                s == start.len(),
                h == line_handle.id(),
                0 <= i <= word_count,
                words@.len() == i,
                head.len() == s + 3,
                start.is_prefix_of(head),
                head.is_prefix_of(native.log()),
                start.is_prefix_of(native.log()),
                forall|role: Role| #[trigger] outstanding(native.log(), role) == outstanding(start, role),
                all_ok(native.log(), s),
                queries_only(native.log(), s),
                head[s] == (Reply {
                    entry: Entry::GetOcrLineContent,
                    status: 0,
                    args: seq![h],
                    outs: seq![],
                    texts: seq![text@],
                    bbox: None,
                }),
                head[s + 1] == (Reply {
                    entry: Entry::GetOcrLineBoundingBox,
                    status: 0,
                    args: seq![h],
                    outs: seq![],
                    texts: seq![],
                    bbox: Some(raw),
                }),
                head[s + 2] == reply(Entry::GetOcrLineWordCount, 0, seq![h], seq![word_count as int]),
                words_walked(native.log().subrange(head.len() as int, native.log().len() as int), h, words@),
            decreases word_count - i,
        {
            let ghost before = native.log();
            let (status, word) = native.get_ocr_word(&line_handle, i);
            if let Err(e) = check_call(status, "Failed to get word") {
                proof { lemma_stopped_push(before, native.log().last(), s); }
                return Err(e);
            }
            let ghost mid = native.log();
            match OcrWord::new(native, &word) {
                Ok(w) => {
                    proof {
                        let log = native.log();
                        let seg = log.subrange(head.len() as int, log.len() as int);
                        let old_seg = before.subrange(head.len() as int, before.len() as int);
                        let n = seg.len() as int;
                        assert(seg.subrange(0, n - 4) =~= old_seg);
                        assert(seg[n - 4] == mid.last());
                        assert(seg.subrange(n - 3, n) =~= word_replies(word.id() as int, w));
                        assert(words@.push(w).drop_last() =~= words@);
                        lemma_all_ok_extend(mid, log, s);
                        lemma_queries_only_extend(mid, log, s);
                    }
                    words.push(w);
                },
                Err(e) => {
                    proof {
                        lemma_stopped_extend(mid, native.log(), s);
                        lemma_queries_only_extend(mid, native.log(), s);
                    }
                    return Err(e);
                },
            }
            i = i + 1;
        }
        let line = OcrLine { line_handle, text, bounding_box, words: Some(words) };
        proof {
            let log = native.log();
            let seg = log.subrange(s, log.len() as int);
            assert(seg[0] == head[s]);
            assert(seg[1] == head[s + 1]);
            assert(seg[2] == head[s + 2]);
            assert(seg.subrange(3, seg.len() as int) =~= log.subrange(head.len() as int, log.len() as int));
        }
        Ok(line)
    }

    /// Asks the native layer for this line's style. Returns whether the line is
    /// handwritten (style tag 0; any other tag, 1 being printed, gives `false`) and the bit
    /// pattern of the classification confidence. The line's handle is valid only while the
    /// result that owns the line is alive, which the borrow of `self` guarantees.
    pub fn get_line_style<B: NativeBinding>(&self, native: &mut Native<B>) -> (r: Result<
        (bool, u32),
        OneOcrError,
    >)
        ensures
            ({
                let rep = final(native).log().last();
                &&& final(native).log() == old(native).log().push(rep)
                &&& rep == reply(
                    Entry::GetOcrLineStyle,
                    rep.status,
                    seq![self.line_handle.id() as int],
                    rep.outs,
                )
                &&& rep.outs.len() == 2
                &&& rep.status == 0 ==> r == Ok::<(bool, u32), OneOcrError>(
                    (rep.outs[0] == 0, rep.outs[1] as u32),
                )
                &&& rep.status != 0 ==> (r matches Err(e) && reports(e, rep))
            }),
    {
        let (status, style, confidence) = native.get_ocr_line_style(&self.line_handle);
        if let Err(e) = check_call(status, "Failed to get OCR line style") {
            return Err(e);
        }
        Ok((style == 0, confidence))
    }
}

} // verus!
