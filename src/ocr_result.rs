use vstd::prelude::*;
use crate::binding::{
    all_ok, group_transcript, lemma_all_ok_extend, lemma_queries_only_extend, lemma_stopped_extend,
    lemma_stopped_push, outstanding, queries_only, reply, reports, stopped_at_last, Entry,
    Native, NativeBinding, Reply, Role,
};
use crate::errors::{bad_output, check_call, OneOcrError};
use crate::handles::ResultHandle;
use crate::ocr_line::{lemma_line_walked_len, line_len, line_walked, OcrLine};

verus! {

broadcast use group_transcript;

/// The outcome of one run: the native result handle, whose release this value owns, and
/// every line copied out of it.
#[derive(Debug)]
pub struct OcrResult {
    pub result_handle: ResultHandle,
    pub lines: Vec<OcrLine>,
    /// Bit pattern of the single-precision image angle.
    pub image_angle: u32,
}

/// `seg` is exactly the successful calls that copied out `lines` of the result whose
/// handle has raw value `h`, in index order: for line `i`, `GetOcrLine(h, i)`, then the
/// calls that copy out the line through the handle it handed out.
pub open spec fn lines_walked(seg: Seq<Reply>, h: int, lines: Seq<OcrLine>, word_level_detail: bool) -> bool
    decreases lines.len(),
{
    if lines.len() == 0 {
        seg.len() == 0
    } else {
        let n = seg.len() as int;
        let l = lines.last();
        let k = n - 1 - line_len(l);
        &&& k >= 0
        &&& seg[k] == reply(Entry::GetOcrLine, 0, seq![h, lines.len() - 1], seq![l.line_handle.id() as int])
        &&& line_walked(seg.subrange(k + 1, n), l, word_level_detail)
        &&& lines_walked(seg.subrange(0, k), h, lines.drop_last(), word_level_detail)
    }
}

/// `seg` is exactly the successful walk of the result whose handle has raw value `h`: its
/// line count, which is the number of lines, each line in index order, and last its image
/// angle.
pub open spec fn walked(
    seg: Seq<Reply>,
    h: int,
    lines: Seq<OcrLine>,
    image_angle: u32,
    word_level_detail: bool,
) -> bool {
    &&& seg.len() >= 2
    &&& seg[0] == reply(Entry::GetOcrLineCount, 0, seq![h], seq![lines.len() as int])
    &&& lines_walked(seg.subrange(1, seg.len() - 1), h, lines, word_level_detail)
    &&& seg.last() == reply(Entry::GetImageAngle, 0, seq![h], seq![image_angle as int])
}

impl OcrResult {
    /// Walks a native result: its line count, each line in index order, then the image
    /// angle. Stops at the first call that fails.
    fn walk<B: NativeBinding>(
        native: &mut Native<B>,
        result_handle: &ResultHandle,
        word_level_detail: bool,
    ) -> (r: Result<(Vec<OcrLine>, u32), OneOcrError>)
        ensures
            old(native).log().is_prefix_of(final(native).log()),
            queries_only(final(native).log(), old(native).log().len() as int),
            forall|role: Role|
                #[trigger] outstanding(final(native).log(), role) == outstanding(old(native).log(), role),
            r is Ok <==> all_ok(final(native).log(), old(native).log().len() as int),
            r matches Ok((lines, angle)) ==> walked(
                final(native).log().subrange(
                    old(native).log().len() as int,
                    final(native).log().len() as int,
                ),
                result_handle.id() as int,
                lines@,
                angle,
                word_level_detail,
            ),
            r matches Err(e) ==> stopped_at_last(
                final(native).log(),
                old(native).log().len() as int,
            ) && reports(e, final(native).log().last()),
    {
        let ghost start = native.log();
        let ghost s = start.len() as int;
        let ghost h = result_handle.id() as int;
        let (status, line_count) = native.get_ocr_line_count(result_handle);
        if let Err(e) = check_call(status, "Failed to get line count") {
            proof { lemma_stopped_push(start, native.log().last(), s); }
            return Err(e);
        }
        if line_count < 0 {
            proof { lemma_stopped_push(start, native.log().last(), s); }
            return Err(bad_output("GetOcrLineCount returned a negative count."));
        }
        let ghost head = native.log();
        let mut lines: Vec<OcrLine> = Vec::new();
        let mut i: i64 = 0;
        while i < line_count
            invariant
                start == old(native).log(),
                s == start.len(),
                h == result_handle.id(),
                0 <= i <= line_count,
                lines@.len() == i,
                head == start.push(reply(Entry::GetOcrLineCount, 0, seq![h], seq![line_count as int])),
                start.is_prefix_of(native.log()),
                head.is_prefix_of(native.log()),
                forall|role: Role| #[trigger] outstanding(native.log(), role) == outstanding(start, role),
                all_ok(native.log(), s),
                queries_only(native.log(), s),
                lines_walked(
                    native.log().subrange(head.len() as int, native.log().len() as int),
                    h,
                    lines@,
                    word_level_detail,
                ),
            decreases line_count - i,
        {
            let ghost before = native.log();
            let (status, line) = native.get_ocr_line(result_handle, i);
            if let Err(e) = check_call(status, "Failed to get line") {
                proof { lemma_stopped_push(before, native.log().last(), s); }
                return Err(e);
            }
            let ghost mid = native.log();
            let ghost line_id = line.id() as int;
            match OcrLine::new(native, line, word_level_detail) {
                Ok(l) => {
                    proof {
                        let log = native.log();
                        let seg = log.subrange(head.len() as int, log.len() as int);
                        let old_seg = before.subrange(head.len() as int, before.len() as int);
                        let line_seg = log.subrange(mid.len() as int, log.len() as int);
                        lemma_line_walked_len(line_seg, l, word_level_detail);
                        let n = seg.len() as int;
                        let k = n - 1 - line_len(l);
                        assert(k == old_seg.len());
                        assert(log.subrange(0, mid.len() as int)[before.len() as int] == log[before.len() as int]);
                        assert(log.subrange(0, mid.len() as int) =~= mid);
                        assert forall|j: int| 0 <= j < before.len() implies log[j] == before[j] by {
                            assert(log.subrange(0, mid.len() as int)[j] == log[j]);
                            assert(mid[j] == before[j]);
                        }
                        assert(seg.subrange(0, k) =~= old_seg);
                        assert(seg[k] == mid.last());
                        assert(seg.subrange(k + 1, n) =~= line_seg);
                        assert(lines@.push(l).drop_last() =~= lines@);
                        lemma_all_ok_extend(mid, log, s);
                        lemma_queries_only_extend(mid, log, s);
                    }
                    lines.push(l);
                },
                Err(e) => {
                    proof {
                        lemma_stopped_extend(mid, native.log(), s);
                        lemma_queries_only_extend(mid, native.log(), s);
                    }
                    return Err(e);
                },
            }
            i = i + 1;
        }
        let ghost before = native.log();
        let (status, angle) = native.get_image_angle(result_handle);
        if let Err(e) = check_call(status, "Failed to get image angle") {
            proof { lemma_stopped_push(before, native.log().last(), s); }
            return Err(e);
        }
        proof {
            let log = native.log();
            let seg = log.subrange(s, log.len() as int);
            assert(seg[0] == head[s]);
            assert(seg.subrange(1, seg.len() - 1) =~= before.subrange(head.len() as int, before.len() as int));
        }
        Ok((lines, angle))
    }

    /// Takes ownership of a native result and copies out its lines, with their words if
    /// `word_level_detail` is set, and its image angle. If any call fails, nothing is
    /// released here: the handle comes back with the error, for the caller to release.
    pub fn new<B: NativeBinding>(
        native: &mut Native<B>,
        result_handle: ResultHandle,
        word_level_detail: bool,
    ) -> (r: Result<Self, (OneOcrError, ResultHandle)>)
        ensures
            old(native).log().is_prefix_of(final(native).log()),
            queries_only(final(native).log(), old(native).log().len() as int),
            forall|role: Role|
                #[trigger] outstanding(final(native).log(), role) == outstanding(old(native).log(), role),
            r is Ok <==> all_ok(final(native).log(), old(native).log().len() as int),
            r matches Ok(res) ==> {
                &&& res.result_handle == result_handle
                &&& walked(
                    final(native).log().subrange(
                        old(native).log().len() as int,
                        final(native).log().len() as int,
                    ),
                    result_handle.id() as int,
                    res.lines@,
                    res.image_angle,
                    word_level_detail,
                )
            },
            r matches Err((e, h)) ==> {
                &&& h == result_handle
                &&& stopped_at_last(final(native).log(), old(native).log().len() as int)
                &&& reports(e, final(native).log().last())
            },
    {
        match Self::walk(native, &result_handle, word_level_detail) {
            Ok((lines, image_angle)) => Ok(OcrResult { result_handle, lines, image_angle }),
            Err(e) => Err((e, result_handle)),
        }
    }

    /// Releases the native result. The lines, whose handles die with it, go too.
    pub fn release<B: NativeBinding>(self, native: &mut Native<B>)
        ensures
            final(native).log() == old(native).log().push(
                reply(Entry::ReleaseOcrResult, 0, seq![self.result_handle.id() as int], seq![]),
            ),
            forall|role: Role| #[trigger]
                outstanding(final(native).log(), role) == outstanding(old(native).log(), role)
                    - if role is Result {
                    1int
                } else {
                    0int
                },
    {
        native.release_ocr_result(self.result_handle);
    }
}

} // verus!
