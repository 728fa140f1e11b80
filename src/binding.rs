use vstd::prelude::*;
use vstd::string::StringSliceAdditionalSpecFns;
use crate::bounding_box::RawBBox;
use crate::errors::{OneOcrError, BAD_OUTPUT};
use crate::handles::{
    InitOptionsHandle, LineHandle, PipelineHandle, ProcessOptionsHandle, ResultHandle, WordHandle,
};
use crate::image::ImageDescriptor;

verus! {

/// The native entry points, one per exported function.
pub enum Entry {
    CreateOcrInitOptions,
    OcrInitOptionsSetUseModelDelayLoad,
    CreateOcrPipeline,
    CreateOcrProcessOptions,
    OcrProcessOptionsGetMaxRecognitionLineCount,
    OcrProcessOptionsSetMaxRecognitionLineCount,
    OcrProcessOptionsGetResizeResolution,
    OcrProcessOptionsSetResizeResolution,
    RunOcrPipeline,
    GetImageAngle,
    GetOcrLineCount,
    GetOcrLine,
    GetOcrLineContent,
    GetOcrLineBoundingBox,
    GetOcrLineStyle,
    GetOcrLineWordCount,
    GetOcrWord,
    GetOcrWordContent,
    GetOcrWordBoundingBox,
    GetOcrWordConfidence,
    ReleaseOcrResult,
    ReleaseOcrInitOptions,
    ReleaseOcrPipeline,
    ReleaseOcrProcessOptions,
}

/// The kinds of native objects whose release is the library's duty.
pub enum Role {
    InitOptions,
    Pipeline,
    ProcessOptions,
    Result,
}

/// One native call as the library saw it: the entry point, the status it returned
/// (zero for the release calls, which return none), the integer arguments passed (handles
/// as their raw values, in parameter order), the integer outputs (handles too), the strings
/// passed or copied out (none for a null string), and the bounding box copied out.
pub struct Reply {
    pub entry: Entry,
    pub status: i32,
    pub args: Seq<int>,
    pub outs: Seq<int>,
    pub texts: Seq<Seq<char>>,
    pub bbox: Option<RawBBox>,
}

/// A reply with no string or bounding box.
pub open spec fn reply(entry: Entry, status: i32, args: Seq<int>, outs: Seq<int>) -> Reply {
    Reply { entry, status, args, outs, texts: Seq::empty(), bbox: None }
}

/// The strings a content call copied out: one, or none for a null pointer.
pub open spec fn copied(s: Option<String>) -> Seq<Seq<char>> {
    match s {
        Some(s) => seq![s@],
        None => Seq::empty(),
    }
}

/// The role of the object that a successful call of `e` creates.
pub open spec fn created_role(e: Entry) -> Option<Role> {
    match e {
        Entry::CreateOcrInitOptions => Some(Role::InitOptions),
        Entry::CreateOcrPipeline => Some(Role::Pipeline),
        Entry::CreateOcrProcessOptions => Some(Role::ProcessOptions),
        Entry::RunOcrPipeline => Some(Role::Result),
        _ => None,
    }
}

/// The role of the object that a call of `e` releases.
pub open spec fn released_role(e: Entry) -> Option<Role> {
    match e {
        Entry::ReleaseOcrInitOptions => Some(Role::InitOptions),
        Entry::ReleaseOcrPipeline => Some(Role::Pipeline),
        Entry::ReleaseOcrProcessOptions => Some(Role::ProcessOptions),
        Entry::ReleaseOcrResult => Some(Role::Result),
        _ => None,
    }
}

/// How one reply changes the number of outstanding objects of `role`.
pub open spec fn delta(r: Reply, role: Role) -> int {
    (if r.status == 0 && created_role(r.entry) == Some(role) {
        1int
    } else {
        0int
    }) - (if released_role(r.entry) == Some(role) {
        1int
    } else {
        0int
    })
}

/// Successful creations of `role` in `log` minus releases of `role` in `log`.
pub open spec fn outstanding(log: Seq<Reply>, role: Role) -> int
    decreases log.len(),
{
    if log.len() == 0 {
        0
    } else {
        outstanding(log.drop_last(), role) + delta(log.last(), role)
    }
}

pub broadcast proof fn lemma_outstanding_push(log: Seq<Reply>, r: Reply, role: Role)
    ensures
        #[trigger] outstanding(log.push(r), role) == outstanding(log, role) + delta(r, role),
{
    assert(log.push(r).drop_last() =~= log);
}

/// The entry points that report a number of lines or of words.
pub open spec fn is_count(e: Entry) -> bool {
    e is GetOcrLineCount || e is GetOcrLineWordCount
}

/// The entry points that hand out a bounding box.
pub open spec fn is_bbox(e: Entry) -> bool {
    e is GetOcrLineBoundingBox || e is GetOcrWordBoundingBox
}

/// The entry points that copy out a string.
pub open spec fn is_content(e: Entry) -> bool {
    e is GetOcrLineContent || e is GetOcrWordContent
}

/// The entry points that only read a result, its lines or its words.
pub open spec fn is_query(e: Entry) -> bool {
    ||| e is GetImageAngle
    ||| e is GetOcrLineCount
    ||| e is GetOcrLine
    ||| e is GetOcrLineContent
    ||| e is GetOcrLineBoundingBox
    ||| e is GetOcrLineStyle
    ||| e is GetOcrLineWordCount
    ||| e is GetOcrWord
    ||| e is GetOcrWordContent
    ||| e is GetOcrWordBoundingBox
    ||| e is GetOcrWordConfidence
}

/// Every call of `log` from index `from` on only reads.
pub open spec fn queries_only(log: Seq<Reply>, from: int) -> bool {
    forall|k: int| from <= k < log.len() ==> is_query(#[trigger] log[k].entry)
}

/// A reply that lets the enclosing operation go on: status zero, no negative count, no
/// missing bounding box.
pub open spec fn is_ok(r: Reply) -> bool {
    &&& r.status == 0
    &&& is_count(r.entry) ==> r.outs[0] >= 0
    &&& is_bbox(r.entry) ==> r.bbox is Some
    &&& is_content(r.entry) ==> r.texts.len() == 1
}

/// The code that the error for a reply that is not ok carries: its status, or
/// `BAD_OUTPUT` when the status was zero but an output was unusable.
pub open spec fn failure_code(r: Reply) -> i32 {
    if r.status != 0 {
        r.status
    } else {
        BAD_OUTPUT
    }
}

/// The fixed description of the operation that a failing call of `e` was doing.
pub open spec fn call_description(e: Entry) -> Seq<char> {
    match e {
        Entry::CreateOcrInitOptions => "Failed to create init options"@,
        Entry::OcrInitOptionsSetUseModelDelayLoad => "Failed to set model delay load"@,
        Entry::CreateOcrPipeline => "Failed to create OCR pipeline"@,
        Entry::CreateOcrProcessOptions => "Failed to create OCR process options"@,
        Entry::OcrProcessOptionsGetMaxRecognitionLineCount => "Failed to get max recognition line count"@,
        Entry::OcrProcessOptionsSetMaxRecognitionLineCount => "Failed to set max recognition line count"@,
        Entry::OcrProcessOptionsGetResizeResolution => "Failed to get resize resolution"@,
        Entry::OcrProcessOptionsSetResizeResolution => "Failed to set resize resolution"@,
        Entry::RunOcrPipeline => "Failed to run OCR pipeline"@,
        Entry::GetImageAngle => "Failed to get image angle"@,
        Entry::GetOcrLineCount => "Failed to get line count"@,
        Entry::GetOcrLine => "Failed to get line"@,
        Entry::GetOcrLineContent => "Failed to get line content"@,
        Entry::GetOcrLineBoundingBox => "Failed to get line bounding box"@,
        Entry::GetOcrLineStyle => "Failed to get OCR line style"@,
        Entry::GetOcrLineWordCount => "Failed to get word count"@,
        Entry::GetOcrWord => "Failed to get word"@,
        Entry::GetOcrWordContent => "Failed to get word content"@,
        Entry::GetOcrWordBoundingBox => "Failed to get word bounding box"@,
        Entry::GetOcrWordConfidence => "Failed to get word confidence"@,
        _ => Seq::empty(),
    }
}

/// The description of an unusable output of a call of `e` that reported success.
pub open spec fn bad_output_description(e: Entry) -> Seq<char> {
    match e {
        Entry::GetOcrLineCount => "GetOcrLineCount returned a negative count."@,
        Entry::GetOcrLineContent => "GetOcrLineContent returned a null pointer."@,
        Entry::GetOcrLineBoundingBox => "GetOcrLineBoundingBox returned a null pointer."@,
        Entry::GetOcrLineWordCount => "GetOcrLineWordCount returned a negative count."@,
        Entry::GetOcrWordContent => "GetOcrWordContent returned a null pointer."@,
        Entry::GetOcrWordBoundingBox => "GetOcrWordBoundingBox returned a null pointer."@,
        _ => Seq::empty(),
    }
}

/// The message that the error for a reply that is not ok carries.
pub open spec fn failure_message(r: Reply) -> Seq<char> {
    if r.status != 0 {
        call_description(r.entry)
    } else {
        bad_output_description(r.entry)
    }
}

/// `e` is the error that the failed reply `r` translates to.
pub open spec fn reports(e: OneOcrError, r: Reply) -> bool {
    e matches OneOcrError::OcrApiError { result, message } && result == failure_code(r)
        && message@ == failure_message(r)
}

/// The replies from index `from` on are all ok but for the last, which is not: the
/// enclosing operation stopped at its first failure.
pub open spec fn stopped_at_last(log: Seq<Reply>, from: int) -> bool {
    &&& from < log.len()
    &&& !is_ok(log.last())
    &&& forall|j: int| from <= j < log.len() - 1 ==> is_ok(#[trigger] log[j])
}

/// `log[k]` is the first reply from index `from` on that is not ok.
pub open spec fn first_failure(log: Seq<Reply>, from: int, k: int) -> bool {
    &&& from <= k < log.len()
    &&& !is_ok(log[k])
    &&& forall|j: int| from <= j < k ==> is_ok(#[trigger] log[j])
}

/// Every reply of `log` from index `from` on is ok.
pub open spec fn all_ok(log: Seq<Reply>, from: int) -> bool {
    forall|k: int| from <= k < log.len() ==> is_ok(#[trigger] log[k])
}

/// Whether a string's bytes hold a NUL, which a C-style string cannot carry.
pub open spec fn has_nul(bytes: Seq<u8>) -> bool {
    bytes.contains(0u8)
}

pub broadcast proof fn lemma_prefix_push(earlier: Seq<Reply>, log: Seq<Reply>, r: Reply)
    requires
        earlier.is_prefix_of(log),
    ensures
        #[trigger] earlier.is_prefix_of(log.push(r)),
{
    assert(earlier =~= log.push(r).subrange(0, earlier.len() as int));
}

pub broadcast proof fn lemma_all_ok_push(log: Seq<Reply>, from: int, r: Reply)
    requires
        0 <= from <= log.len(),
    ensures
        #[trigger] all_ok(log.push(r), from) <==> (all_ok(log, from) && is_ok(r)),
{
    let l = log.push(r);
    if all_ok(l, from) {
        assert(is_ok(l[log.len() as int]));
        assert forall|k: int| from <= k < log.len() implies is_ok(#[trigger] log[k]) by {
            assert(is_ok(l[k]));
        }
    }
}

/// The outstanding count of a transcript is the sum over its parts.
pub proof fn lemma_outstanding_concat(a: Seq<Reply>, b: Seq<Reply>, role: Role)
    ensures
        outstanding(a + b, role) == outstanding(a, role) + outstanding(b, role),
    decreases b.len(),
{
    if b.len() == 0 {
        assert(a + b =~= a);
    } else {
        lemma_outstanding_concat(a, b.drop_last(), role);
        assert((a + b).drop_last() =~= a + b.drop_last());
        assert((a + b).last() == b.last());
    }
}

/// Replies that were ok before a call and ok during it are ok together.
pub proof fn lemma_all_ok_extend(a: Seq<Reply>, b: Seq<Reply>, from: int)
    requires
        0 <= from <= a.len(),
        a.is_prefix_of(b),
        all_ok(a, from),
        all_ok(b, a.len() as int),
    ensures
        all_ok(b, from),
{
    assert forall|k: int| from <= k < b.len() implies is_ok(#[trigger] b[k]) by {
        if k < a.len() {
            assert(b.subrange(0, a.len() as int)[k] == b[k]);
            assert(is_ok(a[k]));
        }
    }
}

/// A call that failed after calls that were all ok is the first failure of every
/// transcript that goes on from it.
pub proof fn lemma_first_failure(before: Seq<Reply>, r: Reply, after: Seq<Reply>, from: int)
    requires
        0 <= from <= before.len(),
        all_ok(before, from),
        !is_ok(r),
        before.push(r).is_prefix_of(after),
    ensures
        first_failure(after, from, before.len() as int),
        after[before.len() as int] == r,
{
    let failed = before.push(r);
    assert(after.subrange(0, failed.len() as int)[before.len() as int] == after[before.len() as int]);
    assert forall|j: int| from <= j < before.len() implies is_ok(#[trigger] after[j]) by {
        assert(after.subrange(0, failed.len() as int)[j] == after[j]);
        assert(failed[j] == before[j]);
    }
}

pub broadcast proof fn lemma_queries_only_push(log: Seq<Reply>, from: int, r: Reply)
    requires
        0 <= from <= log.len(),
    ensures
        #[trigger] queries_only(log.push(r), from) <==> (queries_only(log, from) && is_query(r.entry)),
{
    let l = log.push(r);
    if queries_only(l, from) {
        assert(is_query(l[log.len() as int].entry));
        assert forall|k: int| from <= k < log.len() implies is_query(#[trigger] log[k].entry) by {
            assert(is_query(l[k].entry));
        }
    }
}

/// Calls that only read before a call and during it only read together.
pub proof fn lemma_queries_only_extend(a: Seq<Reply>, b: Seq<Reply>, from: int)
    requires
        0 <= from <= a.len(),
        a.is_prefix_of(b),
        queries_only(a, from),
        queries_only(b, a.len() as int),
    ensures
        queries_only(b, from),
{
    assert forall|k: int| from <= k < b.len() implies is_query(#[trigger] b[k].entry) by {
        if k < a.len() {
            assert(b.subrange(0, a.len() as int)[k] == b[k]);
            assert(is_query(a[k].entry));
        }
    }
}

/// A failure after calls that were all ok is where the enclosing operation stopped.
pub proof fn lemma_stopped_push(before: Seq<Reply>, r: Reply, from: int)
    requires
        0 <= from <= before.len(),
        all_ok(before, from),
        !is_ok(r),
    ensures
        stopped_at_last(before.push(r), from),
{
    let l = before.push(r);
    assert forall|j: int| from <= j < l.len() - 1 implies is_ok(#[trigger] l[j]) by {
        assert(l[j] == before[j]);
    }
}

/// An inner operation that stopped at its first failure, after calls that were all ok,
/// stops the enclosing one there too.
pub proof fn lemma_stopped_extend(a: Seq<Reply>, b: Seq<Reply>, from: int)
    requires
        0 <= from <= a.len(),
        a.is_prefix_of(b),
        all_ok(a, from),
        stopped_at_last(b, a.len() as int),
    ensures
        stopped_at_last(b, from),
{
    assert forall|j: int| from <= j < b.len() - 1 implies is_ok(#[trigger] b[j]) by {
        if j < a.len() {
            assert(b.subrange(0, a.len() as int)[j] == b[j]);
            assert(is_ok(a[j]));
        }
    }
}

pub broadcast group group_transcript {
    lemma_outstanding_push,
    lemma_queries_only_push,
    lemma_prefix_push,
    lemma_all_ok_push,
}

/// The native entry points, one method each. Each returns the entry point's status (zero
/// for success) with its outputs; an output is meaningful only when the status is zero.
/// Strings are returned already copied out of native memory and bounding boxes by value,
/// each with `None` for a null pointer; floats are returned as their bit patterns.
pub trait NativeBinding {
    fn create_ocr_init_options(&mut self) -> (i32, InitOptionsHandle);

    fn ocr_init_options_set_use_model_delay_load(
        &mut self,
        init_options: &InitOptionsHandle,
        delay_load: bool,
    ) -> i32;

    fn create_ocr_pipeline(
        &mut self,
        model_path: &str,
        key: &str,
        init_options: &InitOptionsHandle,
    ) -> (i32, PipelineHandle)
        requires
            !has_nul(model_path.spec_bytes()),
            !has_nul(key.spec_bytes()),
    ;

    fn create_ocr_process_options(&mut self) -> (i32, ProcessOptionsHandle);

    fn ocr_process_options_get_max_recognition_line_count(
        &mut self,
        process_options: &ProcessOptionsHandle,
    ) -> (i32, i32);

    fn ocr_process_options_set_max_recognition_line_count(
        &mut self,
        process_options: &ProcessOptionsHandle,
        count: i32,
    ) -> i32;

    fn ocr_process_options_get_resize_resolution(
        &mut self,
        process_options: &ProcessOptionsHandle,
    ) -> (i32, i64, i64);

    fn ocr_process_options_set_resize_resolution(
        &mut self,
        process_options: &ProcessOptionsHandle,
        width: i32,
        height: i32,
    ) -> i32;

    /// `image` describes `pixels`, whose address the binding passes as the data address.
    fn run_ocr_pipeline(
        &mut self,
        pipeline: &PipelineHandle,
        image: &ImageDescriptor,
        pixels: &[u8],
        process_options: &ProcessOptionsHandle,
    ) -> (i32, ResultHandle)
        requires
            0 <= image.cols,
            0 <= image.rows,
            4 * image.cols <= image.step,
            pixels@.len() == image.step * image.rows,
    ;

    fn get_image_angle(&mut self, result: &ResultHandle) -> (i32, u32);

    fn get_ocr_line_count(&mut self, result: &ResultHandle) -> (i32, i64);

    fn get_ocr_line(&mut self, result: &ResultHandle, index: i64) -> (i32, LineHandle);

    fn get_ocr_line_content(&mut self, line: &LineHandle) -> (i32, Option<String>);

    fn get_ocr_line_bounding_box(&mut self, line: &LineHandle) -> (i32, Option<RawBBox>);

    fn get_ocr_line_style(&mut self, line: &LineHandle) -> (i32, i32, u32);

    fn get_ocr_line_word_count(&mut self, line: &LineHandle) -> (i32, i64);

    fn get_ocr_word(&mut self, line: &LineHandle, index: i64) -> (i32, WordHandle);

    fn get_ocr_word_content(&mut self, word: &WordHandle) -> (i32, Option<String>);

    fn get_ocr_word_bounding_box(&mut self, word: &WordHandle) -> (i32, Option<RawBBox>);

    fn get_ocr_word_confidence(&mut self, word: &WordHandle) -> (i32, u32);

    fn release_ocr_result(&mut self, result: ResultHandle);

    fn release_ocr_init_options(&mut self, init_options: InitOptionsHandle);

    fn release_ocr_pipeline(&mut self, pipeline: PipelineHandle);

    fn release_ocr_process_options(&mut self, process_options: ProcessOptionsHandle);
}

/// A binding together with the ghost transcript of every call made through it.
pub struct Native<B: NativeBinding> {
    binding: B,
    log: Ghost<Seq<Reply>>,
}

impl<B: NativeBinding> Native<B> {
    /// The replies of all calls made so far, in order.
    pub closed spec fn log(&self) -> Seq<Reply> {
        self.log@
    }

    /// The binding that the calls go to.
    pub closed spec fn spec_binding(&self) -> B {
        self.binding
    }

    /// Objects of `role` created and not yet released.
    pub open spec fn outstanding(&self, role: Role) -> int {
        outstanding(self.log(), role)
    }

    /// Wraps a binding through which no call has been made yet.
    pub fn new(binding: B) -> (r: Self)
        ensures
            r.log() == Seq::<Reply>::empty(),
            r.spec_binding() == binding,
    {
        Native { binding, log: Ghost(Seq::empty()) }
    }

    pub fn binding(&self) -> (r: &B)
        ensures
            *r == self.spec_binding(),
    {
        &self.binding
    }

    pub fn into_binding(self) -> (r: B)
        ensures
            r == self.spec_binding(),
    {
        self.binding
    }

    pub fn create_ocr_init_options(&mut self) -> (r: (i32, InitOptionsHandle))
        ensures
            final(self).log() == old(self).log().push(Reply { entry: Entry::CreateOcrInitOptions, status: r.0, args: seq![], outs: seq![r.1.id() as int], texts: Seq::empty(), bbox: None }),
    {
        let r = self.binding.create_ocr_init_options();
        self.log = Ghost(self.log@.push(Reply { entry: Entry::CreateOcrInitOptions, status: r.0, args: seq![], outs: seq![r.1.id() as int], texts: Seq::empty(), bbox: None }));
        r
    }

    pub fn ocr_init_options_set_use_model_delay_load(&mut self, init_options: &InitOptionsHandle, delay_load: bool) -> (r: i32)
        ensures
            final(self).log() == old(self).log().push(Reply { entry: Entry::OcrInitOptionsSetUseModelDelayLoad, status: r, args: seq![init_options.id() as int, if delay_load { 1int } else { 0int }], outs: seq![], texts: Seq::empty(), bbox: None }),
    {
        let r = self.binding.ocr_init_options_set_use_model_delay_load(init_options, delay_load);
        self.log = Ghost(self.log@.push(Reply { entry: Entry::OcrInitOptionsSetUseModelDelayLoad, status: r, args: seq![init_options.id() as int, if delay_load { 1int } else { 0int }], outs: seq![], texts: Seq::empty(), bbox: None }));
        r
    }

    pub fn create_ocr_pipeline(&mut self, model_path: &str, key: &str, init_options: &InitOptionsHandle) -> (r: (i32, PipelineHandle))
        requires
            !has_nul(model_path.spec_bytes()),
            !has_nul(key.spec_bytes()),
        ensures
            final(self).log() == old(self).log().push(Reply { entry: Entry::CreateOcrPipeline, status: r.0, args: seq![init_options.id() as int], outs: seq![r.1.id() as int], texts: seq![model_path@, key@], bbox: None }),
    {
        let r = self.binding.create_ocr_pipeline(model_path, key, init_options);
        self.log = Ghost(self.log@.push(Reply { entry: Entry::CreateOcrPipeline, status: r.0, args: seq![init_options.id() as int], outs: seq![r.1.id() as int], texts: seq![model_path@, key@], bbox: None }));
        r
    }

    pub fn create_ocr_process_options(&mut self) -> (r: (i32, ProcessOptionsHandle))
        ensures
            final(self).log() == old(self).log().push(Reply { entry: Entry::CreateOcrProcessOptions, status: r.0, args: seq![], outs: seq![r.1.id() as int], texts: Seq::empty(), bbox: None }),
    {
        let r = self.binding.create_ocr_process_options();
        self.log = Ghost(self.log@.push(Reply { entry: Entry::CreateOcrProcessOptions, status: r.0, args: seq![], outs: seq![r.1.id() as int], texts: Seq::empty(), bbox: None }));
        r
    }

    pub fn ocr_process_options_get_max_recognition_line_count(&mut self, process_options: &ProcessOptionsHandle) -> (r: (i32, i32))
        ensures
            final(self).log() == old(self).log().push(Reply { entry: Entry::OcrProcessOptionsGetMaxRecognitionLineCount, status: r.0, args: seq![process_options.id() as int], outs: seq![r.1 as int], texts: Seq::empty(), bbox: None }),
    {
        let r = self.binding.ocr_process_options_get_max_recognition_line_count(process_options);
        self.log = Ghost(self.log@.push(Reply { entry: Entry::OcrProcessOptionsGetMaxRecognitionLineCount, status: r.0, args: seq![process_options.id() as int], outs: seq![r.1 as int], texts: Seq::empty(), bbox: None }));
        r
    }

    pub fn ocr_process_options_set_max_recognition_line_count(&mut self, process_options: &ProcessOptionsHandle, count: i32) -> (r: i32)
        ensures
            final(self).log() == old(self).log().push(Reply { entry: Entry::OcrProcessOptionsSetMaxRecognitionLineCount, status: r, args: seq![process_options.id() as int, count as int], outs: seq![], texts: Seq::empty(), bbox: None }),
    {
        let r = self.binding.ocr_process_options_set_max_recognition_line_count(process_options, count);
        self.log = Ghost(self.log@.push(Reply { entry: Entry::OcrProcessOptionsSetMaxRecognitionLineCount, status: r, args: seq![process_options.id() as int, count as int], outs: seq![], texts: Seq::empty(), bbox: None }));
        r
    }

    pub fn ocr_process_options_get_resize_resolution(&mut self, process_options: &ProcessOptionsHandle) -> (r: (i32, i64, i64))
        ensures
            final(self).log() == old(self).log().push(Reply { entry: Entry::OcrProcessOptionsGetResizeResolution, status: r.0, args: seq![process_options.id() as int], outs: seq![r.1 as int, r.2 as int], texts: Seq::empty(), bbox: None }),
    {
        let r = self.binding.ocr_process_options_get_resize_resolution(process_options);
        self.log = Ghost(self.log@.push(Reply { entry: Entry::OcrProcessOptionsGetResizeResolution, status: r.0, args: seq![process_options.id() as int], outs: seq![r.1 as int, r.2 as int], texts: Seq::empty(), bbox: None }));
        r
    }

    pub fn ocr_process_options_set_resize_resolution(&mut self, process_options: &ProcessOptionsHandle, width: i32, height: i32) -> (r: i32)
        ensures
            final(self).log() == old(self).log().push(Reply { entry: Entry::OcrProcessOptionsSetResizeResolution, status: r, args: seq![process_options.id() as int, width as int, height as int], outs: seq![], texts: Seq::empty(), bbox: None }),
    {
        let r = self.binding.ocr_process_options_set_resize_resolution(process_options, width, height);
        self.log = Ghost(self.log@.push(Reply { entry: Entry::OcrProcessOptionsSetResizeResolution, status: r, args: seq![process_options.id() as int, width as int, height as int], outs: seq![], texts: Seq::empty(), bbox: None }));
        r
    }

    pub fn run_ocr_pipeline(&mut self, pipeline: &PipelineHandle, image: &ImageDescriptor, pixels: &[u8], process_options: &ProcessOptionsHandle) -> (r: (i32, ResultHandle))
        requires
            0 <= image.cols,
            0 <= image.rows,
            4 * image.cols <= image.step,
            pixels@.len() == image.step * image.rows,
        ensures
            final(self).log() == old(self).log().push(Reply { entry: Entry::RunOcrPipeline, status: r.0, args: seq![pipeline.id() as int, image.kind as int, image.cols as int, image.rows as int, image.reserved as int, image.step as int, process_options.id() as int], outs: seq![r.1.id() as int], texts: Seq::empty(), bbox: None }),
    {
        let r = self.binding.run_ocr_pipeline(pipeline, image, pixels, process_options);
        self.log = Ghost(self.log@.push(Reply { entry: Entry::RunOcrPipeline, status: r.0, args: seq![pipeline.id() as int, image.kind as int, image.cols as int, image.rows as int, image.reserved as int, image.step as int, process_options.id() as int], outs: seq![r.1.id() as int], texts: Seq::empty(), bbox: None }));
        r
    }

    pub fn get_image_angle(&mut self, result: &ResultHandle) -> (r: (i32, u32))
        ensures
            final(self).log() == old(self).log().push(Reply { entry: Entry::GetImageAngle, status: r.0, args: seq![result.id() as int], outs: seq![r.1 as int], texts: Seq::empty(), bbox: None }),
    {
        let r = self.binding.get_image_angle(result);
        self.log = Ghost(self.log@.push(Reply { entry: Entry::GetImageAngle, status: r.0, args: seq![result.id() as int], outs: seq![r.1 as int], texts: Seq::empty(), bbox: None }));
        r
    }

    pub fn get_ocr_line_count(&mut self, result: &ResultHandle) -> (r: (i32, i64))
        ensures
            final(self).log() == old(self).log().push(Reply { entry: Entry::GetOcrLineCount, status: r.0, args: seq![result.id() as int], outs: seq![r.1 as int], texts: Seq::empty(), bbox: None }),
    {
        let r = self.binding.get_ocr_line_count(result);
        self.log = Ghost(self.log@.push(Reply { entry: Entry::GetOcrLineCount, status: r.0, args: seq![result.id() as int], outs: seq![r.1 as int], texts: Seq::empty(), bbox: None }));
        r
    }

    pub fn get_ocr_line(&mut self, result: &ResultHandle, index: i64) -> (r: (i32, LineHandle))
        ensures
            final(self).log() == old(self).log().push(Reply { entry: Entry::GetOcrLine, status: r.0, args: seq![result.id() as int, index as int], outs: seq![r.1.id() as int], texts: Seq::empty(), bbox: None }),
    {
        let r = self.binding.get_ocr_line(result, index);
        self.log = Ghost(self.log@.push(Reply { entry: Entry::GetOcrLine, status: r.0, args: seq![result.id() as int, index as int], outs: seq![r.1.id() as int], texts: Seq::empty(), bbox: None }));
        r
    }

    pub fn get_ocr_line_content(&mut self, line: &LineHandle) -> (r: (i32, Option<String>))
        ensures
            final(self).log() == old(self).log().push(Reply { entry: Entry::GetOcrLineContent, status: r.0, args: seq![line.id() as int], outs: seq![], texts: copied(r.1), bbox: None }),
    {
        let r = self.binding.get_ocr_line_content(line);
        self.log = Ghost(self.log@.push(Reply { entry: Entry::GetOcrLineContent, status: r.0, args: seq![line.id() as int], outs: seq![], texts: copied(r.1), bbox: None }));
        r
    }

    pub fn get_ocr_line_bounding_box(&mut self, line: &LineHandle) -> (r: (i32, Option<RawBBox>))
        ensures
            final(self).log() == old(self).log().push(Reply { entry: Entry::GetOcrLineBoundingBox, status: r.0, args: seq![line.id() as int], outs: seq![], texts: Seq::empty(), bbox: r.1 }),
    {
        let r = self.binding.get_ocr_line_bounding_box(line);
        self.log = Ghost(self.log@.push(Reply { entry: Entry::GetOcrLineBoundingBox, status: r.0, args: seq![line.id() as int], outs: seq![], texts: Seq::empty(), bbox: r.1 }));
        r
    }

    pub fn get_ocr_line_style(&mut self, line: &LineHandle) -> (r: (i32, i32, u32))
        ensures
            final(self).log() == old(self).log().push(Reply { entry: Entry::GetOcrLineStyle, status: r.0, args: seq![line.id() as int], outs: seq![r.1 as int, r.2 as int], texts: Seq::empty(), bbox: None }),
    {
        let r = self.binding.get_ocr_line_style(line);
        self.log = Ghost(self.log@.push(Reply { entry: Entry::GetOcrLineStyle, status: r.0, args: seq![line.id() as int], outs: seq![r.1 as int, r.2 as int], texts: Seq::empty(), bbox: None }));
        r
    }

    pub fn get_ocr_line_word_count(&mut self, line: &LineHandle) -> (r: (i32, i64))
        ensures
            final(self).log() == old(self).log().push(Reply { entry: Entry::GetOcrLineWordCount, status: r.0, args: seq![line.id() as int], outs: seq![r.1 as int], texts: Seq::empty(), bbox: None }),
    {
        let r = self.binding.get_ocr_line_word_count(line);
        self.log = Ghost(self.log@.push(Reply { entry: Entry::GetOcrLineWordCount, status: r.0, args: seq![line.id() as int], outs: seq![r.1 as int], texts: Seq::empty(), bbox: None }));
        r
    }

    pub fn get_ocr_word(&mut self, line: &LineHandle, index: i64) -> (r: (i32, WordHandle))
        ensures
            final(self).log() == old(self).log().push(Reply { entry: Entry::GetOcrWord, status: r.0, args: seq![line.id() as int, index as int], outs: seq![r.1.id() as int], texts: Seq::empty(), bbox: None }),
    {
        let r = self.binding.get_ocr_word(line, index);
        self.log = Ghost(self.log@.push(Reply { entry: Entry::GetOcrWord, status: r.0, args: seq![line.id() as int, index as int], outs: seq![r.1.id() as int], texts: Seq::empty(), bbox: None }));
        r
    }

    pub fn get_ocr_word_content(&mut self, word: &WordHandle) -> (r: (i32, Option<String>))
        ensures
            final(self).log() == old(self).log().push(Reply { entry: Entry::GetOcrWordContent, status: r.0, args: seq![word.id() as int], outs: seq![], texts: copied(r.1), bbox: None }),
    {
        let r = self.binding.get_ocr_word_content(word);
        self.log = Ghost(self.log@.push(Reply { entry: Entry::GetOcrWordContent, status: r.0, args: seq![word.id() as int], outs: seq![], texts: copied(r.1), bbox: None }));
        r
    }

    pub fn get_ocr_word_bounding_box(&mut self, word: &WordHandle) -> (r: (i32, Option<RawBBox>))
        ensures
            final(self).log() == old(self).log().push(Reply { entry: Entry::GetOcrWordBoundingBox, status: r.0, args: seq![word.id() as int], outs: seq![], texts: Seq::empty(), bbox: r.1 }),
    {
        let r = self.binding.get_ocr_word_bounding_box(word);
        self.log = Ghost(self.log@.push(Reply { entry: Entry::GetOcrWordBoundingBox, status: r.0, args: seq![word.id() as int], outs: seq![], texts: Seq::empty(), bbox: r.1 }));
        r
    }

    pub fn get_ocr_word_confidence(&mut self, word: &WordHandle) -> (r: (i32, u32))
        ensures
            final(self).log() == old(self).log().push(Reply { entry: Entry::GetOcrWordConfidence, status: r.0, args: seq![word.id() as int], outs: seq![r.1 as int], texts: Seq::empty(), bbox: None }),
    {
        let r = self.binding.get_ocr_word_confidence(word);
        self.log = Ghost(self.log@.push(Reply { entry: Entry::GetOcrWordConfidence, status: r.0, args: seq![word.id() as int], outs: seq![r.1 as int], texts: Seq::empty(), bbox: None }));
        r
    }

    pub fn release_ocr_result(&mut self, result: ResultHandle)
        ensures
            final(self).log() == old(self).log().push(Reply { entry: Entry::ReleaseOcrResult, status: 0, args: seq![result.id() as int], outs: seq![], texts: Seq::empty(), bbox: None }),
    {
        self.binding.release_ocr_result(result);
        self.log = Ghost(self.log@.push(Reply { entry: Entry::ReleaseOcrResult, status: 0, args: seq![result.id() as int], outs: seq![], texts: Seq::empty(), bbox: None }));
    }

    pub fn release_ocr_init_options(&mut self, init_options: InitOptionsHandle)
        ensures
            final(self).log() == old(self).log().push(Reply { entry: Entry::ReleaseOcrInitOptions, status: 0, args: seq![init_options.id() as int], outs: seq![], texts: Seq::empty(), bbox: None }),
    {
        self.binding.release_ocr_init_options(init_options);
        self.log = Ghost(self.log@.push(Reply { entry: Entry::ReleaseOcrInitOptions, status: 0, args: seq![init_options.id() as int], outs: seq![], texts: Seq::empty(), bbox: None }));
    }

    pub fn release_ocr_pipeline(&mut self, pipeline: PipelineHandle)
        ensures
            final(self).log() == old(self).log().push(Reply { entry: Entry::ReleaseOcrPipeline, status: 0, args: seq![pipeline.id() as int], outs: seq![], texts: Seq::empty(), bbox: None }),
    {
        self.binding.release_ocr_pipeline(pipeline);
        self.log = Ghost(self.log@.push(Reply { entry: Entry::ReleaseOcrPipeline, status: 0, args: seq![pipeline.id() as int], outs: seq![], texts: Seq::empty(), bbox: None }));
    }

    pub fn release_ocr_process_options(&mut self, process_options: ProcessOptionsHandle)
        ensures
            final(self).log() == old(self).log().push(Reply { entry: Entry::ReleaseOcrProcessOptions, status: 0, args: seq![process_options.id() as int], outs: seq![], texts: Seq::empty(), bbox: None }),
    {
        self.binding.release_ocr_process_options(process_options);
        self.log = Ghost(self.log@.push(Reply { entry: Entry::ReleaseOcrProcessOptions, status: 0, args: seq![process_options.id() as int], outs: seq![], texts: Seq::empty(), bbox: None }));
    }
}

} // verus!
