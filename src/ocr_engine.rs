use vstd::prelude::*;
use vstd::string::StringSliceAdditionalSpecFns;
use crate::binding::{
    all_ok, first_failure, group_transcript, has_nul, is_ok, lemma_all_ok_extend,
    lemma_first_failure, lemma_outstanding_concat, outstanding, queries_only, released_role,
    reply, reports, stopped_at_last, Entry, Native, NativeBinding, Reply, Role,
};
use crate::errors::{check_call, OneOcrError};
use crate::handles::{InitOptionsHandle, PipelineHandle, ProcessOptionsHandle};
use crate::image::{ImageDescriptor, PixelBuffer, RGBA_TYPE};
use crate::ocr_options::OcrOptions;
use crate::ocr_result::{walked, OcrResult};

verus! {

broadcast use group_transcript;

/// Name of the model file, which lies beside the running executable.
pub const ONE_OCR_MODEL_FILE_NAME: &'static str = "oneocr.onemodel";

/// Decryption key of the model file, passed when the pipeline is created.
pub const ONE_OCR_MODEL_KEY: &'static str = r#"kj)TGtrK>f]b[Piow.gU+nC@s""""""4"#;

/// Whether `s` holds a NUL byte.
fn contains_nul(s: &str) -> (r: bool)
    ensures
        r == has_nul(s.spec_bytes()),
{
    let bytes = s.as_bytes();
    let mut i: usize = 0;
    while i < bytes.len()
        invariant
            0 <= i <= bytes@.len(),
            bytes@ == s.spec_bytes(),
            forall|k: int| 0 <= k < i ==> bytes@[k] != 0u8,
        decreases bytes@.len() - i,
    {
        if bytes[i] == 0 {
            return true;
        }
        i = i + 1;
    }
    false
}

/// `seg` is exactly the successful calls that build an engine: create the init options,
/// turn off deferred model loading on them, create the pipeline from the model path, the
/// embedded key and the init options, create the process options, then apply the line
/// limit and the resize resolution to them. Each handle passed on is the one handed out.
pub open spec fn setup_walked(seg: Seq<Reply>, model_path: Seq<char>, options: OcrOptions) -> bool {
    let i = seg[0].outs[0];
    let p = seg[2].outs[0];
    let o = seg[3].outs[0];
    &&& seg.len() == 6
    &&& seg[0] == reply(Entry::CreateOcrInitOptions, 0, seq![], seq![i])
    &&& seg[1] == reply(Entry::OcrInitOptionsSetUseModelDelayLoad, 0, seq![i, 0int], seq![])
    &&& seg[2] == Reply {
        entry: Entry::CreateOcrPipeline,
        status: 0,
        args: seq![i],
        outs: seq![p],
        texts: seq![model_path, ONE_OCR_MODEL_KEY@],
        bbox: None,
    }
    &&& seg[3] == reply(Entry::CreateOcrProcessOptions, 0, seq![], seq![o])
    &&& seg[4] == reply(
        Entry::OcrProcessOptionsSetMaxRecognitionLineCount,
        0,
        seq![o, options.max_recognition_line_count as int],
        seq![],
    )
    &&& seg[5] == reply(
        Entry::OcrProcessOptionsSetResizeResolution,
        0,
        seq![o, options.resize_resolution.width as int, options.resize_resolution.height as int],
        seq![],
    )
}

/// The calls that tear down an engine whose init options, pipeline and process options
/// have raw values `i`, `p` and `o`: pipeline first, as it depends on the init options,
/// then the init options, then the process options.
pub open spec fn teardown_replies(i: int, p: int, o: int) -> Seq<Reply> {
    seq![
        reply(Entry::ReleaseOcrPipeline, 0, seq![p], seq![]),
        reply(Entry::ReleaseOcrInitOptions, 0, seq![i], seq![]),
        reply(Entry::ReleaseOcrProcessOptions, 0, seq![o], seq![]),
    ]
}

/// The roles of the three objects that an engine owns.
pub open spec fn engine_role(role: Role) -> bool {
    role is InitOptions || role is Pipeline || role is ProcessOptions
}

/// Every object that an engine's construction creates, its teardown releases once: if
/// whatever happened between the two left each role balanced (every run's result was
/// released), the whole lifetime of the engine leaves each role as it found it.
pub proof fn lemma_engine_lifetime_balanced(
    before: Seq<Reply>,
    setup: Seq<Reply>,
    model_path: Seq<char>,
    options: OcrOptions,
    between: Seq<Reply>,
    role: Role,
)
    requires
        setup_walked(setup, model_path, options),
        outstanding(between, role) == 0,
    ensures
        outstanding(setup, role) == if engine_role(role) {
            1int
        } else {
            0int
        },
        outstanding(teardown_replies(setup[0].outs[0], setup[2].outs[0], setup[3].outs[0]), role)
            == if engine_role(role) {
            -1int
        } else {
            0int
        },
        outstanding(
            before + setup + between + teardown_replies(
                setup[0].outs[0],
                setup[2].outs[0],
                setup[3].outs[0],
            ),
            role,
        ) == outstanding(before, role),
{
    let teardown = teardown_replies(setup[0].outs[0], setup[2].outs[0], setup[3].outs[0]);
    let e = Seq::<Reply>::empty();
    assert(outstanding(e, role) == 0);
    assert(setup =~= e.push(setup[0]).push(setup[1]).push(setup[2]).push(setup[3]).push(
        setup[4],
    ).push(setup[5]));
    assert(teardown =~= e.push(teardown[0]).push(teardown[1]).push(teardown[2]));
    lemma_outstanding_concat(before, setup, role);
    lemma_outstanding_concat(before + setup, between, role);
    lemma_outstanding_concat(before + setup + between, teardown, role);
}

/// The recognition engine: the three chained native objects and the options it was built
/// with. Its objects are released by `release`.
#[derive(Debug)]
pub struct OcrEngine {
    init_options: InitOptionsHandle,
    pipeline: PipelineHandle,
    process_options: ProcessOptionsHandle,
    ocr_options: OcrOptions,
}

/// Releases what a failed construction had created, in teardown order.
fn discard<B: NativeBinding>(
    native: &mut Native<B>,
    pipeline: Option<PipelineHandle>,
    init_options: InitOptionsHandle,
    process_options: Option<ProcessOptionsHandle>,
)
    ensures
        old(native).log().is_prefix_of(final(native).log()),
        all_ok(final(native).log(), old(native).log().len() as int),
        forall|j: int|
            old(native).log().len() <= j < final(native).log().len() ==> (released_role(
                #[trigger] final(native).log()[j].entry,
            ) is Some),
        forall|role: Role| #[trigger]
            outstanding(final(native).log(), role) == outstanding(old(native).log(), role) - (
            if role is InitOptions {
                1int
            } else if role is Pipeline && pipeline is Some {
                1int
            } else if role is ProcessOptions && process_options is Some {
                1int
            } else {
                0int
            }),
{
    let ghost start = native.log();
    if let Some(p) = pipeline {
        native.release_ocr_pipeline(p);
    }
    native.release_ocr_init_options(init_options);
    if let Some(p) = process_options {
        native.release_ocr_process_options(p);
    }
    proof {
        let log = native.log();
        assert forall|j: int| start.len() <= j < log.len() implies (released_role(
            #[trigger] log[j].entry,
        ) is Some) by {
            if pipeline is Some && process_options is Some {
                assert(log =~= start.push(log[start.len() as int]).push(log[start.len() as int + 1]).push(
                    log[start.len() as int + 2],
                ));
            }
        }
    }
}

/// The construction of an engine failed at a native call: its error reports the first
/// call that failed, and every call after that one releases.
pub open spec fn failed_at_call(log: Seq<Reply>, from: int, e: OneOcrError) -> bool {
    exists|k: int|
        first_failure(log, from, k) && reports(e, #[trigger] log[k]) && forall|j: int|
            k < j < log.len() ==> (released_role(#[trigger] log[j].entry) is Some)
}

impl OcrEngine {
    /// The options the engine was built with.
    pub closed spec fn options(&self) -> OcrOptions {
        self.ocr_options
    }

    /// Raw value of the engine's init options.
    pub closed spec fn init_options_id(&self) -> int {
        self.init_options.id() as int
    }

    /// Raw value of the engine's pipeline.
    pub closed spec fn pipeline_id(&self) -> int {
        self.pipeline.id() as int
    }

    /// Raw value of the engine's process options.
    pub closed spec fn process_options_id(&self) -> int {
        self.process_options.id() as int
    }

    /// Builds an engine whose model lies at `model_path`. Stops at the first failure and
    /// releases every native object created on the way before returning the error.
    pub fn new_with_options<B: NativeBinding>(
        native: &mut Native<B>,
        ocr_options: OcrOptions,
        model_path: &str,
    ) -> (r: Result<Self, OneOcrError>)
        ensures
            old(native).log().is_prefix_of(final(native).log()),
            ({
                let log = final(native).log();
                let s = old(native).log().len() as int;
                let all = all_ok(log, s);
                let path_nul = has_nul(model_path.spec_bytes());
                let key_nul = has_nul(ONE_OCR_MODEL_KEY.spec_bytes());
                &&& r is Ok <==> (all && !path_nul && !key_nul)
                &&& r matches Err(e) ==> {
                    &&& e is OcrApiError <==> !all
                    &&& e is OcrApiError ==> failed_at_call(log, s, e)
                    &&& e is ModelFileLoadError <==> (all && path_nul)
                    &&& e is InvalidModelKey <==> (all && !path_nul && key_nul)
                }
                &&& r matches Ok(e) ==> {
                    &&& e.options() == ocr_options
                    &&& setup_walked(log.subrange(s, log.len() as int), model_path@, ocr_options)
                    &&& e.init_options_id() == log[s].outs[0]
                    &&& e.pipeline_id() == log[s + 2].outs[0]
                    &&& e.process_options_id() == log[s + 3].outs[0]
                }
            }),
            forall|role: Role| #[trigger]
                outstanding(final(native).log(), role) == outstanding(old(native).log(), role) + (
                if r is Ok && engine_role(role) {
                    1int
                } else {
                    0int
                }),
    {
        let ghost start = native.log();
        let ghost s = start.len() as int;
        let (status, init_options) = native.create_ocr_init_options();
        if let Err(e) = check_call(status, "Failed to create init options") {
            proof {
                lemma_first_failure(start, native.log().last(), native.log(), s);
            }
            return Err(e);
        }
        let ghost pre = native.log();
        let status = native.ocr_init_options_set_use_model_delay_load(&init_options, false);
        if let Err(e) = check_call(status, "Failed to set model delay load") {
            let ghost failed = native.log();
            discard(native, None, init_options, None);
            proof {
                lemma_first_failure(pre, failed.last(), native.log(), s);
            }
            return Err(e);
        }
        if contains_nul(model_path) {
            let ghost before = native.log();
            discard(native, None, init_options, None);
            proof {
                lemma_all_ok_extend(before, native.log(), s);
            }
            return Err(
                OneOcrError::ModelFileLoadError(
                    "Failed to convert model path to a C string: it holds a NUL byte".to_string(),
                ),
            );
        }
        if contains_nul(ONE_OCR_MODEL_KEY) {
            let ghost before = native.log();
            discard(native, None, init_options, None);
            proof {
                lemma_all_ok_extend(before, native.log(), s);
            }
            return Err(
                OneOcrError::InvalidModelKey(
                    "Failed to convert model key to a C string: it holds a NUL byte".to_string(),
                ),
            );
        }
        let ghost pre = native.log();
        let (status, pipeline) = native.create_ocr_pipeline(
            model_path,
            ONE_OCR_MODEL_KEY,
            &init_options,
        );
        if let Err(e) = check_call(status, "Failed to create OCR pipeline") {
            let ghost failed = native.log();
            discard(native, None, init_options, None);
            proof {
                lemma_first_failure(pre, failed.last(), native.log(), s);
            }
            return Err(e);
        }
        let ghost pre = native.log();
        let (status, process_options) = native.create_ocr_process_options();
        if let Err(e) = check_call(status, "Failed to create OCR process options") {
            let ghost failed = native.log();
            discard(native, Some(pipeline), init_options, None);
            proof {
                lemma_first_failure(pre, failed.last(), native.log(), s);
            }
            return Err(e);
        }
        let ghost pre = native.log();
        let status = native.ocr_process_options_set_max_recognition_line_count(
            &process_options,
            ocr_options.max_recognition_line_count,
        );
        if let Err(e) = check_call(status, "Failed to set max recognition line count") {
            let ghost failed = native.log();
            discard(native, Some(pipeline), init_options, Some(process_options));
            proof {
                lemma_first_failure(pre, failed.last(), native.log(), s);
            }
            return Err(e);
        }
        let ghost pre = native.log();
        let status = native.ocr_process_options_set_resize_resolution(
            &process_options,
            ocr_options.resize_resolution.width,
            ocr_options.resize_resolution.height,
        );
        if let Err(e) = check_call(status, "Failed to set resize resolution") {
            let ghost failed = native.log();
            discard(native, Some(pipeline), init_options, Some(process_options));
            proof {
                lemma_first_failure(pre, failed.last(), native.log(), s);
            }
            return Err(e);
        }
        let engine = OcrEngine { init_options, pipeline, process_options, ocr_options };
        proof {
            let log = native.log();
            let seg = log.subrange(s, log.len() as int);
            assert(seg =~= seq![log[s], log[s + 1], log[s + 2], log[s + 3], log[s + 4], log[s + 5]]);
        }
        Ok(engine)
    }

    /// Builds an engine with the default options.
    pub fn new<B: NativeBinding>(native: &mut Native<B>, model_path: &str) -> (r: Result<
        Self,
        OneOcrError,
    >)
        ensures
            old(native).log().is_prefix_of(final(native).log()),
            ({
                let log = final(native).log();
                let s = old(native).log().len() as int;
                let all = all_ok(log, s);
                let path_nul = has_nul(model_path.spec_bytes());
                let key_nul = has_nul(ONE_OCR_MODEL_KEY.spec_bytes());
                &&& r is Ok <==> (all && !path_nul && !key_nul)
                &&& r matches Err(e) ==> {
                    &&& e is OcrApiError <==> !all
                    &&& e is OcrApiError ==> failed_at_call(log, s, e)
                    &&& e is ModelFileLoadError <==> (all && path_nul)
                    &&& e is InvalidModelKey <==> (all && !path_nul && key_nul)
                }
                &&& r matches Ok(e) ==> {
                    &&& e.options().max_recognition_line_count == 100
                    &&& e.options().resize_resolution.width == 1152
                    &&& e.options().resize_resolution.height == 768
                    &&& !e.options().include_word_level_details
                    &&& setup_walked(log.subrange(s, log.len() as int), model_path@, e.options())
                    &&& e.init_options_id() == log[s].outs[0]
                    &&& e.pipeline_id() == log[s + 2].outs[0]
                    &&& e.process_options_id() == log[s + 3].outs[0]
                }
            }),
            forall|role: Role| #[trigger]
                outstanding(final(native).log(), role) == outstanding(old(native).log(), role) + (
                if r is Ok && engine_role(role) {
                    1int
                } else {
                    0int
                }),
    {
        Self::new_with_options(native, OcrOptions::default(), model_path)
    }

    /// Reads the maximum number of lines that can be recognized, as the native process
    /// options hold it.
    pub fn get_max_recognition_line_count<B: NativeBinding>(&self, native: &mut Native<B>) -> (r:
        Result<i32, OneOcrError>)
        ensures
            ({
                let rep = final(native).log().last();
                &&& final(native).log() == old(native).log().push(rep)
                &&& rep.entry is OcrProcessOptionsGetMaxRecognitionLineCount
                &&& rep.args == seq![self.process_options_id()]
                &&& rep.outs.len() == 1
                &&& rep.status == 0 ==> r == Ok::<i32, OneOcrError>(rep.outs[0] as i32)
                &&& rep.status != 0 ==> (r matches Err(e) && reports(e, rep))
            }),
    {
        let (status, count) = native.ocr_process_options_get_max_recognition_line_count(
            &self.process_options,
        );
        if let Err(e) = check_call(status, "Failed to get max recognition line count") {
            return Err(e);
        }
        Ok(count)
    }

    /// Sets the maximum number of lines that can be recognized. The value is handed to the
    /// native layer unchecked: it alone decides the valid range (0-1000).
    pub fn set_max_recognition_line_count<B: NativeBinding>(
        &self,
        native: &mut Native<B>,
        count: i32,
    ) -> (r: Result<(), OneOcrError>)
        ensures
            ({
                let rep = final(native).log().last();
                &&& final(native).log() == old(native).log().push(
                    reply(
                        Entry::OcrProcessOptionsSetMaxRecognitionLineCount,
                        rep.status,
                        seq![self.process_options_id(), count as int],
                        seq![],
                    ),
                )
                &&& r is Ok <==> rep.status == 0
                &&& rep.status != 0 ==> (r matches Err(e) && reports(e, rep))
            }),
    {
        let status = native.ocr_process_options_set_max_recognition_line_count(
            &self.process_options,
            count,
        );
        check_call(status, "Failed to set max recognition line count")
    }

    /// Reads the maximum internal resize resolution (width, height), as the native process
    /// options hold it.
    pub fn get_resize_resolution<B: NativeBinding>(&self, native: &mut Native<B>) -> (r: Result<
        (i64, i64),
        OneOcrError,
    >)
        ensures
            ({
                let rep = final(native).log().last();
                &&& final(native).log() == old(native).log().push(rep)
                &&& rep.entry is OcrProcessOptionsGetResizeResolution
                &&& rep.args == seq![self.process_options_id()]
                &&& rep.outs.len() == 2
                &&& rep.status == 0 ==> r == Ok::<(i64, i64), OneOcrError>(
                    (rep.outs[0] as i64, rep.outs[1] as i64),
                )
                &&& rep.status != 0 ==> (r matches Err(e) && reports(e, rep))
            }),
    {
        let (status, width, height) = native.ocr_process_options_get_resize_resolution(
            &self.process_options,
        );
        if let Err(e) = check_call(status, "Failed to get resize resolution") {
            return Err(e);
        }
        Ok((width, height))
    }

    /// Sets the maximum internal resize resolution. The documented ceiling of 1152×768 is
    /// enforced by the native layer, not here.
    pub fn set_resize_resolution<B: NativeBinding>(
        &self,
        native: &mut Native<B>,
        width: i32,
        height: i32,
    ) -> (r: Result<(), OneOcrError>)
        ensures
            ({
                let rep = final(native).log().last();
                &&& final(native).log() == old(native).log().push(
                    reply(
                        Entry::OcrProcessOptionsSetResizeResolution,
                        rep.status,
                        seq![self.process_options_id(), width as int, height as int],
                        seq![],
                    ),
                )
                &&& r is Ok <==> rep.status == 0
                &&& rep.status != 0 ==> (r matches Err(e) && reports(e, rep))
            }),
    {
        let status = native.ocr_process_options_set_resize_resolution(
            &self.process_options,
            width,
            height,
        );
        check_call(status, "Failed to set resize resolution")
    }

    /// Runs recognition on an RGBA buffer and copies out the result, with words when the
    /// engine's options ask for them. A buffer whose layout is inconsistent is refused
    /// before any native call. The native layer's own limits (an image must exceed 50×50)
    /// are not checked here: its failure status comes back as `OcrApiError`. The result
    /// handle is owned here until the result takes it over; if copying out fails, it is
    /// released here, once, before the error is returned.
    pub fn run<B: NativeBinding>(&self, native: &mut Native<B>, image: &PixelBuffer) -> (r: Result<
        OcrResult,
        OneOcrError,
    >)
        ensures
            old(native).log().is_prefix_of(final(native).log()),
            !image.well_formed() ==> (r matches Err(e) && e is ImageFormatError && final(native).log()
                == old(native).log()),
            r is Ok <==> (image.well_formed() && all_ok(
                final(native).log(),
                old(native).log().len() as int,
            )),
            image.well_formed() ==> ({
                let s = old(native).log().len() as int;
                let log = final(native).log();
                let h = log[s].outs[0];
                &&& log.len() > s
                &&& log[s] == reply(
                    Entry::RunOcrPipeline,
                    log[s].status,
                    seq![
                        self.pipeline_id(),
                        RGBA_TYPE as int,
                        image.width as int,
                        image.height as int,
                        0int,
                        image.row_stride as int,
                        self.process_options_id(),
                    ],
                    seq![h],
                )
                &&& log[s].status != 0 ==> (r matches Err(e) && reports(e, log[s]) && log.len() == s + 1)
                &&& r matches Ok(res) ==> {
                    &&& res.result_handle.id() == h
                    &&& walked(
                        log.subrange(s + 1, log.len() as int),
                        h,
                        res.lines@,
                        res.image_angle,
                        self.options().include_word_level_details,
                    )
                }
                &&& (log[s].status == 0 && r is Err) ==> (r matches Err(e) && {
                    let copied = log.drop_last();
                    &&& log.len() >= s + 3
                    &&& log.last() == reply(Entry::ReleaseOcrResult, 0, seq![h], seq![])
                    &&& queries_only(copied, s + 1)
                    &&& stopped_at_last(copied, s + 1)
                    &&& reports(e, copied.last())
                })
            }),
            forall|role: Role| #[trigger]
                outstanding(final(native).log(), role) == outstanding(old(native).log(), role) + (
                if r is Ok && role is Result {
                    1int
                } else {
                    0int
                }),
    {
        let descriptor = match ImageDescriptor::for_buffer(image) {
            Ok(d) => d,
            Err(e) => return Err(e),
        };
        let ghost start = native.log();
        let (status, result_handle) = native.run_ocr_pipeline(
            &self.pipeline,
            &descriptor,
            image.pixels.as_slice(),
            &self.process_options,
        );
        if let Err(e) = check_call(status, "Failed to run OCR pipeline") {
            return Err(e);
        }
        let ghost ran = native.log();
        match OcrResult::new(native, result_handle, self.ocr_options.include_word_level_details) {
            Ok(result) => {
                proof {
                    let log = native.log();
                    assert(log[start.len() as int] == ran[start.len() as int]);
                    lemma_all_ok_extend(ran, log, start.len() as int);
                }
                Ok(result)
            },
            Err((e, result_handle)) => {
                let ghost copied = native.log();
                native.release_ocr_result(result_handle);
                proof {
                    let log = native.log();
                    assert(log.drop_last() =~= copied);
                    assert(log[start.len() as int] == ran[start.len() as int]);
                    assert(!is_ok(log[copied.len() - 1]));
                }
                Err(e)
            },
        }
    }

    /// Releases the engine's native objects: the pipeline, then the init options, then the
    /// process options.
    pub fn release<B: NativeBinding>(self, native: &mut Native<B>)
        ensures
            final(native).log() == old(native).log() + teardown_replies(
                self.init_options_id(),
                self.pipeline_id(),
                self.process_options_id(),
            ),
            forall|role: Role| #[trigger]
                outstanding(final(native).log(), role) == outstanding(old(native).log(), role) - (
                if engine_role(role) {
                    1int
                } else {
                    0int
                }),
    {
        let ghost start = native.log();
        let ghost (i, p, o) = (self.init_options_id(), self.pipeline_id(), self.process_options_id());
        native.release_ocr_pipeline(self.pipeline);
        native.release_ocr_init_options(self.init_options);
        native.release_ocr_process_options(self.process_options);
        assert(native.log() =~= start + teardown_replies(i, p, o));
    }
}

} // verus!
