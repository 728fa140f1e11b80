//! Resource lifecycle and marshaling layer for a native text-recognition engine.
//!
//! The native engine is reached only through the [`NativeBinding`] trait. Every call goes
//! through [`Native`], which keeps a ghost transcript of the replies so that the contracts
//! can say what was asked, what came back, and which handles are still outstanding.
mod binding;
mod bounding_box;
mod errors;
mod handles;
mod image;
mod ocr_engine;
mod ocr_line;
mod ocr_options;
mod ocr_result;
mod ocr_word;

pub use binding::{
    all_ok, bad_output_description, call_description, copied, created_role, delta,
    failure_code, failure_message, first_failure, group_transcript, has_nul, is_bbox,
    is_content, is_count, is_ok, is_query, lemma_all_ok_extend, lemma_all_ok_push,
    lemma_first_failure, lemma_outstanding_concat, lemma_outstanding_push, lemma_prefix_push,
    lemma_queries_only_extend, lemma_queries_only_push, lemma_stopped_extend,
    lemma_stopped_push, outstanding, queries_only, released_role, reply, reports,
    stopped_at_last, Entry, Native, NativeBinding, Reply, Role,
};
pub use bounding_box::{
    corners_of, lemma_corner_mapping_bijective, raw_of, BoundingBox, Point, RawBBox,
};
pub use errors::{bad_output, check_call, OneOcrError, BAD_OUTPUT};
pub use handles::{
    InitOptionsHandle, LineHandle, PipelineHandle, ProcessOptionsHandle, ResultHandle, WordHandle,
};
pub use image::{ImageDescriptor, PixelBuffer, RGBA_TYPE};
pub use ocr_engine::{
    engine_role, failed_at_call, lemma_engine_lifetime_balanced, setup_walked, teardown_replies,
    OcrEngine, ONE_OCR_MODEL_FILE_NAME, ONE_OCR_MODEL_KEY,
};
pub use ocr_line::{
    lemma_line_walked_len, lemma_words_walked_len, line_len, line_walked, words_walked, OcrLine,
};
pub use ocr_options::{
    OcrOptions, Resolution, DEFAULT_MAX_RECOGNITION_LINE_COUNT, DEFAULT_RESIZE_HEIGHT,
    DEFAULT_RESIZE_WIDTH,
};
pub use ocr_result::{lines_walked, walked, OcrResult};
pub use ocr_word::{word_entry, word_replies, OcrWord};
