use vstd::prelude::*;

verus! {

/// A width×height pair.
#[derive(Debug, Clone, Copy, PartialEq, Eq, Structural, Hash)]
pub struct Resolution {
    pub width: i32,
    pub height: i32,
}

/// Configuration copied into the native process options when an engine is built.
#[derive(Debug, Clone, Copy, PartialEq, Eq, Structural, Hash)]
pub struct OcrOptions {
    /// The maximum number of lines that can be recognized (default 100, range 0-1000).
    /// The native layer is the sole judge of the range.
    pub max_recognition_line_count: i32,
    /// The maximum internal resize resolution; default and documented maximum 1152×768.
    pub resize_resolution: Resolution,
    /// Whether results also carry the words of each line.
    pub include_word_level_details: bool,
}

/// Default maximum number of recognized lines.
pub const DEFAULT_MAX_RECOGNITION_LINE_COUNT: i32 = 100;

/// Default (and documented maximum) resize width.
pub const DEFAULT_RESIZE_WIDTH: i32 = 1152;

/// Default (and documented maximum) resize height.
pub const DEFAULT_RESIZE_HEIGHT: i32 = 768;

impl Default for OcrOptions {
    fn default() -> (r: Self)
        ensures
            r.max_recognition_line_count == DEFAULT_MAX_RECOGNITION_LINE_COUNT,
            r.resize_resolution == (Resolution {
                width: DEFAULT_RESIZE_WIDTH,
                height: DEFAULT_RESIZE_HEIGHT,
            }),
            !r.include_word_level_details,
    {
        OcrOptions {
            max_recognition_line_count: DEFAULT_MAX_RECOGNITION_LINE_COUNT,
            resize_resolution: Resolution { width: DEFAULT_RESIZE_WIDTH, height: DEFAULT_RESIZE_HEIGHT },
            include_word_level_details: false,
        }
    }
}

} // verus!
