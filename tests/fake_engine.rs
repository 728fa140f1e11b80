use oneocr_rs::{
    check_call, BoundingBox, ImageDescriptor, InitOptionsHandle, LineHandle, Native,
    NativeBinding, OcrEngine, OcrOptions, OneOcrError, PipelineHandle, PixelBuffer, Point,
    ProcessOptionsHandle, RawBBox, Resolution, ResultHandle, WordHandle, BAD_OUTPUT,
    ONE_OCR_MODEL_FILE_NAME, ONE_OCR_MODEL_KEY, RGBA_TYPE,
};

const INIT: usize = 0;
const PIPELINE: usize = 1;
const PROCESS: usize = 2;
const RESULT: usize = 3;

struct FakeWord {
    text: Option<String>,
    bbox: RawBBox,
    confidence: f32,
}

struct FakeLine {
    text: Option<String>,
    bbox: Option<RawBBox>,
    style: i32,
    style_confidence: f32,
    words: Vec<FakeWord>,
}

/// A native layer in memory: it counts creations and releases per role, and fails the
/// entry point named in `fail` with `fail_status`.
struct Fake {
    lines: Vec<FakeLine>,
    angle: f32,
    max_lines: i32,
    resize: (i64, i64),
    created: [u32; 4],
    released: [u32; 4],
    calls: Vec<&'static str>,
    fail: &'static str,
    fail_status: i32,
    line_count_override: Option<i64>,
    last_image: Option<ImageDescriptor>,
}

impl Fake {
    fn new(lines: Vec<FakeLine>) -> Fake {
        Fake {
            lines,
            angle: 0.0,
            max_lines: 100,
            resize: (1152, 768),
            created: [0; 4],
            released: [0; 4],
            calls: Vec::new(),
            fail: "",
            fail_status: 0,
            line_count_override: None,
            last_image: None,
        }
    }

    fn status(&mut self, name: &'static str) -> i32 {
        self.calls.push(name);
        if self.fail == name {
            self.fail_status
        } else {
            0
        }
    }

    fn balanced(&self) -> bool {
        self.created == self.released
    }
}

impl NativeBinding for Fake {
    fn create_ocr_init_options(&mut self) -> (i32, InitOptionsHandle) {
        let s = self.status("CreateOcrInitOptions");
        if s == 0 {
            self.created[INIT] += 1;
        }
        (s, InitOptionsHandle::from_raw(1))
    }

    fn ocr_init_options_set_use_model_delay_load(
        &mut self,
        _init_options: &InitOptionsHandle,
        delay_load: bool,
    ) -> i32 {
        assert!(!delay_load);
        self.status("OcrInitOptionsSetUseModelDelayLoad")
    }

    fn create_ocr_pipeline(
        &mut self,
        model_path: &str,
        key: &str,
        _init_options: &InitOptionsHandle,
    ) -> (i32, PipelineHandle) {
        assert!(!model_path.contains('\0'));
        assert_eq!(key, ONE_OCR_MODEL_KEY);
        let s = self.status("CreateOcrPipeline");
        if s == 0 {
            self.created[PIPELINE] += 1;
        }
        (s, PipelineHandle::from_raw(2))
    }

    fn create_ocr_process_options(&mut self) -> (i32, ProcessOptionsHandle) {
        let s = self.status("CreateOcrProcessOptions");
        if s == 0 {
            self.created[PROCESS] += 1;
        }
        (s, ProcessOptionsHandle::from_raw(3))
    }

    fn ocr_process_options_get_max_recognition_line_count(
        &mut self,
        _process_options: &ProcessOptionsHandle,
    ) -> (i32, i32) {
        (self.status("OcrProcessOptionsGetMaxRecognitionLineCount"), self.max_lines)
    }

    fn ocr_process_options_set_max_recognition_line_count(
        &mut self,
        _process_options: &ProcessOptionsHandle,
        count: i32,
    ) -> i32 {
        let s = self.status("OcrProcessOptionsSetMaxRecognitionLineCount");
        if s != 0 {
            return s;
        }
        if !(0..=1000).contains(&count) {
            return 2;
        }
        self.max_lines = count;
        0
    }

    fn ocr_process_options_get_resize_resolution(
        &mut self,
        _process_options: &ProcessOptionsHandle,
    ) -> (i32, i64, i64) {
        (self.status("OcrProcessOptionsGetResizeResolution"), self.resize.0, self.resize.1)
    }

    fn ocr_process_options_set_resize_resolution(
        &mut self,
        _process_options: &ProcessOptionsHandle,
        width: i32,
        height: i32,
    ) -> i32 {
        let s = self.status("OcrProcessOptionsSetResizeResolution");
        if s != 0 {
            return s;
        }
        if width > 1152 || height > 768 || width < 0 || height < 0 {
            return 2;
        }
        self.resize = (width as i64, height as i64);
        0
    }

    fn run_ocr_pipeline(
        &mut self,
        _pipeline: &PipelineHandle,
        image: &ImageDescriptor,
        pixels: &[u8],
        _process_options: &ProcessOptionsHandle,
    ) -> (i32, ResultHandle) {
        assert_eq!(pixels.len() as i64, image.step * image.rows as i64);
        self.last_image = Some(*image);
        let s = self.status("RunOcrPipeline");
        if s != 0 {
            return (s, ResultHandle::from_raw(0));
        }
        if image.cols <= 50 || image.rows <= 50 {
            return (3, ResultHandle::from_raw(0));
        }
        self.created[RESULT] += 1;
        (0, ResultHandle::from_raw(4))
    }

    fn get_image_angle(&mut self, _result: &ResultHandle) -> (i32, u32) {
        (self.status("GetImageAngle"), self.angle.to_bits())
    }

    fn get_ocr_line_count(&mut self, _result: &ResultHandle) -> (i32, i64) {
        let n = self.line_count_override.unwrap_or(self.lines.len() as i64);
        (self.status("GetOcrLineCount"), n)
    }

    fn get_ocr_line(&mut self, _result: &ResultHandle, index: i64) -> (i32, LineHandle) {
        (self.status("GetOcrLine"), LineHandle::from_raw(index as usize))
    }

    fn get_ocr_line_content(&mut self, line: &LineHandle) -> (i32, Option<String>) {
        (self.status("GetOcrLineContent"), self.lines[line.raw()].text.clone())
    }

    fn get_ocr_line_bounding_box(&mut self, line: &LineHandle) -> (i32, Option<RawBBox>) {
        (self.status("GetOcrLineBoundingBox"), self.lines[line.raw()].bbox)
    }

    fn get_ocr_line_style(&mut self, line: &LineHandle) -> (i32, i32, u32) {
        let l = &self.lines[line.raw()];
        let (style, confidence) = (l.style, l.style_confidence.to_bits());
        (self.status("GetOcrLineStyle"), style, confidence)
    }

    fn get_ocr_line_word_count(&mut self, line: &LineHandle) -> (i32, i64) {
        (self.status("GetOcrLineWordCount"), self.lines[line.raw()].words.len() as i64)
    }

    fn get_ocr_word(&mut self, line: &LineHandle, index: i64) -> (i32, WordHandle) {
        (self.status("GetOcrWord"), WordHandle::from_raw(line.raw() * 1000 + index as usize))
    }

    fn get_ocr_word_content(&mut self, word: &WordHandle) -> (i32, Option<String>) {
        let text = self.lines[word.raw() / 1000].words[word.raw() % 1000].text.clone();
        (self.status("GetOcrWordContent"), text)
    }

    fn get_ocr_word_bounding_box(&mut self, word: &WordHandle) -> (i32, Option<RawBBox>) {
        let bbox = self.lines[word.raw() / 1000].words[word.raw() % 1000].bbox;
        (self.status("GetOcrWordBoundingBox"), Some(bbox))
    }

    fn get_ocr_word_confidence(&mut self, word: &WordHandle) -> (i32, u32) {
        let c = self.lines[word.raw() / 1000].words[word.raw() % 1000].confidence;
        (self.status("GetOcrWordConfidence"), c.to_bits())
    }

    fn release_ocr_result(&mut self, _result: ResultHandle) {
        self.calls.push("ReleaseOcrResult");
        self.released[RESULT] += 1;
    }

    fn release_ocr_init_options(&mut self, _init_options: InitOptionsHandle) {
        self.calls.push("ReleaseOcrInitOptions");
        self.released[INIT] += 1;
    }

    fn release_ocr_pipeline(&mut self, _pipeline: PipelineHandle) {
        self.calls.push("ReleaseOcrPipeline");
        self.released[PIPELINE] += 1;
    }

    fn release_ocr_process_options(&mut self, _process_options: ProcessOptionsHandle) {
        self.calls.push("ReleaseOcrProcessOptions");
        self.released[PROCESS] += 1;
    }
}

fn bbox(v: [f32; 8]) -> RawBBox {
    RawBBox {
        x1: v[0].to_bits(),
        y1: v[1].to_bits(),
        x2: v[2].to_bits(),
        y2: v[3].to_bits(),
        x3: v[4].to_bits(),
        y3: v[5].to_bits(),
        x4: v[6].to_bits(),
        y4: v[7].to_bits(),
    }
}

fn word(text: &str, b: [f32; 8], confidence: f32) -> FakeWord {
    FakeWord { text: Some(text.to_string()), bbox: bbox(b), confidence }
}

fn line(text: &str, b: [f32; 8], words: Vec<FakeWord>) -> FakeLine {
    FakeLine {
        text: Some(text.to_string()),
        bbox: Some(bbox(b)),
        style: 1,
        style_confidence: 0.75,
        words,
    }
}

fn hello_world() -> Vec<FakeLine> {
    vec![
        line(
            "Hello",
            [0.0, 0.0, 10.0, 0.0, 10.0, 5.0, 0.0, 5.0],
            vec![word("Hello", [0.0, 0.0, 10.0, 0.0, 10.0, 5.0, 0.0, 5.0], 0.9)],
        ),
        line("World", [0.0, 10.0, 10.0, 10.0, 10.0, 15.0, 0.0, 15.0], vec![]),
    ]
}

fn image(width: u32, height: u32) -> PixelBuffer {
    PixelBuffer {
        width,
        height,
        row_stride: 4 * width as u64,
        pixels: vec![0u8; (4 * width * height) as usize],
    }
}

fn options(words: bool) -> OcrOptions {
    OcrOptions { include_word_level_details: words, ..OcrOptions::default() }
}

fn api_code<T>(r: &Result<T, OneOcrError>) -> Option<i32> {
    match r {
        Err(OneOcrError::OcrApiError { result, .. }) => Some(*result),
        _ => None,
    }
}

#[test]
fn end_to_end_two_lines_with_words() {
    let mut native = Native::new(Fake::new(hello_world()));
    let engine = OcrEngine::new_with_options(&mut native, options(true), "model").unwrap();
    let result = engine.run(&mut native, &image(100, 80)).unwrap();
    assert_eq!(result.lines.len(), 2);
    assert_eq!(result.lines[0].text, "Hello");
    assert_eq!(result.lines[1].text, "World");
    let words = result.lines[0].words.as_ref().unwrap();
    assert_eq!(words.len(), 1);
    assert_eq!(words[0].text, "Hello");
    assert_eq!(f32::from_bits(words[0].confidence), 0.9);
    assert_eq!(result.lines[1].words.as_ref().unwrap().len(), 0);
    assert_eq!(f32::from_bits(result.image_angle), 0.0);
    let b = result.lines[1].bounding_box;
    assert_eq!(f32::from_bits(b.top_left.y), 10.0);
    assert_eq!(f32::from_bits(b.bottom_right.x), 10.0);
    assert_eq!(f32::from_bits(b.bottom_right.y), 15.0);
    assert_eq!(f32::from_bits(b.bottom_left.y), 15.0);
    result.release(&mut native);
    engine.release(&mut native);
    assert!(native.binding().balanced());
}

#[test]
fn end_to_end_two_lines_without_words() {
    let mut native = Native::new(Fake::new(hello_world()));
    let engine = OcrEngine::new_with_options(&mut native, options(false), "model").unwrap();
    let result = engine.run(&mut native, &image(100, 80)).unwrap();
    assert_eq!(result.lines.len(), 2);
    assert!(result.lines[0].words.is_none());
    assert!(result.lines[1].words.is_none());
    assert!(!native.binding().calls.contains(&"GetOcrLineWordCount"));
    result.release(&mut native);
    engine.release(&mut native);
    assert!(native.binding().balanced());
}

#[test]
fn line_and_word_counts_match_native_counts() {
    let b = [1.0, 2.0, 3.0, 4.0, 5.0, 6.0, 7.0, 8.0];
    let lines = vec![
        line("a", b, vec![word("a1", b, 0.5), word("a2", b, 0.25)]),
        line("b", b, vec![]),
        line("c", b, vec![word("c1", b, 1.0)]),
    ];
    let mut native = Native::new(Fake::new(lines));
    let engine = OcrEngine::new_with_options(&mut native, options(true), "model").unwrap();
    let result = engine.run(&mut native, &image(64, 64)).unwrap();
    let counts: Vec<usize> =
        result.lines.iter().map(|l| l.words.as_ref().unwrap().len()).collect();
    assert_eq!(counts, vec![2, 0, 1]);
    assert_eq!(result.lines[0].words.as_ref().unwrap()[1].text, "a2");
    result.release(&mut native);
    engine.release(&mut native);
}

#[test]
fn bounding_box_corners_follow_raw_field_order() {
    let raw = bbox([1.0, 2.0, 3.0, 4.0, 5.0, 6.0, 7.0, 8.0]);
    let b = BoundingBox::new(raw);
    let p = |x: f32, y: f32| Point { x: x.to_bits(), y: y.to_bits() };
    assert_eq!(b.top_left, p(1.0, 2.0));
    assert_eq!(b.top_right, p(3.0, 4.0));
    assert_eq!(b.bottom_right, p(5.0, 6.0));
    assert_eq!(b.bottom_left, p(7.0, 8.0));
    assert_ne!(BoundingBox::new(bbox([7.0, 8.0, 5.0, 6.0, 3.0, 4.0, 1.0, 2.0])), b);
}

#[test]
fn max_recognition_line_count_round_trips() {
    let mut native = Native::new(Fake::new(vec![]));
    let engine = OcrEngine::new(&mut native, "model").unwrap();
    assert_eq!(engine.get_max_recognition_line_count(&mut native).unwrap(), 100);
    for count in [0, 1, 537, 1000] {
        engine.set_max_recognition_line_count(&mut native, count).unwrap();
        assert_eq!(engine.get_max_recognition_line_count(&mut native).unwrap(), count);
    }
    let r = engine.set_max_recognition_line_count(&mut native, 1001);
    assert_eq!(api_code(&r), Some(2));
    assert_eq!(engine.get_max_recognition_line_count(&mut native).unwrap(), 1000);
    engine.release(&mut native);
}

#[test]
fn resize_resolution_round_trips() {
    let mut native = Native::new(Fake::new(vec![]));
    let engine = OcrEngine::new(&mut native, "model").unwrap();
    assert_eq!(engine.get_resize_resolution(&mut native).unwrap(), (1152, 768));
    engine.set_resize_resolution(&mut native, 640, 480).unwrap();
    assert_eq!(engine.get_resize_resolution(&mut native).unwrap(), (640, 480));
    let r = engine.set_resize_resolution(&mut native, 2000, 480);
    assert_eq!(api_code(&r), Some(2));
    native.binding_fail("OcrProcessOptionsGetResizeResolution", 9);
    assert_eq!(api_code(&engine.get_resize_resolution(&mut native)), Some(9));
    engine.release(&mut native);
}

trait FailNext {
    fn binding_fail(&mut self, name: &'static str, status: i32);
}

impl FailNext for Native<Fake> {
    fn binding_fail(&mut self, name: &'static str, status: i32) {
        let mut fake = std::mem::replace(self, Native::new(Fake::new(vec![]))).into_binding();
        fake.fail = name;
        fake.fail_status = status;
        *self = Native::new(fake);
    }
}

#[test]
fn small_image_fails_with_native_status() {
    let mut native = Native::new(Fake::new(hello_world()));
    let engine = OcrEngine::new(&mut native, "model").unwrap();
    for (w, h) in [(49, 100), (100, 49), (50, 50), (10, 10)] {
        let r = engine.run(&mut native, &image(w, h));
        assert_eq!(api_code(&r), Some(3));
    }
    assert!(engine.run(&mut native, &image(51, 51)).is_ok_and(|r| {
        r.release(&mut native);
        true
    }));
    engine.release(&mut native);
    assert!(native.binding().balanced());
}

#[test]
fn descriptor_carries_buffer_layout() {
    let mut native = Native::new(Fake::new(vec![]));
    let engine = OcrEngine::new(&mut native, "model").unwrap();
    let buffer = PixelBuffer { width: 60, height: 70, row_stride: 256, pixels: vec![0; 256 * 70] };
    engine.run(&mut native, &buffer).unwrap().release(&mut native);
    let d = native.binding().last_image.unwrap();
    assert_eq!(d, ImageDescriptor { kind: RGBA_TYPE, cols: 60, rows: 70, reserved: 0, step: 256 });
    assert_eq!(RGBA_TYPE, 3);
    engine.release(&mut native);
}

#[test]
fn malformed_buffer_is_refused_before_native_calls() {
    let mut native = Native::new(Fake::new(vec![]));
    let engine = OcrEngine::new(&mut native, "model").unwrap();
    let calls = native.binding().calls.len();
    let short = PixelBuffer { width: 60, height: 60, row_stride: 240, pixels: vec![0; 100] };
    assert!(matches!(engine.run(&mut native, &short), Err(OneOcrError::ImageFormatError(_))));
    let narrow = PixelBuffer { width: 60, height: 60, row_stride: 200, pixels: vec![0; 12000] };
    assert!(matches!(engine.run(&mut native, &narrow), Err(OneOcrError::ImageFormatError(_))));
    let wide = PixelBuffer { width: 1 << 31, height: 0, row_stride: 1 << 33, pixels: vec![] };
    assert!(matches!(ImageDescriptor::for_buffer(&wide), Err(OneOcrError::ImageFormatError(_))));
    assert_eq!(native.binding().calls.len(), calls);
    engine.release(&mut native);
}

#[test]
fn every_failed_construction_releases_what_it_created() {
    let steps = [
        "CreateOcrInitOptions",
        "OcrInitOptionsSetUseModelDelayLoad",
        "CreateOcrPipeline",
        "CreateOcrProcessOptions",
        "OcrProcessOptionsSetMaxRecognitionLineCount",
        "OcrProcessOptionsSetResizeResolution",
    ];
    for step in steps {
        let mut fake = Fake::new(vec![]);
        fake.fail = step;
        fake.fail_status = 5;
        let mut native = Native::new(fake);
        let r = OcrEngine::new(&mut native, "model");
        assert_eq!(api_code(&r), Some(5), "{step}");
        let fake = native.into_binding();
        assert!(fake.balanced(), "{step}");
        assert_eq!(fake.created.iter().sum::<u32>(), fake.released.iter().sum::<u32>());
    }
}

#[test]
fn engine_release_order_and_balance() {
    let mut native = Native::new(Fake::new(vec![]));
    let engine = OcrEngine::new(&mut native, "model").unwrap();
    assert_eq!(native.binding().created, [1, 1, 1, 0]);
    engine.release(&mut native);
    let fake = native.into_binding();
    assert_eq!(fake.released, [1, 1, 1, 0]);
    let n = fake.calls.len();
    assert_eq!(
        fake.calls[n - 3..].to_vec(),
        vec!["ReleaseOcrPipeline", "ReleaseOcrInitOptions", "ReleaseOcrProcessOptions"]
    );
}

#[test]
fn failed_materialization_releases_result() {
    let steps = [
        "GetOcrLineCount",
        "GetOcrLine",
        "GetOcrLineContent",
        "GetOcrLineBoundingBox",
        "GetOcrLineWordCount",
        "GetOcrWord",
        "GetOcrWordContent",
        "GetOcrWordBoundingBox",
        "GetOcrWordConfidence",
        "GetImageAngle",
    ];
    for step in steps {
        let mut native = Native::new(Fake::new(hello_world()));
        let engine = OcrEngine::new_with_options(&mut native, options(true), "model").unwrap();
        native.binding_fail(step, 8);
        let r = engine.run(&mut native, &image(64, 64));
        assert_eq!(api_code(&r), Some(8), "{step}");
        assert_eq!(native.binding().created[RESULT], 1, "{step}");
        assert_eq!(native.binding().released[RESULT], 1, "{step}");
        engine.release(&mut native);
    }
}

#[test]
fn failed_run_creates_no_result() {
    let mut native = Native::new(Fake::new(hello_world()));
    let engine = OcrEngine::new(&mut native, "model").unwrap();
    native.binding_fail("RunOcrPipeline", 4);
    assert_eq!(api_code(&engine.run(&mut native, &image(64, 64))), Some(4));
    assert_eq!(native.binding().released[RESULT], 0);
    engine.release(&mut native);
}

#[test]
fn null_bounding_box_is_an_api_error() {
    let mut lines = hello_world();
    lines[1].bbox = None;
    let mut native = Native::new(Fake::new(lines));
    let engine = OcrEngine::new(&mut native, "model").unwrap();
    let r = engine.run(&mut native, &image(64, 64));
    assert_eq!(api_code(&r), Some(BAD_OUTPUT));
    assert_eq!(BAD_OUTPUT, -1);
    engine.release(&mut native);
    assert!(native.binding().balanced());
}

#[test]
fn negative_line_count_is_an_api_error() {
    let mut fake = Fake::new(hello_world());
    fake.line_count_override = Some(-2);
    let mut native = Native::new(fake);
    let engine = OcrEngine::new(&mut native, "model").unwrap();
    assert_eq!(api_code(&engine.run(&mut native, &image(64, 64))), Some(BAD_OUTPUT));
    engine.release(&mut native);
    assert!(native.binding().balanced());
}

#[test]
fn model_path_with_nul_is_refused() {
    let mut native = Native::new(Fake::new(vec![]));
    let r = OcrEngine::new(&mut native, "bad\0path");
    assert!(matches!(r, Err(OneOcrError::ModelFileLoadError(_))));
    let fake = native.into_binding();
    assert!(fake.balanced());
    assert!(!fake.calls.contains(&"CreateOcrPipeline"));
}

#[test]
fn model_constants() {
    assert_eq!(ONE_OCR_MODEL_FILE_NAME, "oneocr.onemodel");
    assert!(!ONE_OCR_MODEL_KEY.contains('\0'));
}

#[test]
fn line_style_polarity() {
    let mut lines = hello_world();
    lines[0].style = 0;
    lines[0].style_confidence = 0.25;
    let mut native = Native::new(Fake::new(lines));
    let engine = OcrEngine::new(&mut native, "model").unwrap();
    let result = engine.run(&mut native, &image(64, 64)).unwrap();
    let (handwritten, c) = result.lines[0].get_line_style(&mut native).unwrap();
    assert!(handwritten);
    assert_eq!(f32::from_bits(c), 0.25);
    let (handwritten, c) = result.lines[1].get_line_style(&mut native).unwrap();
    assert!(!handwritten);
    assert_eq!(f32::from_bits(c), 0.75);
    result.release(&mut native);
    engine.release(&mut native);
}

#[test]
fn default_options() {
    let o = OcrOptions::default();
    assert_eq!(o.max_recognition_line_count, 100);
    assert_eq!(o.resize_resolution, Resolution { width: 1152, height: 768 });
    assert!(!o.include_word_level_details);
}

#[test]
fn options_reach_the_native_layer() {
    let mut native = Native::new(Fake::new(vec![]));
    let o = OcrOptions {
        max_recognition_line_count: 7,
        resize_resolution: Resolution { width: 800, height: 600 },
        include_word_level_details: false,
    };
    let engine = OcrEngine::new_with_options(&mut native, o, "model").unwrap();
    assert_eq!(native.binding().max_lines, 7);
    assert_eq!(native.binding().resize, (800, 600));
    engine.release(&mut native);
}

#[test]
fn check_call_translates_status() {
    assert!(check_call(0, "ok").is_ok());
    match check_call(7, "Failed to do it") {
        Err(OneOcrError::OcrApiError { result, message }) => {
            assert_eq!(result, 7);
            assert_eq!(message, "Failed to do it");
        }
        _ => panic!("expected an api error"),
    }
}

fn api_message<T>(r: &Result<T, OneOcrError>) -> Option<String> {
    match r {
        Err(OneOcrError::OcrApiError { message, .. }) => Some(message.clone()),
        _ => None,
    }
}

#[test]
fn null_content_is_an_api_error() {
    let mut lines = hello_world();
    lines[1].text = None;
    let mut native = Native::new(Fake::new(lines));
    let engine = OcrEngine::new(&mut native, "model").unwrap();
    let r = engine.run(&mut native, &image(64, 64));
    assert_eq!(api_code(&r), Some(BAD_OUTPUT));
    assert_eq!(api_message(&r).unwrap(), "GetOcrLineContent returned a null pointer.");
    engine.release(&mut native);
    assert!(native.binding().balanced());

    let mut lines = hello_world();
    lines[0].words[0].text = None;
    let mut native = Native::new(Fake::new(lines));
    let engine = OcrEngine::new_with_options(&mut native, options(true), "model").unwrap();
    let r = engine.run(&mut native, &image(64, 64));
    assert_eq!(api_message(&r).unwrap(), "GetOcrWordContent returned a null pointer.");
    engine.release(&mut native);
}

#[test]
fn errors_name_the_failed_operation() {
    let cases = [
        ("GetOcrLineCount", "Failed to get line count"),
        ("GetOcrLine", "Failed to get line"),
        ("GetOcrLineContent", "Failed to get line content"),
        ("GetOcrLineBoundingBox", "Failed to get line bounding box"),
        ("GetOcrLineWordCount", "Failed to get word count"),
        ("GetOcrWord", "Failed to get word"),
        ("GetOcrWordContent", "Failed to get word content"),
        ("GetOcrWordBoundingBox", "Failed to get word bounding box"),
        ("GetOcrWordConfidence", "Failed to get word confidence"),
        ("GetImageAngle", "Failed to get image angle"),
        ("RunOcrPipeline", "Failed to run OCR pipeline"),
    ];
    for (step, message) in cases {
        let mut native = Native::new(Fake::new(hello_world()));
        let engine = OcrEngine::new_with_options(&mut native, options(true), "model").unwrap();
        native.binding_fail(step, 6);
        let r = engine.run(&mut native, &image(64, 64));
        assert_eq!(api_message(&r).unwrap(), message);
        let calls = &native.binding().calls;
        let failed = calls.iter().position(|c| *c == step).unwrap();
        assert!(calls[failed + 1..].iter().all(|c| *c == "ReleaseOcrResult"), "{step}");
        engine.release(&mut native);
    }
    let mut fake = Fake::new(vec![]);
    fake.fail = "CreateOcrPipeline";
    fake.fail_status = 6;
    let mut native = Native::new(fake);
    let r = OcrEngine::new(&mut native, "model");
    assert_eq!(api_message(&r).unwrap(), "Failed to create OCR pipeline");
    let calls = &native.binding().calls;
    assert_eq!(calls[calls.len() - 1], "ReleaseOcrInitOptions");
    assert!(!calls.contains(&"CreateOcrProcessOptions"));
}
