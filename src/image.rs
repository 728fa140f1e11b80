use vstd::prelude::*;
use crate::errors::OneOcrError;

verus! {

/// Channel-type tag of a four-channel, eight-bit RGBA image.
pub const RGBA_TYPE: i32 = 3;

/// An RGBA pixel buffer: `height` rows of `row_stride` bytes each, the first `4 * width`
/// bytes of a row holding its pixels.
pub struct PixelBuffer {
    pub width: u32,
    pub height: u32,
    pub row_stride: u64,
    pub pixels: Vec<u8>,
}

impl PixelBuffer {
    /// The layout is consistent and its counts fit the native descriptor's fields.
    pub open spec fn well_formed(&self) -> bool {
        &&& self.width <= i32::MAX
        &&& self.height <= i32::MAX
        &&& self.row_stride <= i64::MAX
        &&& 4 * self.width <= self.row_stride
        &&& self.pixels@.len() == self.row_stride * self.height
    }
}

/// The image descriptor handed to the native run call, but for the data address, which the
/// binding takes from the pixel slice it is given alongside.
#[derive(Debug, Clone, Copy, PartialEq, Eq, Structural)]
pub struct ImageDescriptor {
    pub kind: i32,
    pub cols: i32,
    pub rows: i32,
    pub reserved: i32,
    pub step: i64,
}

impl ImageDescriptor {
    /// The descriptor of a well-formed buffer.
    pub open spec fn describes(self, buffer: &PixelBuffer) -> bool {
        &&& self.kind == RGBA_TYPE
        &&& self.cols == buffer.width
        &&& self.rows == buffer.height
        &&& self.reserved == 0
        &&& self.step == buffer.row_stride
    }

    /// Builds the descriptor of `buffer`; a buffer whose layout is inconsistent, or whose
    /// counts do not fit the descriptor, is refused with `ImageFormatError`.
    pub fn for_buffer(buffer: &PixelBuffer) -> (r: Result<ImageDescriptor, OneOcrError>)
        ensures
            buffer.well_formed() <==> r is Ok,
            r matches Ok(d) ==> d.describes(buffer),
            r matches Err(e) ==> e is ImageFormatError,
    {
        if buffer.width > i32::MAX as u32 || buffer.height > i32::MAX as u32 || buffer.row_stride
            > i64::MAX as u64 {
            return Err(OneOcrError::ImageFormatError("image dimensions do not fit".to_string()));
        }
        if (buffer.width as u64) * 4 > buffer.row_stride {
            return Err(OneOcrError::ImageFormatError("row stride is shorter than a row".to_string()));
        }
        proof {
            let (a, b) = (buffer.row_stride as int, buffer.height as int);
            assert(0 <= a * b <= 0xffff_ffff_ffff_ffff * 0xffff_ffff) by (nonlinear_arith)
                requires
                    0 <= a <= 0xffff_ffff_ffff_ffff,
                    0 <= b <= 0xffff_ffff,
            ;
        }
        if (buffer.row_stride as u128) * (buffer.height as u128) != buffer.pixels.len() as u128 {
            return Err(OneOcrError::ImageFormatError("pixel data does not match the layout".to_string()));
        }
        Ok(ImageDescriptor {
            kind: RGBA_TYPE,
            cols: buffer.width as i32,
            rows: buffer.height as i32,
            reserved: 0,
            step: buffer.row_stride as i64,
        })
    }
}

} // verus!
