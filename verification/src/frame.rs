//! CPU-side holder for the most recently captured frame.

use vstd::prelude::*;

verus! {

/// The abstract value of an RGBA frame buffer: its pixel dimensions and
/// its raw bytes.
pub ghost struct FrameView {
    pub width: nat,
    pub height: nat,
    pub bytes: Seq<u8>,
}

/// A CPU-side RGBA pixel buffer: four bytes per pixel, rows stored top to
/// bottom.
pub struct RgbaBuffer {
    width: u32,
    height: u32,
    data: Vec<u8>,
}

impl View for RgbaBuffer {
    type V = FrameView;

    closed spec fn view(&self) -> FrameView {
        FrameView {
            width: self.width as nat,
            height: self.height as nat,
            bytes: self.data@,
        }
    }
}

impl RgbaBuffer {
    /// Every buffer holds at least the `4 * width * height` bytes that its
    /// pixels occupy.
    #[verifier::type_invariant]
    pub open spec fn wf(self) -> bool {
        4 * self@.width * self@.height <= self@.bytes.len()
    }

    /// Builds a buffer from raw RGBA bytes. It succeeds exactly when the
    /// bytes are enough for `width * height` four-byte pixels, the same
    /// length check that `image::ImageBuffer::from_raw` makes.
    pub fn from_raw(width: u32, height: u32, data: Vec<u8>) -> (buffer: Option<RgbaBuffer>)
        ensures
            buffer is Some <==> 4 * width * height <= data.len(),
            buffer matches Some(b) ==> b@ == (FrameView {
                width: width as nat,
                height: height as nat,
                bytes: data@,
            }),
    {
        proof {
            assert(4 * (width as int) * (height as int) <= 4 * 0xffffffff * 0xffffffff)
                by (nonlinear_arith)
                requires
                    width <= 0xffffffffu32,
                    height <= 0xffffffffu32,
            ;
        }
        let needed: u128 = 4u128 * (width as u128) * (height as u128);
        if needed <= data.len() as u128 {
            Some(RgbaBuffer { width, height, data })
        } else {
            None
        }
    }

    /// The width and height of this buffer, in pixels.
    pub fn dimensions(&self) -> (dims: (u32, u32))
        ensures
            dims.0 == self@.width,
            dims.1 == self@.height,
    {
        (self.width, self.height)
    }

    /// The underlying raw bytes.
    pub fn as_raw(&self) -> (data: &Vec<u8>)
        ensures
            data@ == self@.bytes,
    {
        &self.data
    }
}

impl Default for RgbaBuffer {
    /// The empty buffer of a zero-by-zero image.
    fn default() -> (buffer: RgbaBuffer)
        ensures
            buffer@ == (FrameView { width: 0nat, height: 0nat, bytes: Seq::<u8>::empty() }),
    {
        RgbaBuffer { width: 0, height: 0, data: Vec::new() }
    }
}

/// The most recently captured frame: its pixel buffer, the identifier of
/// the frame it came from, and the file extension chosen for its export.
pub struct CurrImage {
    pub img_buffer: RgbaBuffer,
    pub frame_id: u64,
    pub extension: String,
}

impl CurrImage {
    /// Stores a newly captured frame. The frame identifier and the export
    /// extension are always taken over; the pixel buffer is replaced only
    /// when the raw bytes are enough for `width * height` RGBA pixels, and
    /// is otherwise kept as it was. Returns whether the buffer was
    /// replaced.
    pub fn update_data(
        &mut self,
        frame_id: u64,
        width: u32,
        height: u32,
        raw_data: Vec<u8>,
        extension: String,
    ) -> (updated: bool)
        ensures
            final(self).frame_id == frame_id,
            final(self).extension@ == extension@,
            updated <==> 4 * width * height <= raw_data.len(),
            updated ==> final(self).img_buffer@ == (FrameView {
                width: width as nat,
                height: height as nat,
                bytes: raw_data@,
            }),
            !updated ==> final(self).img_buffer@ == old(self).img_buffer@,
    {
        self.frame_id = frame_id;
        self.extension = extension;
        match RgbaBuffer::from_raw(width, height, raw_data) {
            Some(buffer) => {
                self.img_buffer = buffer;
                true
            },
            None => false,
        }
    }

    /// The width and height of the held pixel buffer.
    pub fn dimensions(&self) -> (dims: [u32; 2])
        ensures
            dims@ == seq![self.img_buffer@.width as u32, self.img_buffer@.height as u32],
    {
        let (w, h) = self.img_buffer.dimensions();
        [w, h]
    }
}

impl Default for CurrImage {
    /// An empty frame: a zero-by-zero buffer, frame identifier zero, and no
    /// extension.
    fn default() -> (image: CurrImage)
        ensures
            image.frame_id == 0,
            image.extension@ == Seq::<char>::empty(),
            image.img_buffer@ == (FrameView { width: 0nat, height: 0nat, bytes: Seq::<u8>::empty() }),
    {
        CurrImage {
            img_buffer: RgbaBuffer::default(),
            frame_id: 0,
            extension: String::new(),
        }
    }
}

} // verus!
