//! The session: at most one image, and the operations that load, change and encode it.

use crate::buffer::PixelBuffer;
use crate::codec::{decode_rgba8, describe, encode, encoding};
use crate::error::{OutputFormat, ProcessorError};
use crate::raster::Raster;
use crate::response::{info_text, render_info, Response};
use crate::transform::{brightened, crop_fits, cropped, remapped, resize_fits, rotated};
use vstd::prelude::*;
use vstd::string::StringExecFns;

verus! {

/// A session. It is empty until an image has been loaded, and holds one image from
/// then on: every load and every transform puts a new image in place of the old one.
#[derive(Debug)]
pub struct ImageProcessor {
    image: Option<PixelBuffer>,
}

impl View for ImageProcessor {
    type V = Option<Raster>;

    /// The image that the session holds, if any.
    closed spec fn view(&self) -> Option<Raster> {
        match self.image {
            Some(buffer) => Some(buffer@),
            None => None,
        }
    }
}

/// What holds of every session: the image that it holds, if any, is well formed.
pub open spec fn valid(state: Option<Raster>) -> bool {
    state matches Some(img) ==> img.wf()
}

/// Why raw parts were refused as an image.
pub open spec fn malformed_reason() -> Seq<char> {
    "the image is empty or its data does not match its dimensions"@
}

/// Why an input without bytes was refused.
pub open spec fn empty_input_reason() -> Seq<char> {
    "no image data"@
}

/// What `get_dimensions` reports of a session.
pub open spec fn dimensions_report(state: Option<Raster>) -> Option<Seq<char>> {
    match state {
        Some(img) => Some(
            (Response::Dimensions { width: img.width as u32, height: img.height as u32 }).text(),
        ),
        None => None,
    }
}

/// Whether `r` is what encoding the image of a session in `format` has to give.
pub open spec fn encode_outcome(
    state: Option<Raster>,
    format: OutputFormat,
    r: Result<Vec<u8>, ProcessorError>,
) -> bool {
    match state {
        None => r matches Err(ProcessorError::NoImageLoaded),
        Some(img) => match encoding(format, img.width as u32, img.height as u32, img.samples) {
            Some(bytes) => r matches Ok(v) && v@ == bytes,
            None => r matches Err(ProcessorError::Encode(f, _)) && f == format,
        },
    }
}

impl ImageProcessor {
    /// An empty session.
    pub fn new() -> (p: ImageProcessor)
        ensures
            p@ is None,
            valid(p@),
    {
        ImageProcessor { image: None }
    }

    /// A copy of the image that the session holds, if any. The session keeps its own.
    pub fn snapshot(&self) -> (r: Option<PixelBuffer>)
        ensures
            match r {
                Some(buffer) => self@ == Some(buffer@) && buffer@.wf(),
                None => self@ is None,
            },
    {
        match &self.image {
            Some(buffer) => {
                proof {
                    use_type_invariant(buffer);
                }
                Some(buffer.clone())
            },
            None => None,
        }
    }

    /// Whether the session holds an image.
    pub fn is_loaded(&self) -> (r: bool)
        ensures
            r == (self@ is Some),
            valid(self@),
    {
        proof {
            if let Some(buffer) = &self.image {
                use_type_invariant(buffer);
            }
        }
        self.image.is_some()
    }

    /// Decodes `data`, whose container format is found from its content, and holds
    /// the image from then on. Where `data` cannot be decoded the session stays as
    /// it was. Input without a single byte is refused without asking a decoder.
    pub fn load_image(&mut self, data: &[u8]) -> (r: Result<String, ProcessorError>)
        ensures
            match r {
                Ok(s) => final(self)@ matches Some(img) && img.wf() && s@ == (Response::Loaded {
                    width: img.width as u32,
                    height: img.height as u32,
                }).text(),
                Err(e) => e is Decode && final(self)@ == old(self)@,
            },
            data@.len() == 0 ==> (r matches Err(ProcessorError::Decode(reason)) && reason@
                == empty_input_reason()),
            valid(final(self)@),
    {
        proof {
            if let Some(buffer) = &self.image {
                use_type_invariant(buffer);
            }
        }
        if data.len() == 0 {
            return Err(ProcessorError::Decode(String::from_str("no image data")));
        }
        match decode_rgba8(data) {
            Ok((width, height, samples)) => self.load_rgba8(width, height, samples),
            Err(error) => Err(ProcessorError::Decode(describe(&error))),
        }
    }

    /// Holds from now on the image given by its raw parts: dimensions and RGBA8
    /// samples, row by row. Parts that do not make an image leave the session as it was.
    pub fn load_rgba8(&mut self, width: u32, height: u32, samples: Vec<u8>) -> (r: Result<
        String,
        ProcessorError,
    >)
        ensures
            ({
                let img = Raster {
                    width: width as nat,
                    height: height as nat,
                    samples: samples@,
                };
                if img.wf() {
                    &&& final(self)@ == Some(img)
                    &&& r matches Ok(s) && s@ == (Response::Loaded { width, height }).text()
                } else {
                    &&& final(self)@ == old(self)@
                    &&& r matches Err(ProcessorError::Decode(reason)) && reason@
                        == malformed_reason()
                }
            }),
            valid(final(self)@),
    {
        proof {
            if let Some(buffer) = &self.image {
                use_type_invariant(buffer);
            }
        }
        match PixelBuffer::from_raw(width, height, samples) {
            Some(buffer) => {
                self.image = Some(buffer);
                Ok((Response::Loaded { width, height }).to_json())
            },
            None => Err(
                ProcessorError::Decode(
                    String::from_str("the image is empty or its data does not match its dimensions"),
                ),
            ),
        }
    }

    /// Resamples the image to exactly `width` x `height` with a Lanczos filter of
    /// window 3. A size that is empty or too large is refused, and so is every size
    /// when the image itself is too large to be resampled. Resampling to the size
    /// that the image has leaves it as it is.
    pub fn resize(&mut self, width: u32, height: u32) -> (r: Result<String, ProcessorError>)
        ensures
            match old(self)@ {
                None => r matches Err(ProcessorError::NoImageLoaded) && final(self)@ == old(self)@,
                Some(img) => if resize_fits(img, width as int, height as int) {
                    &&& r matches Ok(s) && s@ == (Response::Resized { width, height }).text()
                    &&& final(self)@ matches Some(out) && out.wf() && out.width == width
                        && out.height == height
                    &&& width == img.width && height == img.height ==> final(self)@ == old(
                        self,
                    )@
                } else {
                    r matches Err(ProcessorError::InvalidParameters) && final(self)@ == old(self)@
                },
            },
            valid(final(self)@),
    {
        proof {
            if let Some(buffer) = &self.image {
                use_type_invariant(buffer);
            }
        }
        let next: Option<PixelBuffer> = match &self.image {
            None => return Err(ProcessorError::NoImageLoaded),
            Some(buffer) => buffer.resize(width, height),
        };
        match next {
            Some(buffer) => {
                self.image = Some(buffer);
                Ok((Response::Resized { width, height }).to_json())
            },
            None => Err(ProcessorError::InvalidParameters),
        }
    }

    /// Cuts the image down to the rectangle of size `width` x `height` whose top-left
    /// pixel is `(x, y)`. A rectangle that is empty or reaches outside the image is
    /// refused, never clamped.
    pub fn crop(&mut self, x: u32, y: u32, width: u32, height: u32) -> (r: Result<
        String,
        ProcessorError,
    >)
        ensures
            match old(self)@ {
                None => r matches Err(ProcessorError::NoImageLoaded) && final(self)@ == old(self)@,
                Some(img) => if crop_fits(img, x as int, y as int, width as int, height as int) {
                    &&& r matches Ok(s) && s@ == (Response::Cropped { x, y, width, height }).text()
                    &&& final(self)@ == Some(
                        cropped(img, x as int, y as int, width as nat, height as nat),
                    )
                } else {
                    r matches Err(ProcessorError::InvalidParameters) && final(self)@ == old(self)@
                },
            },
            valid(final(self)@),
    {
        proof {
            if let Some(buffer) = &self.image {
                use_type_invariant(buffer);
            }
        }
        let next: Option<PixelBuffer> = match &self.image {
            None => return Err(ProcessorError::NoImageLoaded),
            Some(buffer) => buffer.crop(x, y, width, height),
        };
        match next {
            Some(buffer) => {
                self.image = Some(buffer);
                Ok((Response::Cropped { x, y, width, height }).to_json())
            },
            None => Err(ProcessorError::InvalidParameters),
        }
    }

    /// Turns the image a quarter clockwise.
    pub fn rotate90(&mut self) -> (r: Result<String, ProcessorError>)
        ensures
            match old(self)@ {
                None => r matches Err(ProcessorError::NoImageLoaded) && final(self)@ == old(self)@,
                Some(img) => {
                    &&& r matches Ok(s) && s@ == Response::Rotated.text()
                    &&& final(self)@ == Some(rotated(img))
                },
            },
            valid(final(self)@),
    {
        proof {
            if let Some(buffer) = &self.image {
                use_type_invariant(buffer);
            }
        }
        let next: PixelBuffer = match &self.image {
            None => return Err(ProcessorError::NoImageLoaded),
            Some(buffer) => buffer.rotate90(),
        };
        self.image = Some(next);
        Ok(Response::Rotated.to_json())
    }

    /// Adds `value` to every colour sample, limited to `0..=255`; alpha stays.
    pub fn adjust_brightness(&mut self, value: i32) -> (r: Result<String, ProcessorError>)
        ensures
            match old(self)@ {
                None => r matches Err(ProcessorError::NoImageLoaded) && final(self)@ == old(self)@,
                Some(img) => {
                    &&& r matches Ok(s) && s@ == (Response::Brightened { value }).text()
                    &&& final(self)@ == Some(brightened(img, value as int))
                },
            },
            valid(final(self)@),
    {
        proof {
            if let Some(buffer) = &self.image {
                use_type_invariant(buffer);
            }
        }
        let next: PixelBuffer = match &self.image {
            None => return Err(ProcessorError::NoImageLoaded),
            Some(buffer) => buffer.brighten(value),
        };
        self.image = Some(next);
        Ok((Response::Brightened { value }).to_json())
    }

    /// Replaces every sample `s` of the image by `curve[s]`. This is how a contrast
    /// adjustment enters the session: its curve is floating-point arithmetic, which
    /// the caller does. A curve without an entry for each of the 256 sample values
    /// is refused.
    pub fn apply_curve(&mut self, curve: &[u8]) -> (r: Result<(), ProcessorError>)
        ensures
            match old(self)@ {
                None => r matches Err(ProcessorError::NoImageLoaded) && final(self)@ == old(self)@,
                Some(img) => if curve@.len() == 256 {
                    &&& r is Ok
                    &&& final(self)@ == Some(remapped(img, curve@))
                } else {
                    r matches Err(ProcessorError::InvalidParameters) && final(self)@ == old(self)@
                },
            },
            valid(final(self)@),
    {
        proof {
            if let Some(buffer) = &self.image {
                use_type_invariant(buffer);
            }
        }
        let next: Option<PixelBuffer> = match &self.image {
            None => return Err(ProcessorError::NoImageLoaded),
            Some(buffer) => buffer.remap(curve),
        };
        match next {
            Some(buffer) => {
                self.image = Some(buffer);
                Ok(())
            },
            None => Err(ProcessorError::InvalidParameters),
        }
    }

    /// Encodes the image in `format`. The session stays as it is.
    pub fn encode_as(&self, format: OutputFormat) -> (r: Result<Vec<u8>, ProcessorError>)
        ensures
            encode_outcome(self@, format, r),
            valid(self@),
    {
        proof {
            if let Some(buffer) = &self.image {
                use_type_invariant(buffer);
            }
        }
        match &self.image {
            None => Err(ProcessorError::NoImageLoaded),
            Some(buffer) => {
                let width: u32 = buffer.width();
                let height: u32 = buffer.height();
                match encode(format, width, height, buffer.samples().as_slice()) {
                    Ok(bytes) => Ok(bytes),
                    Err(error) => Err(ProcessorError::Encode(format, describe(&error))),
                }
            },
        }
    }

    /// Encodes the image as PNG.
    pub fn to_png(&self) -> (r: Result<Vec<u8>, ProcessorError>)
        ensures
            encode_outcome(self@, OutputFormat::Png, r),
            valid(self@),
    {
        self.encode_as(OutputFormat::Png)
    }

    /// Encodes the image as JPEG. The quality is reserved: it has no effect.
    pub fn to_jpeg(&self, _quality: u8) -> (r: Result<Vec<u8>, ProcessorError>)
        ensures
            encode_outcome(self@, OutputFormat::Jpeg, r),
            valid(self@),
    {
        self.encode_as(OutputFormat::Jpeg)
    }

    /// Encodes the image as lossless WebP. The quality is reserved: it has no effect.
    pub fn to_webp(&self, _quality: u8) -> (r: Result<Vec<u8>, ProcessorError>)
        ensures
            encode_outcome(self@, OutputFormat::WebP, r),
            valid(self@),
    {
        self.encode_as(OutputFormat::WebP)
    }

    /// Reports the dimensions of the image.
    pub fn get_dimensions(&self) -> (r: Result<String, ProcessorError>)
        ensures
            match dimensions_report(self@) {
                Some(text) => r matches Ok(s) && s@ == text,
                None => r matches Err(ProcessorError::NoImageLoaded),
            },
            valid(self@),
    {
        proof {
            if let Some(buffer) = &self.image {
                use_type_invariant(buffer);
            }
        }
        match &self.image {
            None => Err(ProcessorError::NoImageLoaded),
            Some(buffer) => {
                let width: u32 = buffer.width();
                let height: u32 = buffer.height();
                Ok((Response::Dimensions { width, height }).to_json())
            },
        }
    }

    /// Reports what the session can do and whether it holds an image.
    /// `rust_version` is the version of the toolchain that the build declares.
    pub fn get_info(&self, rust_version: &str) -> (s: String)
        ensures
            s@ == info_text(rust_version@, self@ is Some),
            valid(self@),
    {
        render_info(rust_version, self.is_loaded())
    }
}

impl Default for ImageProcessor {
    fn default() -> (p: ImageProcessor)
        ensures
            p@ is None,
            valid(p@),
    {
        ImageProcessor::new()
    }
}

} // verus!
