use vstd::prelude::*;

verus! {

/// Bytes per pixel of every stored image: red, green, blue.
pub const BYTES_PER_PIXEL: usize = 3;

/// What an absent image answers for every pixel.
pub const MAGENTA: [u8; 3] = [255, 0, 255];

/// `value` held within `[min, max)`: below `min` gives `min`, from `max` on
/// gives `max - 1`.
pub open spec fn clamp_spec(value: int, min: int, max: int) -> int {
    if value < min {
        min
    } else if value < max {
        value
    } else {
        max - 1
    }
}

/// The three bytes that the image `img` (width, height, pixel bytes if any)
/// answers for the pixel `(x, y)`: magenta without pixels, else the pixel at
/// the coordinates clamped into the image, rows stored top to bottom.
pub open spec fn pixel_spec(img: (nat, nat, Option<Seq<u8>>), x: int, y: int) -> Seq<u8> {
    match img.2 {
        None => MAGENTA@,
        Some(d) => {
            let cx = clamp_spec(x, 0, img.0 as int);
            let cy = clamp_spec(y, 0, img.1 as int);
            let offset = cy * (img.0 * 3) + cx * 3;
            d.subrange(offset, offset + 3)
        },
    }
}

/// An 8-bit RGB image that texture lookups read pixel by pixel.
pub struct RtwImage {
    bytes_per_pixel: usize,
    bdata: Option<Vec<u8>>,
    image_width: usize,
    image_height: usize,
    bytes_per_scanline: usize,
}

impl View for RtwImage {
    /// Width, height, and the row-major pixel bytes if an image is held.
    type V = (nat, nat, Option<Seq<u8>>);

    closed spec fn view(&self) -> Self::V {
        (
            self.image_width as nat,
            self.image_height as nat,
            match self.bdata {
                None => None,
                Some(d) => Some(d@),
            },
        )
    }
}

impl RtwImage {
    #[verifier::type_invariant]
    spec fn inv(&self) -> bool {
        &&& self.bytes_per_pixel == BYTES_PER_PIXEL
        &&& self.bytes_per_scanline == self.image_width * BYTES_PER_PIXEL
        &&& match self.bdata {
            None => self.image_width == 0 && self.image_height == 0,
            Some(d) => {
                &&& self.image_width > 0
                &&& self.image_height > 0
                &&& d@.len() == self.image_width * self.image_height * BYTES_PER_PIXEL
            },
        }
    }

    /// An image that holds no pixels.
    pub fn default() -> (r: Self)
        ensures
            r@ == (0nat, 0nat, None::<Seq<u8>>),
    {
        RtwImage {
            bytes_per_pixel: BYTES_PER_PIXEL,
            bdata: None,
            image_width: 0,
            image_height: 0,
            bytes_per_scanline: 0,
        }
    }

    /// Takes decoded pixels: `width * height` pixels of three bytes, rows
    /// top to bottom. Refuses (and keeps the image as it was) an empty image
    /// or a byte count that does not match.
    pub fn load_bytes(&mut self, width: usize, height: usize, data: Vec<u8>) -> (ok: bool)
        ensures
            ok == (width > 0 && height > 0 && data@.len() == width * height * 3),
            ok ==> final(self)@ == (width as nat, height as nat, Some(data@)),
            !ok ==> final(self)@ == old(self)@,
    {
        let n = data.len();
        if width == 0 || height == 0 {
            return false;
        }
        let scanline = match width.checked_mul(BYTES_PER_PIXEL) {
            Some(s) => s,
            None => {
                proof {
                    assert(width * height * 3 >= width * 3) by (nonlinear_arith)
                        requires
                            height > 0,
                    ;
                }
                return false;
            },
        };
        let total = match scanline.checked_mul(height) {
            Some(t) => t,
            None => {
                proof {
                    assert(width * height * 3 == scanline * height) by (nonlinear_arith)
                        requires
                            scanline == width * 3,
                    ;
                }
                return false;
            },
        };
        proof {
            assert(width * height * 3 == scanline * height) by (nonlinear_arith)
                requires
                    scanline == width * 3,
            ;
        }
        if n != total {
            return false;
        }
        *self = RtwImage {
            bytes_per_pixel: BYTES_PER_PIXEL,
            bdata: Some(data),
            image_width: width,
            image_height: height,
            bytes_per_scanline: scanline,
        };
        true
    }

    pub fn width(&self) -> (r: usize)
        ensures
            r == self@.0,
            (r == 0) == (self@.2 is None),
    {
        proof {
            use_type_invariant(self);
        }
        self.image_width
    }

    pub fn height(&self) -> (r: usize)
        ensures
            r == self@.1,
            (r == 0) == (self@.2 is None),
    {
        proof {
            use_type_invariant(self);
        }
        self.image_height
    }

    /// The three bytes of the pixel `(x, y)`, coordinates clamped into the
    /// image; magenta when no image is held.
    pub fn pixel_data(&self, x: usize, y: usize) -> (r: &[u8])
        ensures
            r@ == pixel_spec(self@, x as int, y as int),
    {
        proof {
            use_type_invariant(self);
        }
        match &self.bdata {
            None => MAGENTA.as_slice(),
            Some(d) => {
                let n = d.len();
                let cx = Self::clamp(x, 0, self.image_width);
                let cy = Self::clamp(y, 0, self.image_height);
                proof {
                    let w = self.image_width as int;
                    let h = self.image_height as int;
                    assert(cy * (w * 3) + cx * 3 + 3 <= w * h * 3) by (nonlinear_arith)
                        requires
                            0 <= cx < w,
                            0 <= cy < h,
                    ;
                }
                let offset = cy * self.bytes_per_scanline + cx * self.bytes_per_pixel;
                assert(offset + 3 <= n);
                &d.as_slice()[offset..offset + 3]
            },
        }
    }

    fn clamp(value: usize, min: usize, max: usize) -> (r: usize)
        requires
            min < max,
        ensures
            r == clamp_spec(value as int, min as int, max as int),
            min <= r < max,
    {
        if value < min {
            min
        } else if value < max {
            value
        } else {
            max - 1
        }
    }
}

} // verus!
