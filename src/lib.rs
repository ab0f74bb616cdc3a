//! Float-free core of a Monte Carlo path tracer: random integer draws,
//! Perlin lattice permutations, byte-image pixel lookup, sample-grid sizing,
//! PPM text encoding and mesh index grouping.

pub mod camera;
pub mod color;
pub mod material;
pub mod obj;
pub mod pdf;
pub mod perlin;
pub mod rtw_stb_image;
pub mod rtweekend;

pub use camera::sqrt_spp;
pub use color::{pixel_line, ppm_header};
pub use material::EmptyMaterial;
pub use obj::triangle_indices;
pub use pdf::SpherePdf;
pub use perlin::{shuffle, LatticeHash, POINT_COUNT};
pub use rtw_stb_image::{RtwImage, BYTES_PER_PIXEL, MAGENTA};
pub use rtweekend::{int_from_offset, random_int};
