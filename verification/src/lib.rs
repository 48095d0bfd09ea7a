//! A safety layer for driving dense image buffers and window-event callbacks.
//!
//! The crate models the two pieces of an imaging stack that are easy to get
//! wrong: the ownership and aliasing rules of a dense two-dimensional pixel
//! buffer ([`Mat`]), and the lifecycle of a callback registration attached to
//! a named window ([`highgui::MouseCallbackHandle`]).  Buffer contents,
//! element-type packing, region-of-interest extraction, flips and bitwise
//! masking are all specified and proved here; blocking user-interface calls
//! and device input live outside the crate and only exchange plain values
//! with it.

pub mod errors;
pub mod geometry;
pub mod highgui;
pub mod mat;
pub mod mat_type;
pub mod video;

pub use errors::Error;
pub use geometry::Point2i;
pub use geometry::Rect;
pub use geometry::Scalar;
pub use geometry::Size2i;
pub use mat::FlipCode;
pub use mat::LineTypes;
pub use mat::Mat;
pub use mat::MatView;
pub use mat::NormTypes;
pub use mat_type::CvType;
pub use mat_type::MatDepth;
pub use mat_type::MatType;
