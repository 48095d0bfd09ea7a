//! The dense two-dimensional buffer type [`Mat`] and its operations.
//!
//! A `Mat` owns its bytes outright: constructors copy from their byte
//! source, region-of-interest extraction copies the selected rectangle, and
//! every operation states in its contract which bytes the result holds.
//! Exclusive ownership makes a double release structurally impossible and
//! lets a buffer move across parallel execution contexts.

use vstd::prelude::*;
use vstd::arithmetic::div_mod::lemma_div_pos_is_pos;
use vstd::arithmetic::div_mod::lemma_fundamental_div_mod;
use vstd::arithmetic::div_mod::lemma_fundamental_div_mod_converse;
use vstd::arithmetic::div_mod::lemma_mod_bound;

use crate::errors::Error;
use crate::geometry::Rect;
use crate::geometry::Size2i;
use crate::mat_type::MatDepth;
use crate::mat_type::MatType;
use crate::mat_type::MAX_CHANNELS;
use crate::mat_type::depth_from_code;

verus! {

/// Mathematical content of a [`Mat`]: its dimensions, its element type and
/// its dense row-major bytes.
pub struct MatView {
    /// Row count.
    pub rows: int,
    /// Column count.
    pub cols: int,
    /// Element type.
    pub ty: MatType,
    /// The buffer bytes, row-major, elements contiguous.
    pub data: Seq<u8>,
}

/// How to flip a buffer: see [`Mat::flip`].
#[derive(Clone, Copy, Debug, PartialEq, Eq, Structural)]
pub enum FlipCode {
    /// Around the x axis (vertical flip): row `i` moves to row
    /// `rows - 1 - i`.
    XAxis,
    /// Around the y axis (horizontal flip): column `j` moves to column
    /// `cols - 1 - j`.
    YAxis,
    /// Around both axes: both of the reflections above.
    XYAxis,
}

/// Line connectivity for the native drawing routines.
#[derive(Clone, Copy, Debug, PartialEq, Eq, Structural)]
pub enum LineTypes {
    /// Fill the drawn shape.
    Filled,
    /// 4-connected line.
    Line4,
    /// 8-connected line.
    Line8,
    /// Antialiased line.
    LineAA,
}

/// The native tag of a line connectivity.
pub open spec fn line_type_value(t: LineTypes) -> int {
    match t {
        LineTypes::Filled => -1,
        LineTypes::Line4 => 4,
        LineTypes::Line8 => 8,
        LineTypes::LineAA => 16,
    }
}

impl LineTypes {
    /// Returns the native tag this connectivity stands for.
    pub fn as_value(&self) -> (r: i32)
        ensures
            r == line_type_value(*self),
    {
        match *self {
            LineTypes::Filled => -1,
            LineTypes::Line4 => 4,
            LineTypes::Line8 => 8,
            LineTypes::LineAA => 16,
        }
    }
}

/// Normalization kind for the native normalize routine.
#[derive(Clone, Copy, Debug, PartialEq, Eq, Structural)]
pub enum NormTypes {
    /// Normalize using the maximum norm.
    NormInf,
    /// Normalize using the L1 distance.
    NormL1,
    /// Normalize using the L2 distance.
    NormL2,
    /// Normalize using the squared L2 distance.
    NormL2Sqr,
    /// Normalize using the Hamming distance.
    NormHamming,
    /// Normalize using the two-bit Hamming distance.
    NormHamming2,
    /// Normalize using the relative distance.
    NormRelative,
    /// Stretch onto a minimum-maximum range.
    NormMinMax,
}

/// The native tag of a normalization kind.
pub open spec fn norm_type_value(t: NormTypes) -> int {
    match t {
        NormTypes::NormInf => 1,
        NormTypes::NormL1 => 2,
        NormTypes::NormL2 => 4,
        NormTypes::NormL2Sqr => 5,
        NormTypes::NormHamming => 6,
        NormTypes::NormHamming2 => 7,
        NormTypes::NormRelative => 8,
        NormTypes::NormMinMax => 32,
    }
}

impl NormTypes {
    /// Returns the native tag this normalization kind stands for.
    pub fn as_value(&self) -> (r: i32)
        ensures
            r == norm_type_value(*self),
    {
        match *self {
            NormTypes::NormInf => 1,
            NormTypes::NormL1 => 2,
            NormTypes::NormL2 => 4,
            NormTypes::NormL2Sqr => 5,
            NormTypes::NormHamming => 6,
            NormTypes::NormHamming2 => 7,
            NormTypes::NormRelative => 8,
            NormTypes::NormMinMax => 32,
        }
    }
}

/// Whether a packed element-type tag decodes successfully.
pub open spec fn type_value_ok(cv_type: int) -> bool {
    0 <= cv_type && cv_type / 8 < MAX_CHANNELS
}

/// The element type a packed tag decodes to, as (depth, channels).
pub open spec fn decoded_depth(cv_type: int) -> MatDepth {
    depth_from_code(cv_type % 8)
}

/// The channel count held in a packed tag.
pub open spec fn decoded_channels(cv_type: int) -> int {
    cv_type / 8
}

/// Bytes a buffer of the given dimensions and element type occupies.
pub open spec fn required_bytes(rows: int, cols: int, ty: MatType) -> int {
    rows * cols * ty.spec_elem_size()
}

/// A dense two-dimensional array of elements, the most widely used data
/// structure in image processing.  The wrapper owns its bytes exclusively;
/// releasing them happens exactly once, when the value is dropped.
#[derive(Debug)]
pub struct Mat {
    rows: usize,
    cols: usize,
    ty: MatType,
    data: Vec<u8>,
}

impl View for Mat {
    type V = MatView;

    closed spec fn view(&self) -> MatView {
        MatView {
            rows: self.rows as int,
            cols: self.cols as int,
            ty: self.ty,
            data: self.data@,
        }
    }
}

impl Mat {
    /// Well-formedness: the dimensions are within the range the queries
    /// report, the element type is valid, and the byte count matches the
    /// dimensions exactly.
    pub open spec fn wf(self) -> bool {
        &&& 0 <= self@.rows <= i32::MAX
        &&& 0 <= self@.cols <= i32::MAX
        &&& self@.ty.wf()
        &&& self@.rows * self@.cols <= usize::MAX
        &&& self@.data.len() == required_bytes(self@.rows, self@.cols, self@.ty)
    }

    /// Creates an empty buffer: no rows, no columns, a single 8-bit
    /// channel, no bytes.  Never fails.
    pub fn new() -> (r: Mat)
        ensures
            r.wf(),
            r@.rows == 0,
            r@.cols == 0,
            r@.ty.spec_depth() == MatDepth::Unsigned8,
            r@.ty.spec_channels() == 1,
            r@.data == Seq::<u8>::empty(),
    {
        let ty = MatType::new(MatDepth::Unsigned8, 1).unwrap();
        let m = Mat { rows: 0, cols: 0, ty, data: Vec::new() };
        proof {
            assert(m@.data =~= Seq::<u8>::empty());
        }
        m
    }

    /// Creates a new buffer with the given dimensions and packed element
    /// type, copying its contents from `buf`.
    ///
    /// The buffer owns an independent copy of the first
    /// `rows * cols * elem_size` bytes of `buf`; the caller's bytes are not
    /// aliased.  Fails when the tag does not decode, a dimension is
    /// negative, the element count overflows the machine, or `buf` is too
    /// short; it never reads past `buf` and never panics.
    pub fn from_buffer(rows: i32, cols: i32, cv_type: i32, buf: &Vec<u8>) -> (r: Result<
        Mat,
        Error,
    >)
        ensures
            cv_type < 0 ==> (r matches Err(e) && e == (Error::InvalidTypeValue {
                value: cv_type as i64,
            })),
            cv_type >= 0 && !type_value_ok(cv_type as int) ==> (r matches Err(e) && e == (
            Error::UnsupportedChannelCount {
                supplied: (cv_type / 8) as u32,
                max: MAX_CHANNELS as u32,
            })),
            type_value_ok(cv_type as int) && (rows < 0 || cols < 0) ==> (r matches Err(e) && e == (
            Error::InvalidDimensions { rows: rows as i64, cols: cols as i64 })),
            type_value_ok(cv_type as int) && rows >= 0 && cols >= 0 && rows * cols > usize::MAX
                ==> (r matches Err(e) && e == (Error::InvalidDimensions {
                rows: rows as i64,
                cols: cols as i64,
            })),
            from_buffer_accepts(rows as int, cols as int, cv_type as int, buf@) ==> (r matches Ok(m)
                && m.wf() && m@.rows == rows && m@.cols == cols && m@.ty.spec_depth()
                == decoded_depth(cv_type as int) && m@.ty.spec_channels() == decoded_channels(
                cv_type as int,
            ) && m@.data == buf@.take(required_bytes(rows as int, cols as int, m@.ty))),
            from_buffer_rejects_short(rows as int, cols as int, cv_type as int, buf@) ==> (r matches
                Err(e) && e matches Error::BufferTooSmall { required, available } && available
                == buf@.len() && required == rows * cols * (decoded_channels(cv_type as int)
                * crate::mat_type::depth_byte_size(decoded_depth(cv_type as int)))),
    {
        let ty = match MatType::from_opencv_value(cv_type) {
            Ok(t) => t,
            Err(e) => {
                return Err(e);
            },
        };
        if rows < 0 || cols < 0 {
            return Err(Error::InvalidDimensions { rows: rows as i64, cols: cols as i64 });
        }
        let r: usize = rows as usize;
        let c: usize = cols as usize;
        let elem: usize = ty.elem_size();
        proof {
            lemma_elem_size_bound(ty);
            assert((r as int) * (c as int) <= 0x4000000000000000int) by (nonlinear_arith)
                requires
                    0 <= r < 0x80000000,
                    0 <= c < 0x80000000,
            ;
        }
        let rc_wide: u128 = (r as u128) * (c as u128);
        if rc_wide > usize::MAX as u128 {
            return Err(Error::InvalidDimensions { rows: rows as i64, cols: cols as i64 });
        }
        proof {
            assert((rc_wide as int) * (elem as int) <= 0xFFFFFFFFFFFFFFFFint * 4080int)
                by (nonlinear_arith)
                requires
                    0 <= rc_wide <= 0xFFFFFFFFFFFFFFFFint,
                    0 <= elem <= 4080,
            ;
        }
        let required_wide: u128 = rc_wide * (elem as u128);
        if (buf.len() as u128) < required_wide {
            return Err(Error::BufferTooSmall { required: required_wide, available: buf.len() });
        }
        let required: usize = (rc_wide as usize) * elem;
        proof {
            assert(required == required_bytes(rows as int, cols as int, ty));
        }
        let mut data: Vec<u8> = Vec::new();
        let mut i: usize = 0;
        while i < required
            invariant
                i <= required,
                required <= buf@.len(),
                data@ == buf@.take(i as int),
            decreases required - i,
        {
            data.push(buf[i]);
            proof {
                assert(data@ =~= buf@.take(i + 1 as int));
            }
            i = i + 1;
        }
        let m = Mat { rows: r, cols: c, ty, data };
        Ok(m)
    }

    /// Returns the total number of elements (a pixel count when the buffer
    /// is an image).
    pub fn total(&self) -> (r: usize)
        requires
            self.wf(),
        ensures
            r == self@.rows * self@.cols,
    {
        self.rows * self.cols
    }

    /// Returns the element size in bytes: the channel count times the
    /// per-channel width.
    pub fn elem_size(&self) -> (r: usize)
        ensures
            r == self@.ty.spec_elem_size(),
    {
        self.ty.elem_size()
    }

    /// Returns the height of this buffer.
    pub fn rows(&self) -> (r: i32)
        requires
            self.wf(),
        ensures
            r == self@.rows,
    {
        self.rows as i32
    }

    /// Returns the width of this buffer.
    pub fn cols(&self) -> (r: i32)
        requires
            self.wf(),
        ensures
            r == self@.cols,
    {
        self.cols as i32
    }

    /// Returns the size of this buffer as (width, height).
    pub fn size(&self) -> (r: Size2i)
        requires
            self.wf(),
        ensures
            r.width == self@.cols,
            r.height == self@.rows,
    {
        Size2i { width: self.cols(), height: self.rows() }
    }

    /// Returns the buffer's element type.
    pub fn mat_type(&self) -> (r: MatType)
        ensures
            r == self@.ty,
    {
        self.ty
    }

    /// Reports whether the buffer holds any bytes.  A freshly constructed
    /// empty buffer is not valid; every query on it still answers (with
    /// zero or a default) rather than crash.
    pub fn is_valid(&self) -> (r: bool)
        ensures
            r == (self@.data.len() > 0),
    {
        self.data.len() > 0
    }

    /// Read-only access to the dense bytes, row-major.
    pub fn data(&self) -> (r: &Vec<u8>)
        ensures
            r@ == self@.data,
    {
        &self.data
    }

    /// Creates a zero-filled buffer with the given dimensions and element
    /// type.  Fails on a negative dimension or on an element count the
    /// machine cannot address.
    pub fn with_size(rows: i32, cols: i32, mat_type: MatType) -> (r: Result<Mat, Error>)
        requires
            mat_type.wf(),
        ensures
            rows < 0 || cols < 0 ==> (r matches Err(e) && e == (Error::InvalidDimensions {
                rows: rows as i64,
                cols: cols as i64,
            })),
            rows >= 0 && cols >= 0 && (rows * cols > usize::MAX || rows * cols
                * mat_type.spec_elem_size() > usize::MAX) ==> (r matches Err(e) && e == (
            Error::InvalidDimensions { rows: rows as i64, cols: cols as i64 })),
            rows >= 0 && cols >= 0 && rows * cols <= usize::MAX && rows * cols
                * mat_type.spec_elem_size() <= usize::MAX ==> (r matches Ok(m) && m.wf() && m@.rows
                == rows && m@.cols == cols && m@.ty == mat_type && m@.data == Seq::new(
                (rows * cols * mat_type.spec_elem_size()) as nat,
                |i: int| 0u8,
            )),
    {
        if rows < 0 || cols < 0 {
            return Err(Error::InvalidDimensions { rows: rows as i64, cols: cols as i64 });
        }
        let r: usize = rows as usize;
        let c: usize = cols as usize;
        let elem: usize = mat_type.elem_size();
        proof {
            lemma_elem_size_bound(mat_type);
            assert((r as int) * (c as int) <= 0x4000000000000000int) by (nonlinear_arith)
                requires
                    0 <= r < 0x80000000,
                    0 <= c < 0x80000000,
            ;
        }
        let rc_wide: u128 = (r as u128) * (c as u128);
        proof {
            assert((rc_wide as int) * (elem as int) <= 0x4000000000000000int * 4080int)
                by (nonlinear_arith)
                requires
                    0 <= rc_wide <= 0x4000000000000000int,
                    0 <= elem <= 4080,
            ;
        }
        let required_wide: u128 = rc_wide * (elem as u128);
        if rc_wide > usize::MAX as u128 || required_wide > usize::MAX as u128 {
            return Err(Error::InvalidDimensions { rows: rows as i64, cols: cols as i64 });
        }
        let required: usize = required_wide as usize;
        let data: Vec<u8> = vec![0u8; required];
        let m = Mat { rows: r, cols: c, ty: mat_type, data };
        proof {
            assert(m@.data =~= Seq::new(
                (rows * cols * mat_type.spec_elem_size()) as nat,
                |i: int| 0u8,
            ));
        }
        Ok(m)
    }

    /// Creates a zero-filled buffer with the given dimensions and packed
    /// element-type tag.  Fails when the tag does not decode, a dimension
    /// is negative, or the element count cannot be addressed.
    pub fn zeros(rows: i32, cols: i32, t: i32) -> (r: Result<Mat, Error>)
        ensures
            t < 0 ==> (r matches Err(e) && e == (Error::InvalidTypeValue { value: t as i64 })),
            t >= 0 && !type_value_ok(t as int) ==> (r matches Err(e) && e == (
            Error::UnsupportedChannelCount {
                supplied: (t / 8) as u32,
                max: MAX_CHANNELS as u32,
            })),
            type_value_ok(t as int) && (rows < 0 || cols < 0) ==> (r matches Err(e) && e == (
            Error::InvalidDimensions { rows: rows as i64, cols: cols as i64 })),
            type_value_ok(t as int) && rows >= 0 && cols >= 0 && rows * cols <= usize::MAX && rows
                * cols * (decoded_channels(t as int) * crate::mat_type::depth_byte_size(
                decoded_depth(t as int),
            )) <= usize::MAX ==> (r matches Ok(m) && m.wf() && m@.rows == rows && m@.cols == cols
                && m@.ty.spec_depth() == decoded_depth(t as int) && m@.ty.spec_channels()
                == decoded_channels(t as int) && m@.data == Seq::new(
                (rows * cols * m@.ty.spec_elem_size()) as nat,
                |i: int| 0u8,
            )),
    {
        let ty = match MatType::from_opencv_value(t) {
            Ok(ty) => ty,
            Err(e) => {
                return Err(e);
            },
        };
        Mat::with_size(rows, cols, ty)
    }

    /// Flips the buffer in place around the vertical, horizontal, or both
    /// axes.  A vertical flip moves row `i` to row `rows - 1 - i`; a
    /// horizontal flip moves column `j` to column `cols - 1 - j`; the
    /// both-axes flip applies both reflections.  Never fails.
    pub fn flip(&mut self, code: FlipCode)
        requires
            old(self).wf(),
        ensures
            final(self).wf(),
            final(self)@.rows == old(self)@.rows,
            final(self)@.cols == old(self)@.cols,
            final(self)@.ty == old(self)@.ty,
            final(self)@.data == flipped_data(
                old(self)@.data,
                old(self)@.rows,
                old(self)@.cols,
                old(self)@.ty.spec_elem_size(),
                flips_rows(code),
                flips_cols(code),
            ),
    {
        let flip_r: bool = match code {
            FlipCode::XAxis => true,
            FlipCode::YAxis => false,
            FlipCode::XYAxis => true,
        };
        let flip_c: bool = match code {
            FlipCode::XAxis => false,
            FlipCode::YAxis => true,
            FlipCode::XYAxis => true,
        };
        let rows = self.rows;
        let cols = self.cols;
        let elem = self.ty.elem_size();
        if rows == 0 || cols == 0 || elem == 0 {
            proof {
                assert(self@.data.len() == 0) by (nonlinear_arith)
                    requires
                        self@.data.len() == self@.rows * self@.cols * self@.ty.spec_elem_size(),
                        self@.rows == 0 || self@.cols == 0 || self@.ty.spec_elem_size() == 0,
                ;
                assert(flipped_data(
                    self@.data,
                    self@.rows,
                    self@.cols,
                    self@.ty.spec_elem_size(),
                    flip_r,
                    flip_c,
                ) =~= self@.data);
            }
            return ;
        }
        let len = self.data.len();
        proof {
            assert((cols as int) * (elem as int) <= len && 0 < (cols as int) * (elem as int))
                by (nonlinear_arith)
                requires
                    1 <= rows,
                    0 < cols,
                    0 < elem,
                    len == (rows as int) * (cols as int) * (elem as int),
            ;
        }
        let row_bytes: usize = cols * elem;
        let mut out: Vec<u8> = Vec::new();
        let mut i: usize = 0;
        while i < len
            invariant
                self.wf(),
                self@ == old(self)@,
                i <= len,
                len == self@.data.len(),
                rows == self@.rows,
                cols == self@.cols,
                elem == self@.ty.spec_elem_size(),
                0 < rows,
                0 < cols,
                0 < elem,
                0 < row_bytes,
                row_bytes == cols * elem,
                out@.len() == i,
                forall|j: int|
                    0 <= j < i ==> out@[j] == flipped_data(
                        self@.data,
                        self@.rows,
                        self@.cols,
                        self@.ty.spec_elem_size(),
                        flip_r,
                        flip_c,
                    )[j],
            decreases len - i,
        {
            proof {
                lemma_index_parts(rows as int, cols as int, elem as int, i as int);
            }
            let r = i / row_bytes;
            let o = i % row_bytes;
            let c = o / elem;
            let k = o % elem;
            let r2 = if flip_r {
                rows - 1 - r
            } else {
                r
            };
            let c2 = if flip_c {
                cols - 1 - c
            } else {
                c
            };
            proof {
                lemma_index_compose(rows as int, cols as int, elem as int, r2 as int, c2 as int, k as int);
                assert((r2 as int) * (row_bytes as int) >= 0) by (nonlinear_arith)
                    requires
                        0 <= r2,
                        0 <= row_bytes,
                ;
                assert((c2 as int) * (elem as int) >= 0) by (nonlinear_arith)
                    requires
                        0 <= c2,
                        0 <= elem,
                ;
            }
            let src: usize = r2 * row_bytes + c2 * elem + k;
            out.push(self.data[src]);
            i = i + 1;
        }
        self.data = out;
        proof {
            assert(self@.data =~= flipped_data(
                old(self)@.data,
                old(self)@.rows,
                old(self)@.cols,
                old(self)@.ty.spec_elem_size(),
                flip_r,
                flip_c,
            ));
        }
    }

    /// Returns the region of interest denoted by `rect`: a fresh buffer
    /// holding a copy of the sub-rectangle's bytes.  A rectangle that does
    /// not lie inside the buffer is rejected; no byte outside the buffer
    /// is ever read.
    pub fn roi(&self, rect: Rect) -> (res: Result<Mat, Error>)
        requires
            self.wf(),
        ensures
            roi_in_bounds(rect, self@.rows, self@.cols) ==> (res matches Ok(m) && m.wf() && m@.rows
                == rect.height && m@.cols == rect.width && m@.ty == self@.ty && m@.data
                == roi_bytes(
                self@.data,
                self@.cols,
                self@.ty.spec_elem_size(),
                rect.x as int,
                rect.y as int,
                rect.width as int,
                rect.height as int,
            )),
            !roi_in_bounds(rect, self@.rows, self@.cols) ==> (res matches Err(e) && e
                == Error::RoiOutOfBounds),
    {
        if rect.x < 0 || rect.y < 0 || rect.width < 0 || rect.height < 0 {
            return Err(Error::RoiOutOfBounds);
        }
        if (rect.x as i64) + (rect.width as i64) > (self.cols() as i64) || (rect.y as i64) + (
        rect.height as i64) > (self.rows() as i64) {
            return Err(Error::RoiOutOfBounds);
        }
        let x: usize = rect.x as usize;
        let y: usize = rect.y as usize;
        let w: usize = rect.width as usize;
        let h: usize = rect.height as usize;
        let rows = self.rows;
        let cols = self.cols;
        let elem = self.ty.elem_size();
        proof {
            assert((h as int) * (w as int) <= (rows as int) * (cols as int)) by (nonlinear_arith)
                requires
                    0 <= h <= rows as int,
                    0 <= w <= cols as int,
                    0 <= rows,
            ;
        }
        if h == 0 || w == 0 || elem == 0 {
            let m = Mat { rows: h, cols: w, ty: self.ty, data: Vec::new() };
            proof {
                assert((h as int) * (w as int) * (elem as int) == 0 && (h as int) * ((w as int)
                    * (elem as int)) == 0) by (nonlinear_arith)
                    requires
                        h == 0 || w == 0 || elem == 0,
                ;
                assert(m@.data =~= roi_bytes(
                    self@.data,
                    cols as int,
                    elem as int,
                    x as int,
                    y as int,
                    w as int,
                    h as int,
                ));
            }
            return Ok(m);
        }
        let len = self.data.len();
        proof {
            assert((w as int) * (elem as int) <= (cols as int) * (elem as int) && (cols as int) * (
            elem as int) <= (rows as int) * ((cols as int) * (elem as int)) && (h as int) * ((
            w as int) * (elem as int)) <= (rows as int) * ((cols as int) * (elem as int)) && (
            rows as int) * ((cols as int) * (elem as int)) == (rows as int) * (cols as int) * (
            elem as int)) by (nonlinear_arith)
                requires
                    0 < h <= rows as int,
                    0 < w <= cols as int,
                    0 < elem,
            ;
        }
        let out_rb: usize = w * elem;
        let out_len: usize = h * out_rb;
        let row_bytes: usize = cols * elem;
        let mut out: Vec<u8> = Vec::new();
        let mut i: usize = 0;
        while i < out_len
            invariant
                self.wf(),
                i <= out_len,
                len == self@.data.len(),
                rows == self@.rows,
                cols == self@.cols,
                elem == self@.ty.spec_elem_size(),
                0 < h,
                0 < w,
                0 < elem,
                (x as int) + (w as int) <= cols as int,
                (y as int) + (h as int) <= rows as int,
                out_rb == (w as int) * (elem as int),
                out_len == (h as int) * ((w as int) * (elem as int)),
                out_len <= len,
                row_bytes == (cols as int) * (elem as int),
                out@.len() == i,
                forall|j: int|
                    0 <= j < i ==> out@[j] == roi_bytes(
                        self@.data,
                        cols as int,
                        elem as int,
                        x as int,
                        y as int,
                        w as int,
                        h as int,
                    )[j],
            decreases out_len - i,
        {
            proof {
                lemma_roi_source(
                    rows as int,
                    cols as int,
                    elem as int,
                    x as int,
                    y as int,
                    w as int,
                    h as int,
                    i as int,
                );
            }
            let rr: usize = i / out_rb;
            let o: usize = i % out_rb;
            let src: usize = (y + rr) * row_bytes + x * elem + o;
            out.push(self.data[src]);
            i = i + 1;
        }
        let m = Mat { rows: h, cols: w, ty: self.ty, data: out };
        proof {
            assert((h as int) * (w as int) * (elem as int) == (h as int) * ((w as int) * (
            elem as int))) by (nonlinear_arith);
            assert(m@.data =~= roi_bytes(
                self@.data,
                cols as int,
                elem as int,
                x as int,
                y as int,
                w as int,
                h as int,
            ));
        }
        Ok(m)
    }

    /// Applies `mask` to this buffer in place: every byte becomes the
    /// bitwise conjunction of itself with the mask's byte.  The mask must
    /// have the same dimensions and element type; a mismatch is rejected
    /// and leaves the buffer unchanged.
    pub fn logic_and(&mut self, mask: Mat) -> (r: Result<(), Error>)
        requires
            old(self).wf(),
            mask.wf(),
        ensures
            final(self).wf(),
            same_shape(old(self)@, mask@) ==> (r matches Ok(u) && final(self)@.rows == old(
                self,
            )@.rows && final(self)@.cols == old(self)@.cols && final(self)@.ty == old(self)@.ty
                && final(self)@.data == bytes_and(old(self)@.data, mask@.data)),
            !same_shape(old(self)@, mask@) ==> (r matches Err(e) && e == Error::SizeMismatch
                && final(self)@ == old(self)@),
    {
        if self.rows != mask.rows || self.cols != mask.cols || self.ty != mask.ty {
            return Err(Error::SizeMismatch);
        }
        let len = self.data.len();
        let mut out: Vec<u8> = Vec::new();
        let mut i: usize = 0;
        while i < len
            invariant
                self.wf(),
                self@ == old(self)@,
                i <= len,
                len == self@.data.len(),
                len == mask@.data.len(),
                out@.len() == i,
                forall|j: int| 0 <= j < i ==> out@[j] == (self@.data[j] & mask@.data[j]),
            decreases len - i,
        {
            out.push(self.data[i] & mask.data[i]);
            i = i + 1;
        }
        self.data = out;
        proof {
            assert(self@.data =~= bytes_and(old(self)@.data, mask@.data));
        }
        Ok(())
    }

    /// Computes the pointwise bitwise conjunction of two buffers of equal
    /// shape, into a freshly owned buffer.
    pub fn and(&self, another: &Mat) -> (r: Result<Mat, Error>)
        requires
            self.wf(),
            another.wf(),
        ensures
            same_shape(self@, another@) ==> (r matches Ok(m) && m.wf() && m@.rows == self@.rows
                && m@.cols == self@.cols && m@.ty == self@.ty && m@.data == bytes_and(
                self@.data,
                another@.data,
            )),
            !same_shape(self@, another@) ==> (r matches Err(e) && e == Error::SizeMismatch),
    {
        if self.rows != another.rows || self.cols != another.cols || self.ty != another.ty {
            return Err(Error::SizeMismatch);
        }
        let len = self.data.len();
        let mut out: Vec<u8> = Vec::new();
        let mut i: usize = 0;
        while i < len
            invariant
                i <= len,
                len == self@.data.len(),
                len == another@.data.len(),
                out@.len() == i,
                forall|j: int| 0 <= j < i ==> out@[j] == (self@.data[j] & another@.data[j]),
            decreases len - i,
        {
            out.push(self.data[i] & another.data[i]);
            i = i + 1;
        }
        let m = Mat { rows: self.rows, cols: self.cols, ty: self.ty, data: out };
        proof {
            assert(m@.data =~= bytes_and(self@.data, another@.data));
        }
        Ok(m)
    }

    /// Computes the pointwise bitwise disjunction of two buffers of equal
    /// shape, into a freshly owned buffer.
    pub fn or(&self, another: &Mat) -> (r: Result<Mat, Error>)
        requires
            self.wf(),
            another.wf(),
        ensures
            same_shape(self@, another@) ==> (r matches Ok(m) && m.wf() && m@.rows == self@.rows
                && m@.cols == self@.cols && m@.ty == self@.ty && m@.data == bytes_or(
                self@.data,
                another@.data,
            )),
            !same_shape(self@, another@) ==> (r matches Err(e) && e == Error::SizeMismatch),
    {
        if self.rows != another.rows || self.cols != another.cols || self.ty != another.ty {
            return Err(Error::SizeMismatch);
        }
        let len = self.data.len();
        let mut out: Vec<u8> = Vec::new();
        let mut i: usize = 0;
        while i < len
            invariant
                i <= len,
                len == self@.data.len(),
                len == another@.data.len(),
                out@.len() == i,
                forall|j: int| 0 <= j < i ==> out@[j] == (self@.data[j] | another@.data[j]),
            decreases len - i,
        {
            out.push(self.data[i] | another.data[i]);
            i = i + 1;
        }
        let m = Mat { rows: self.rows, cols: self.cols, ty: self.ty, data: out };
        proof {
            assert(m@.data =~= bytes_or(self@.data, another@.data));
        }
        Ok(m)
    }

    /// Computes the pointwise bitwise exclusive-or of two buffers of equal
    /// shape, into a freshly owned buffer.
    pub fn xor(&self, another: &Mat) -> (r: Result<Mat, Error>)
        requires
            self.wf(),
            another.wf(),
        ensures
            same_shape(self@, another@) ==> (r matches Ok(m) && m.wf() && m@.rows == self@.rows
                && m@.cols == self@.cols && m@.ty == self@.ty && m@.data == bytes_xor(
                self@.data,
                another@.data,
            )),
            !same_shape(self@, another@) ==> (r matches Err(e) && e == Error::SizeMismatch),
    {
        if self.rows != another.rows || self.cols != another.cols || self.ty != another.ty {
            return Err(Error::SizeMismatch);
        }
        let len = self.data.len();
        let mut out: Vec<u8> = Vec::new();
        let mut i: usize = 0;
        while i < len
            invariant
                i <= len,
                len == self@.data.len(),
                len == another@.data.len(),
                out@.len() == i,
                forall|j: int| 0 <= j < i ==> out@[j] == (self@.data[j] ^ another@.data[j]),
            decreases len - i,
        {
            out.push(self.data[i] ^ another.data[i]);
            i = i + 1;
        }
        let m = Mat { rows: self.rows, cols: self.cols, ty: self.ty, data: out };
        proof {
            assert(m@.data =~= bytes_xor(self@.data, another@.data));
        }
        Ok(m)
    }

    /// Computes the pointwise bitwise negation of this buffer, into a
    /// freshly owned buffer.  Never fails.
    pub fn not(&self) -> (m: Mat)
        requires
            self.wf(),
        ensures
            m.wf(),
            m@.rows == self@.rows,
            m@.cols == self@.cols,
            m@.ty == self@.ty,
            m@.data == bytes_not(self@.data),
    {
        let len = self.data.len();
        let mut out: Vec<u8> = Vec::new();
        let mut i: usize = 0;
        while i < len
            invariant
                i <= len,
                len == self@.data.len(),
                out@.len() == i,
                forall|j: int| 0 <= j < i ==> out@[j] == !self@.data[j],
            decreases len - i,
        {
            out.push(!self.data[i]);
            i = i + 1;
        }
        let m = Mat { rows: self.rows, cols: self.cols, ty: self.ty, data: out };
        proof {
            assert(m@.data =~= bytes_not(self@.data));
        }
        m
    }

    /// Counts the elements with at least one non-zero byte.
    pub fn count_non_zero(&self) -> (r: usize)
        requires
            self.wf(),
        ensures
            r == count_nonzero_up_to(
                self@.data,
                self@.ty.spec_elem_size(),
                self@.rows * self@.cols,
            ),
            r <= self@.rows * self@.cols,
    {
        let total: usize = self.rows * self.cols;
        let elem: usize = self.ty.elem_size();
        proof {
            assert((total as int) * (elem as int) == self@.rows * self@.cols
                * self@.ty.spec_elem_size()) by (nonlinear_arith)
                requires
                    total as int == self@.rows * self@.cols,
                    elem == self@.ty.spec_elem_size(),
            ;
        }
        let len: usize = self.data.len();
        let mut count: usize = 0;
        let mut j: usize = 0;
        while j < total
            invariant
                self.wf(),
                j <= total,
                count <= j,
                total == self@.rows * self@.cols,
                elem == self@.ty.spec_elem_size(),
                len == self@.data.len(),
                (total as int) * (elem as int) == len,
                count == count_nonzero_up_to(self@.data, elem as int, j as int),
            decreases total - j,
        {
            proof {
                assert((j as int) * (elem as int) + (elem as int) <= (total as int) * (
                elem as int)) by (nonlinear_arith)
                    requires
                        0 <= j < total,
                        0 <= elem,
                ;
                assert((j as int) * (elem as int) >= 0) by (nonlinear_arith)
                    requires
                        0 <= j,
                        0 <= elem,
                ;
                assert((j as int) * (elem as int) + (elem as int) <= self@.data.len());
            }
            let base: usize = j * elem;
            let mut found = false;
            let mut k: usize = 0;
            while k < elem
                invariant
                    self.wf(),
                    k <= elem,
                    elem == self@.ty.spec_elem_size(),
                    base == (j as int) * (elem as int),
                    len == self@.data.len(),
                    base + elem <= len,
                    found == exists|k2: int|
                        0 <= k2 < k && #[trigger] self@.data[(j as int) * (elem as int) + k2]
                            != 0u8,
                decreases elem - k,
            {
                if self.data[base + k] != 0 {
                    found = true;
                }
                k = k + 1;
            }
            proof {
                assert(found == elem_is_nonzero(self@.data, elem as int, j as int));
            }
            if found {
                count = count + 1;
            }
            j = j + 1;
        }
        count
    }
}

/// The inputs on which [`Mat::from_buffer`] is owed success: the tag
/// decodes, the dimensions are non-negative and addressable, and the byte
/// source covers them.
pub open spec fn from_buffer_accepts(rows: int, cols: int, cv_type: int, buf: Seq<u8>) -> bool {
    &&& type_value_ok(cv_type)
    &&& 0 <= rows
    &&& 0 <= cols
    &&& rows * cols <= usize::MAX
    &&& rows * cols * (decoded_channels(cv_type) * crate::mat_type::depth_byte_size(
        decoded_depth(cv_type),
    )) <= buf.len()
}

/// The inputs on which [`Mat::from_buffer`] reports a short byte source.
pub open spec fn from_buffer_rejects_short(rows: int, cols: int, cv_type: int, buf: Seq<u8>) -> bool {
    &&& type_value_ok(cv_type)
    &&& 0 <= rows
    &&& 0 <= cols
    &&& rows * cols <= usize::MAX
    &&& rows * cols * (decoded_channels(cv_type) * crate::mat_type::depth_byte_size(
        decoded_depth(cv_type),
    )) > buf.len()
}

/// A valid element type occupies at most `510 * 8` bytes per element.
proof fn lemma_elem_size_bound(ty: MatType)
    requires
        ty.wf(),
    ensures
        0 <= ty.spec_elem_size() <= 4080,
{
    assert(0 <= depth_byte_size_of(ty) <= 8);
    assert(ty.spec_channels() * depth_byte_size_of(ty) <= 510 * 8) by (nonlinear_arith)
        requires
            0 <= ty.spec_channels() <= 510,
            0 <= depth_byte_size_of(ty) <= 8,
    ;
}

/// Per-channel width of a type's depth; a shorthand used in proofs.
pub open spec fn depth_byte_size_of(ty: MatType) -> int {
    crate::mat_type::depth_byte_size(ty.spec_depth())
}

/// Whether a flip code reflects the rows (a flip around the x axis).
pub open spec fn flips_rows(code: FlipCode) -> bool {
    code == FlipCode::XAxis || code == FlipCode::XYAxis
}

/// Whether a flip code reflects the columns (a flip around the y axis).
pub open spec fn flips_cols(code: FlipCode) -> bool {
    code == FlipCode::YAxis || code == FlipCode::XYAxis
}

/// The position a flipped buffer reads its byte `i` from, in the original
/// buffer: the byte keeps its offset `k` inside its element, while the
/// element's row moves to `rows - 1 - row` under a row flip and its column
/// to `cols - 1 - col` under a column flip.
pub open spec fn flip_source_index(
    rows: int,
    cols: int,
    elem: int,
    flip_r: bool,
    flip_c: bool,
    i: int,
) -> int {
    let row_bytes = cols * elem;
    let r = i / row_bytes;
    let o = i % row_bytes;
    let c = o / elem;
    let k = o % elem;
    let r2 = if flip_r {
        rows - 1 - r
    } else {
        r
    };
    let c2 = if flip_c {
        cols - 1 - c
    } else {
        c
    };
    r2 * row_bytes + c2 * elem + k
}

/// The bytes of a buffer after a flip around the chosen axes.
pub open spec fn flipped_data(
    data: Seq<u8>,
    rows: int,
    cols: int,
    elem: int,
    flip_r: bool,
    flip_c: bool,
) -> Seq<u8> {
    Seq::new(data.len(), |i: int| data[flip_source_index(rows, cols, elem, flip_r, flip_c, i)])
}

/// Composing a byte position from its row, column and in-element offset
/// lands inside the buffer, and decomposing it gives the parts back.
proof fn lemma_index_compose(rows: int, cols: int, elem: int, r: int, c: int, k: int)
    requires
        0 < elem,
        0 < cols,
        0 < rows,
        0 <= r < rows,
        0 <= c < cols,
        0 <= k < elem,
    ensures
        0 <= r * (cols * elem) + c * elem + k < rows * cols * elem,
        (r * (cols * elem) + c * elem + k) / (cols * elem) == r,
        (r * (cols * elem) + c * elem + k) % (cols * elem) == c * elem + k,
        (c * elem + k) / elem == c,
        (c * elem + k) % elem == k,
{
    let rb = cols * elem;
    let o = c * elem + k;
    assert(0 <= o < rb) by (nonlinear_arith)
        requires
            0 < elem,
            0 < cols,
            0 <= c < cols,
            0 <= k < elem,
            o == c * elem + k,
            rb == cols * elem,
    ;
    assert(0 <= r * rb + o < rows * cols * elem) by (nonlinear_arith)
        requires
            0 < rb,
            0 < rows,
            0 <= r < rows,
            0 <= o < rb,
            rb == cols * elem,
    ;
    lemma_fundamental_div_mod_converse(r * rb + o, rb, r, o);
    lemma_fundamental_div_mod_converse(o, elem, c, k);
}

/// Every byte position inside the buffer decomposes into a row, a column
/// and an in-element offset, each within its bound.
proof fn lemma_index_parts(rows: int, cols: int, elem: int, i: int)
    requires
        0 < elem,
        0 < cols,
        0 < rows,
        0 <= i < rows * cols * elem,
    ensures
        0 <= i / (cols * elem) < rows,
        0 <= (i % (cols * elem)) / elem < cols,
        0 <= (i % (cols * elem)) % elem < elem,
        i == (i / (cols * elem)) * (cols * elem) + ((i % (cols * elem)) / elem) * elem + (i % (cols
            * elem)) % elem,
{
    let rb = cols * elem;
    assert(0 < rb) by (nonlinear_arith)
        requires
            0 < cols,
            0 < elem,
            rb == cols * elem,
    ;
    lemma_fundamental_div_mod(i, rb);
    lemma_mod_bound(i, rb);
    lemma_div_pos_is_pos(i, rb);
    let r = i / rb;
    let o = i % rb;
    assert(r < rows) by (nonlinear_arith)
        requires
            i == rb * r + o,
            0 <= o < rb,
            0 <= r,
            i < rows * cols * elem,
            rb == cols * elem,
    ;
    lemma_fundamental_div_mod(o, elem);
    lemma_mod_bound(o, elem);
    lemma_div_pos_is_pos(o, elem);
    let c = o / elem;
    let k = o % elem;
    assert(c < cols) by (nonlinear_arith)
        requires
            o == elem * c + k,
            0 <= k < elem,
            0 <= c,
            o < rb,
            rb == cols * elem,
    ;
    assert(rb * r == r * rb) by (nonlinear_arith);
    assert(elem * c == c * elem) by (nonlinear_arith);
}

/// The flip source map stays inside the buffer, and following one flip
/// with another is following a single flip around the axes where exactly
/// one of the two reflected.
proof fn lemma_flip_source_compose(
    rows: int,
    cols: int,
    elem: int,
    fr1: bool,
    fc1: bool,
    fr2: bool,
    fc2: bool,
    i: int,
)
    requires
        0 < elem,
        0 < cols,
        0 < rows,
        0 <= i < rows * cols * elem,
    ensures
        0 <= flip_source_index(rows, cols, elem, fr2, fc2, i) < rows * cols * elem,
        flip_source_index(
            rows,
            cols,
            elem,
            fr1,
            fc1,
            flip_source_index(rows, cols, elem, fr2, fc2, i),
        ) == flip_source_index(rows, cols, elem, fr1 != fr2, fc1 != fc2, i),
{
    let rb = cols * elem;
    lemma_index_parts(rows, cols, elem, i);
    let r = i / rb;
    let o = i % rb;
    let c = o / elem;
    let k = o % elem;
    let r2 = if fr2 {
        rows - 1 - r
    } else {
        r
    };
    let c2 = if fc2 {
        cols - 1 - c
    } else {
        c
    };
    lemma_index_compose(rows, cols, elem, r2, c2, k);
    let s = flip_source_index(rows, cols, elem, fr2, fc2, i);
    assert(s == r2 * rb + c2 * elem + k);
    assert(s / rb == r2 && s % rb == c2 * elem + k);
    assert((s % rb) / elem == c2 && (s % rb) % elem == k);
}

/// Flipping around no axis reads every byte from its own position.
pub proof fn lemma_flipped_data_identity(data: Seq<u8>, rows: int, cols: int, elem: int)
    requires
        0 <= rows,
        0 <= cols,
        0 <= elem,
        data.len() == rows * cols * elem,
    ensures
        flipped_data(data, rows, cols, elem, false, false) == data,
{
    if rows == 0 || cols == 0 || elem == 0 {
        assert(rows * cols * elem == 0) by (nonlinear_arith)
            requires
                rows == 0 || cols == 0 || elem == 0,
        ;
        assert(flipped_data(data, rows, cols, elem, false, false) =~= data);
    } else {
        assert forall|i: int| 0 <= i < data.len() implies flipped_data(
            data,
            rows,
            cols,
            elem,
            false,
            false,
        )[i] == data[i] by {
            lemma_index_parts(rows, cols, elem, i);
        }
        assert(flipped_data(data, rows, cols, elem, false, false) =~= data);
    }
}

/// Law: two successive flips of one buffer amount to a single flip around
/// the axes where exactly one of the two reflected.
pub proof fn lemma_flipped_data_compose(
    data: Seq<u8>,
    rows: int,
    cols: int,
    elem: int,
    fr1: bool,
    fc1: bool,
    fr2: bool,
    fc2: bool,
)
    requires
        0 <= rows,
        0 <= cols,
        0 <= elem,
        data.len() == rows * cols * elem,
    ensures
        flipped_data(flipped_data(data, rows, cols, elem, fr1, fc1), rows, cols, elem, fr2, fc2)
            == flipped_data(data, rows, cols, elem, fr1 != fr2, fc1 != fc2),
{
    let inner = flipped_data(data, rows, cols, elem, fr1, fc1);
    let lhs = flipped_data(inner, rows, cols, elem, fr2, fc2);
    let rhs = flipped_data(data, rows, cols, elem, fr1 != fr2, fc1 != fc2);
    if rows == 0 || cols == 0 || elem == 0 {
        assert(rows * cols * elem == 0) by (nonlinear_arith)
            requires
                rows == 0 || cols == 0 || elem == 0,
        ;
        assert(lhs =~= rhs);
    } else {
        assert forall|i: int| 0 <= i < data.len() implies lhs[i] == rhs[i] by {
            lemma_flip_source_compose(rows, cols, elem, fr1, fc1, fr2, fc2, i);
        }
        assert(lhs =~= rhs);
    }
}

/// Law: a vertical flip is an involution.  Flipping a buffer around the
/// x axis twice returns pixel data identical to the original, whatever the
/// buffer's shape.
pub proof fn lemma_flip_vertical_involution(data: Seq<u8>, rows: int, cols: int, elem: int)
    requires
        0 <= rows,
        0 <= cols,
        0 <= elem,
        data.len() == rows * cols * elem,
    ensures
        flipped_data(flipped_data(data, rows, cols, elem, true, false), rows, cols, elem, true, false)
            == data,
{
    lemma_flipped_data_compose(data, rows, cols, elem, true, false, true, false);
    lemma_flipped_data_identity(data, rows, cols, elem);
}

/// Law: a horizontal flip followed by a vertical flip equals one flip
/// around both axes, for any rectangular buffer.
pub proof fn lemma_flip_horizontal_then_vertical_is_both(
    data: Seq<u8>,
    rows: int,
    cols: int,
    elem: int,
)
    requires
        0 <= rows,
        0 <= cols,
        0 <= elem,
        data.len() == rows * cols * elem,
    ensures
        flipped_data(flipped_data(data, rows, cols, elem, false, true), rows, cols, elem, true, false)
            == flipped_data(data, rows, cols, elem, true, true),
{
    lemma_flipped_data_compose(data, rows, cols, elem, false, true, true, false);
}

/// Every byte position of a region of interest reads from a position
/// inside the parent buffer.
proof fn lemma_roi_source(
    rows: int,
    cols: int,
    elem: int,
    x: int,
    y: int,
    w: int,
    h: int,
    i: int,
)
    requires
        0 < elem,
        0 < w,
        0 < h,
        0 <= x,
        0 <= y,
        x + w <= cols,
        y + h <= rows,
        0 <= i < h * (w * elem),
    ensures
        0 <= i / (w * elem) < h,
        0 <= i % (w * elem) < w * elem,
        0 <= (y + i / (w * elem)) * (cols * elem),
        0 <= x * elem,
        (y + i / (w * elem)) * (cols * elem) + x * elem + i % (w * elem) < rows * cols * elem,
{
    let orb = w * elem;
    assert(0 < orb) by (nonlinear_arith)
        requires
            0 < w,
            0 < elem,
            orb == w * elem,
    ;
    lemma_fundamental_div_mod(i, orb);
    lemma_mod_bound(i, orb);
    lemma_div_pos_is_pos(i, orb);
    let rr = i / orb;
    let o = i % orb;
    assert(rr < h) by (nonlinear_arith)
        requires
            i == orb * rr + o,
            0 <= o < orb,
            0 <= rr,
            i < h * orb,
            0 < orb,
    ;
    assert(0 <= (y + rr) * (cols * elem)) by (nonlinear_arith)
        requires
            0 <= y + rr,
            0 < cols,
            0 < elem,
    ;
    assert(0 <= x * elem) by (nonlinear_arith)
        requires
            0 <= x,
            0 < elem,
    ;
    assert((y + rr) * (cols * elem) + x * elem + o < rows * cols * elem) by (nonlinear_arith)
        requires
            0 <= y,
            0 <= rr < h,
            y + h <= rows,
            0 <= x,
            0 <= o < orb,
            orb == w * elem,
            x + w <= cols,
            0 < elem,
            0 < cols,
            0 < rows,
    ;
}

/// Whether a rectangle lies inside a buffer of the given dimensions.
pub open spec fn roi_in_bounds(rect: Rect, rows: int, cols: int) -> bool {
    &&& 0 <= rect.x
    &&& 0 <= rect.y
    &&& 0 <= rect.width
    &&& 0 <= rect.height
    &&& rect.x + rect.width <= cols
    &&& rect.y + rect.height <= rows
}

/// The bytes of the sub-rectangle at `(x, y)` of extent
/// `width` × `height`, read row by row out of a buffer with `cols` columns
/// and `elem`-byte elements.
pub open spec fn roi_bytes(
    data: Seq<u8>,
    cols: int,
    elem: int,
    x: int,
    y: int,
    width: int,
    height: int,
) -> Seq<u8> {
    Seq::new(
        (height * (width * elem)) as nat,
        |i: int| data[(y + i / (width * elem)) * (cols * elem) + x * elem + i % (width * elem)],
    )
}

/// Whether two buffers have equal dimensions and element type, so that a
/// pointwise operation on them is defined.
pub open spec fn same_shape(a: MatView, b: MatView) -> bool {
    &&& a.rows == b.rows
    &&& a.cols == b.cols
    &&& a.ty == b.ty
}

/// Pointwise bitwise conjunction of two equally long byte strings.
pub open spec fn bytes_and(a: Seq<u8>, b: Seq<u8>) -> Seq<u8> {
    Seq::new(a.len(), |i: int| a[i] & b[i])
}

/// Pointwise bitwise disjunction of two equally long byte strings.
pub open spec fn bytes_or(a: Seq<u8>, b: Seq<u8>) -> Seq<u8> {
    Seq::new(a.len(), |i: int| a[i] | b[i])
}

/// Pointwise bitwise exclusive-or of two equally long byte strings.
pub open spec fn bytes_xor(a: Seq<u8>, b: Seq<u8>) -> Seq<u8> {
    Seq::new(a.len(), |i: int| a[i] ^ b[i])
}

/// Pointwise bitwise negation of a byte string.
pub open spec fn bytes_not(a: Seq<u8>) -> Seq<u8> {
    Seq::new(a.len(), |i: int| !a[i])
}

/// Whether element `j` of a buffer with `elem`-byte elements has any
/// non-zero byte.
pub open spec fn elem_is_nonzero(data: Seq<u8>, elem: int, j: int) -> bool {
    exists|k: int| 0 <= k < elem && #[trigger] data[j * elem + k] != 0
}

/// How many of the first `n` elements of a buffer are non-zero.
pub open spec fn count_nonzero_up_to(data: Seq<u8>, elem: int, n: int) -> int
    decreases n,
{
    if n <= 0 {
        0
    } else {
        count_nonzero_up_to(data, elem, n - 1) + if elem_is_nonzero(data, elem, n - 1) {
            1int
        } else {
            0int
        }
    }
}

} // verus!
