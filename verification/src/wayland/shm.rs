//! Shared memory pools and buffers of clients.

use vstd::prelude::*;
use vstd::string::*;

use super::protocol::{shm_format, shm_format_debug};
use crate::utils::text::{push_hexadecimal, push_signed};

verus! {

/// `argb8888` under the number that it has as a DRM format.
pub const FORMAT_ARGB8888_NEW: u32 = 0x3432_5241;

/// `xrgb8888` under the number that it has as a DRM format.
pub const FORMAT_XRGB8888_NEW: u32 = 0x3432_5258;

/// The kind of a protocol error.
#[derive(Debug, Clone, Copy, PartialEq, Eq)]
pub enum ErrorCode {
    /// The buffer format is not known.
    InvalidFormat,
    /// The size or stride is invalid.
    InvalidStride,
    /// Mapping the file descriptor failed.
    InvalidFd,
    /// The pool has been mapped.
    AlreadyMapped,
}

/// An error that is posted to a client.
#[derive(Debug)]
pub struct ProtocolError {
    /// The kind of the error.
    pub code: ErrorCode,
    /// The text of the error.
    pub message: String,
}

impl ProtocolError {
    /// The error is of the given kind and has the given text.
    pub open spec fn is(&self, code: ErrorCode, message: Seq<char>) -> bool {
        self.code == code && self.message@ == message
    }

    /// An error.
    fn new(code: ErrorCode, message: &str) -> (r: ProtocolError)
        ensures
            r.is(code, message@),
    {
        ProtocolError { code, message: message.to_owned() }
    }
}

/// A request to create a pool.
#[derive(Debug, Clone, Copy)]
pub enum CreatePool {
    /// The pool starts at the beginning of the file.
    CreatePool {
        /// The size in bytes.
        size: i32,
    },
    /// The pool starts at an offset in the file.
    CreatePool2 {
        /// The size in bytes.
        size: u32,
        /// The lower half of the offset.
        offset_lo: u32,
        /// The upper half of the offset.
        offset_hi: u32,
    },
}

/// The part of a file that is mapped for a pool.
#[derive(Debug, Clone, Copy, PartialEq, Eq)]
pub struct PoolMapping {
    /// The size in bytes, which is not zero.
    pub size: u32,
    /// Where the pool starts in the file.
    pub offset: isize,
}

/// A request to create a buffer in a pool.
#[derive(Debug, Clone, Copy)]
pub struct CreateBuffer {
    /// Where the buffer starts in the pool.
    pub offset: i32,
    /// The width.
    pub width: i32,
    /// The height.
    pub height: i32,
    /// The number of bytes from one row to the next.
    pub stride: i32,
    /// The number of the format.
    pub format: u32,
}

/// A buffer in a pool.
#[derive(Debug, Clone, Copy, PartialEq, Eq)]
pub struct BufferData {
    /// Where the buffer starts in the pool.
    pub offset: i32,
    /// The width.
    pub width: i32,
    /// The height.
    pub height: i32,
    /// The number of bytes from one row to the next.
    pub stride: i32,
    /// The number of the format.
    pub format: u32,
}

/// Why a pool was not resized.
#[derive(Debug, Clone, Copy, PartialEq, Eq)]
pub enum ResizeError {
    /// The pool would have shrunk.
    InvalidSize,
    /// The pool could not be mapped with the new size.
    MremapFailed,
}

/// The formats that clients may use.
pub struct ShmState {
    /// The numbers of the formats.
    pub formats: Vec<u32>,
}

/// A number is that of a format of the protocol.
pub open spec fn is_known_format(code: u32) -> bool {
    ||| code == FORMAT_ARGB8888_NEW
    ||| code == FORMAT_XRGB8888_NEW
    ||| super::protocol::is_shm_format(code)
}

/// The name of a format of the protocol.
pub open spec fn format_name(code: u32) -> Seq<char> {
    if code == FORMAT_ARGB8888_NEW {
        "Argb8888New"@
    } else if code == FORMAT_XRGB8888_NEW {
        "Xrgb8888New"@
    } else {
        super::protocol::shm_format_name(code)
    }
}

/// A format is sent to a client which has bound the given version: the formats under their numbers
/// as DRM formats from version 2 on, all others always.
pub open spec fn is_sent(format: u32, version: u32) -> bool {
    version >= 2 || format != FORMAT_ARGB8888_NEW && format != FORMAT_XRGB8888_NEW
}

/// Where a pool starts that is created at an offset given in two halves.
///
/// Where an `isize` has 32 bits, the upper half is lost.
pub fn pool_offset(offset_lo: u32, offset_hi: u32) -> (r: isize)
    ensures
        r == (offset_hi * 0x1_0000_0000 + offset_lo) as isize,
{
    let wide: u64 = (offset_hi as u64) * 0x1_0000_0000 + offset_lo as u64;
    #[verifier::truncate]
    (wide as isize)
}

/// An offset that is in the range of an `isize` of 64 bits arrives as it was split.
pub proof fn offset_halves_are_joined(offset: u64)
    requires
        usize::BITS == 64,
        offset <= i64::MAX,
    ensures
        (((offset / 0x1_0000_0000) as u32) * 0x1_0000_0000 + ((offset % 0x1_0000_0000) as u32))
            as isize == offset,
{
}

/// The error for a file that cannot be mapped.
pub fn mapping_failed(fd: i32) -> (r: ProtocolError)
    ensures
        r.is(
            ErrorCode::InvalidFd,
            "Failed to mmap fd "@ + crate::utils::text::signed_decimal(fd as int),
        ),
{
    let mut message: String = "Failed to mmap fd ".to_owned();
    push_signed(&mut message, fd);
    ProtocolError { code: ErrorCode::InvalidFd, message }
}

impl CreatePool {
    /// The size of the pool is not zero. A request that gives it as a signed number is refused
    /// otherwise.
    pub open spec fn is_possible(&self) -> bool {
        match self {
            CreatePool::CreatePool { .. } => true,
            CreatePool::CreatePool2 { size, .. } => *size > 0,
        }
    }
}

/// What is mapped for a pool, or the error for a size that is not positive.
pub fn create_pool(request: &CreatePool) -> (r: Result<PoolMapping, ProtocolError>)
    requires
        request.is_possible(),
    ensures
        match request {
            CreatePool::CreatePool { size } => if *size <= 0 {
                r matches Err(error) && error.is(
                    ErrorCode::InvalidStride,
                    "wl_shm_pool size is zero"@,
                )
            } else {
                r == Ok::<PoolMapping, ProtocolError>(
                    PoolMapping { size: *size as u32, offset: 0 },
                )
            },
            CreatePool::CreatePool2 { size, offset_lo, offset_hi } => r == Ok::<
                PoolMapping,
                ProtocolError,
            >(
                PoolMapping {
                    size: *size,
                    offset: (*offset_hi * 0x1_0000_0000 + *offset_lo) as isize,
                },
            ),
        },
        r matches Ok(mapping) ==> mapping.size > 0,
{
    match request {
        CreatePool::CreatePool { size } => {
            if *size <= 0 {
                return Err(
                    ProtocolError::new(ErrorCode::InvalidStride, "wl_shm_pool size is zero"),
                );
            }
            Ok(PoolMapping { size: *size as u32, offset: 0 })
        },
        CreatePool::CreatePool2 { size, offset_lo, offset_hi } => Ok(
            PoolMapping { size: *size, offset: pool_offset(*offset_lo, *offset_hi) },
        ),
    }
}

/// The size of a pool after a request of a client to resize it, or the error.
///
/// From version 2 on a pool that has been mapped is not resized.
pub fn resize_pool(version: u32, size: i32) -> (r: Result<usize, ProtocolError>)
    ensures
        if version >= 2 {
            r matches Err(error) && error.is(
                ErrorCode::AlreadyMapped,
                "tried to resize version 2 pool after the pool has been mapped"@,
            )
        } else if size <= 0 {
            r matches Err(error) && error.is(ErrorCode::InvalidFd, "invalid wl_shm_pool size"@)
        } else {
            r == Ok::<usize, ProtocolError>(size as usize)
        },
{
    if version >= 2 {
        return Err(
            ProtocolError::new(
                ErrorCode::AlreadyMapped,
                "tried to resize version 2 pool after the pool has been mapped",
            ),
        );
    }
    if size <= 0 {
        return Err(ProtocolError::new(ErrorCode::InvalidFd, "invalid wl_shm_pool size"));
    }
    Ok(size as usize)
}

/// The error for a pool that was not resized.
pub fn resize_failed(error: ResizeError) -> (r: ProtocolError)
    ensures
        r.is(
            ErrorCode::InvalidFd,
            match error {
                ResizeError::InvalidSize => "cannot shrink wl_shm_pool"@,
                ResizeError::MremapFailed => "mremap failed"@,
            },
        ),
{
    match error {
        ResizeError::InvalidSize => ProtocolError::new(
            ErrorCode::InvalidFd,
            "cannot shrink wl_shm_pool",
        ),
        ResizeError::MremapFailed => ProtocolError::new(ErrorCode::InvalidFd, "mremap failed"),
    }
}

impl CreateBuffer {
    /// The first part of the checks: the offset is not negative, the buffer is not empty, and its
    /// rows are not wider than the stride nor more than fit into the range of sizes.
    pub open spec fn has_valid_extent(&self) -> bool {
        &&& self.offset >= 0
        &&& self.width > 0
        &&& self.height > 0
        &&& self.stride >= self.width
        &&& i32::MAX as int / self.stride as int >= self.height
    }

    /// How many bytes are left in a pool before the buffer, when the buffer is at its end.
    ///
    /// The size of the pool is taken as a number of 32 bits.
    pub open spec fn room(&self, pool_size: usize) -> int {
        (pool_size as i32) - self.stride * self.height
    }

    /// How much room there is for the buffer can be told within 32 bits.
    pub open spec fn has_measurable_room(&self, pool_size: usize) -> bool {
        self.has_valid_extent() ==> self.room(pool_size) >= i32::MIN
    }

    /// Whether how much room there is for the buffer can be told: see `has_measurable_room`.
    pub fn can_measure_room(&self, pool_size: usize) -> (r: bool)
        ensures
            r == self.has_measurable_room(pool_size),
    {
        if self.offset < 0 || self.width <= 0 || self.height <= 0 || self.stride < self.width {
            return true;
        }
        if (i32::MAX / self.stride) < self.height {
            return true;
        }
        proof {
            lemma_extent_fits(self.stride, self.height);
        }
        let size: i32 = #[verifier::truncate]
        (pool_size as i32);
        size.checked_sub(self.stride * self.height).is_some()
    }

    /// What is wrong with the parameters of the buffer, if anything is.
    pub open spec fn complaint(&self, pool_size: usize) -> Option<Seq<char>> {
        if self.offset < 0 {
            Some("offset must not be negative"@)
        } else if self.width <= 0 || self.height <= 0 {
            Some(
                "invalid width or height ("@ + crate::utils::text::signed_decimal(
                    self.width as int,
                ) + "x"@ + crate::utils::text::signed_decimal(self.height as int) + ")"@,
            )
        } else if self.stride < self.width {
            Some(
                "width must not be larger than stride (width "@
                    + crate::utils::text::signed_decimal(self.width as int) + ", stride "@
                    + crate::utils::text::signed_decimal(self.stride as int) + ")"@,
            )
        } else if (i32::MAX as int / self.stride as int) < self.height {
            Some(
                "height is too large for stride (max "@ + crate::utils::text::signed_decimal(
                    i32::MAX as int / self.stride as int,
                ) + ")"@,
            )
        } else if self.offset > self.room(pool_size) {
            Some("offset is too large"@)
        } else {
            None
        }
    }

    /// What is wrong with the parameters of the buffer, if anything is: see `complaint`.
    pub fn validate(&self, pool_size: usize) -> (r: Option<String>)
        requires
            self.has_measurable_room(pool_size),
        ensures
            match r {
                Some(message) => self.complaint(pool_size) == Some(message@),
                None => self.complaint(pool_size) is None,
            },
    {
        if self.offset < 0 {
            return Some("offset must not be negative".to_owned());
        }
        if self.width <= 0 || self.height <= 0 {
            let mut message: String = "invalid width or height (".to_owned();
            push_signed(&mut message, self.width);
            message.append("x");
            push_signed(&mut message, self.height);
            message.append(")");
            return Some(message);
        }
        if self.stride < self.width {
            let mut message: String =
                "width must not be larger than stride (width ".to_owned();
            push_signed(&mut message, self.width);
            message.append(", stride ");
            push_signed(&mut message, self.stride);
            message.append(")");
            return Some(message);
        }
        let most: i32 = i32::MAX / self.stride;
        if most < self.height {
            let mut message: String = "height is too large for stride (max ".to_owned();
            push_signed(&mut message, most);
            message.append(")");
            return Some(message);
        }
        proof {
            lemma_extent_fits(self.stride, self.height);
        }
        let size: i32 = #[verifier::truncate]
        (pool_size as i32);
        if self.offset > size - (self.stride * self.height) {
            return Some("offset is too large".to_owned());
        }
        None
    }
}

proof fn lemma_extent_fits(stride: i32, height: i32)
    requires
        stride > 0,
        height > 0,
        height <= i32::MAX as int / stride as int,
    ensures
        0 < stride * height <= i32::MAX,
{
    assert(0 < stride * height <= i32::MAX) by (nonlinear_arith)
        requires
            stride > 0,
            height > 0,
            height <= i32::MAX as int / stride as int,
    ;
}

impl ShmState {
    /// The formats that are sent to a client that has bound the given version, in order.
    pub fn bind(&self, version: u32) -> (r: Vec<u32>)
        ensures
            r@ == self.formats@.filter(|format: u32| is_sent(format, version)),
    {
        reveal(Seq::filter);
        let ghost sent = |format: u32| is_sent(format, version);
        let mut formats: Vec<u32> = Vec::new();
        let mut i: usize = 0;
        while i < self.formats.len()
            invariant
                i <= self.formats@.len(),
                sent == (|format: u32| is_sent(format, version)),
                formats@ == self.formats@.take(i as int).filter(sent),
            decreases self.formats@.len() - i,
        {
            reveal(Seq::filter);
            assert(self.formats@.take(i + 1).drop_last() =~= self.formats@.take(i as int));
            let format: u32 = self.formats[i];
            if version >= 2 || format != FORMAT_ARGB8888_NEW && format != FORMAT_XRGB8888_NEW {
                formats.push(format);
            }
            i = i + 1;
        }
        assert(self.formats@.take(i as int) =~= self.formats@);
        formats
    }

    /// Whether clients may use a format.
    fn supports(&self, format: u32) -> (r: bool)
        ensures
            r == self.formats@.contains(format),
    {
        let mut i: usize = 0;
        while i < self.formats.len()
            invariant
                i <= self.formats@.len(),
                forall|j: int| 0 <= j < i ==> self.formats@[j] != format,
            decreases self.formats@.len() - i,
        {
            if self.formats[i] == format {
                return true;
            }
            i = i + 1;
        }
        false
    }

    /// The buffer that a client creates in a pool, or the error that is posted.
    pub fn create_buffer(&self, request: &CreateBuffer, pool_size: usize) -> (r: Result<
        BufferData,
        ProtocolError,
    >)
        requires
            request.has_measurable_room(pool_size),
        ensures
            match request.complaint(pool_size) {
                Some(message) => r matches Err(error) && error.is(
                    ErrorCode::InvalidStride,
                    message,
                ),
                None => if !is_known_format(request.format) {
                    r matches Err(error) && error.is(
                        ErrorCode::InvalidFormat,
                        "unknown format 0x"@ + crate::utils::text::hexadecimal(
                            request.format as nat,
                        ),
                    )
                } else if !self.formats@.contains(request.format) {
                    r matches Err(error) && error.is(
                        ErrorCode::InvalidFormat,
                        "format "@ + format_name(request.format) + " not supported"@,
                    )
                } else {
                    r == Ok::<BufferData, ProtocolError>(
                        BufferData {
                            offset: request.offset,
                            width: request.width,
                            height: request.height,
                            stride: request.stride,
                            format: request.format,
                        },
                    )
                },
            },
    {
        match request.validate(pool_size) {
            Some(message) => {
                return Err(ProtocolError { code: ErrorCode::InvalidStride, message });
            },
            None => {},
        }
        let name: String = match request.format {
            FORMAT_ARGB8888_NEW => "Argb8888New".to_owned(),
            FORMAT_XRGB8888_NEW => "Xrgb8888New".to_owned(),
            code => match shm_format(code) {
                Some(code) => shm_format_debug(code),
                None => {
                    let mut message: String = "unknown format 0x".to_owned();
                    push_hexadecimal(&mut message, code);
                    return Err(ProtocolError { code: ErrorCode::InvalidFormat, message });
                },
            },
        };
        if !self.supports(request.format) {
            let mut message: String = "format ".to_owned();
            message.append(name.as_str());
            message.append(" not supported");
            return Err(ProtocolError { code: ErrorCode::InvalidFormat, message });
        }
        Ok(
            BufferData {
                offset: request.offset,
                width: request.width,
                height: request.height,
                stride: request.stride,
                format: request.format,
            },
        )
    }
}

/// The rows of a buffer that is accepted lie within its pool.
///
/// This holds for pools of any size, although the size is taken as a number of 32 bits: that number
/// is never larger than the size.
pub proof fn accepted_buffer_is_within_its_pool(request: CreateBuffer, pool_size: usize, row: int)
    requires
        request.complaint(pool_size) is None,
        0 <= row < request.height,
    ensures
        0 <= request.offset + row * request.stride,
        request.offset + row * request.stride + request.width <= request.offset + (row + 1)
            * request.stride <= pool_size,
{
    let (stride, height) = (request.stride as int, request.height as int);
    assert((pool_size as i32) <= pool_size) by (bit_vector);
    assert(0 <= row * stride && (row + 1) * stride <= height * stride && (row + 1) * stride == row
        * stride + stride) by (nonlinear_arith)
        requires
            0 <= row < height,
            stride > 0,
    ;
    assert(stride * height == height * stride) by (nonlinear_arith);
}

/// In a pool of less than 2 GiB, how much room there is can always be told.
pub proof fn small_pools_are_measurable(request: CreateBuffer, pool_size: usize)
    requires
        pool_size <= i32::MAX,
    ensures
        request.has_measurable_room(pool_size),
{
    if request.has_valid_extent() {
        lemma_extent_fits(request.stride, request.height);
    }
}

} // verus!
