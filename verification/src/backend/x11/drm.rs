//! Utilities for checking properties of a DRM device.

use vstd::prelude::*;
use vstd::string::*;

use super::error::AllocateBuffersError;
use crate::utils::text::push_decimal;

verus! {

/// The major number of DRM nodes on Linux, and wherever the system has no other.
pub const DRM_MAJOR: u64 = 226;

/// The bits of a file mode that hold the type of the file.
pub const S_IFMT: u32 = 0xf000;

/// The type of a character device.
pub const S_IFCHR: u32 = 0x2000;

/// The longest path to a node.
pub const MAX_PATH_LEN: usize = 63;

/// The type of a DRM node.
#[derive(Debug, Clone, Copy, PartialEq, Eq, Structural)]
pub enum DrmNodeType {
    /// A primary node.
    Primary,
    /// A control node.
    Control,
    /// A render node.
    Render,
}

/// The DRM node type is not a valid value.
#[derive(Debug, Clone, Copy, PartialEq, Eq)]
pub struct InvalidNodeType;

impl InvalidNodeType {
    /// The text of the error.
    pub fn message(&self) -> (r: &'static str)
        ensures
            r@ == "The DRM node type is not a valid value."@,
    {
        "The DRM node type is not a valid value."
    }
}

/// The DRM node type is not supported.
#[derive(Debug, Clone, Copy, PartialEq, Eq)]
pub struct UnsupportedDrmNodeType;

impl UnsupportedDrmNodeType {
    /// The text of the error.
    pub fn message(&self) -> (r: &'static str)
        ensures
            r@ == "the drm node type is not supported"@,
    {
        "the drm node type is not supported"
    }
}

/// What is known of an open file.
#[derive(Debug, Clone, Copy)]
pub struct FileStat {
    /// The device number, if the file is a device.
    pub st_rdev: u64,
    /// The mode.
    pub st_mode: u32,
}

/// The major number of a device number.
pub open spec fn major_of(dev: u64) -> u64 {
    ((dev >> 32) & 0xffff_f000) | ((dev >> 8) & 0xfff)
}

/// The minor number of a device number.
pub open spec fn minor_of(dev: u64) -> u64 {
    ((dev >> 12) & 0xffff_ff00) | (dev & 0xff)
}

/// The major number of a device number, from `major` of `nix`, as it packs them on Linux.
#[verifier::external_body]
pub(crate) fn major(dev: u64) -> (r: u64)
    ensures
        r == major_of(dev),
{
    nix::sys::stat::major(dev)
}

/// The minor number of a device number, from `minor` of `nix`, as it packs them on Linux.
#[verifier::external_body]
pub(crate) fn minor(dev: u64) -> (r: u64)
    ensures
        r == minor_of(dev),
{
    nix::sys::stat::minor(dev)
}

/// The file type that a mode holds.
///
/// This calls `SFlag::from_bits_truncate` of `nix`, whose flags are the file types and the mask
/// that covers them all, and takes the bits: those of the mask.
#[verifier::external_body]
fn file_type_flags(mode: u32) -> (r: u32)
    ensures
        r == mode & S_IFMT,
{
    nix::sys::stat::SFlag::from_bits_truncate(mode).bits()
}

impl DrmNodeType {
    /// The number of the type.
    pub open spec fn number(self) -> u64 {
        match self {
            DrmNodeType::Primary => 0,
            DrmNodeType::Control => 1,
            DrmNodeType::Render => 2,
        }
    }

    /// The type with the given number.
    pub fn try_from(value: u64) -> (r: Result<DrmNodeType, InvalidNodeType>)
        ensures
            match r {
                Ok(ty) => ty.number() == value,
                Err(_) => value > 2,
            },
    {
        match value {
            0 => Ok(DrmNodeType::Primary),
            1 => Ok(DrmNodeType::Control),
            2 => Ok(DrmNodeType::Render),
            _ => Err(InvalidNodeType),
        }
    }
}

/// The type of a node by its minor number: each type has 64 of them.
pub fn drm_get_minor_type(_major: u64, minor: u64) -> (r: Result<DrmNodeType, InvalidNodeType>)
    ensures
        match r {
            Ok(ty) => ty.number() == minor / 64,
            Err(_) => minor / 64 > 2,
        },
{
    assert(minor >> 6 == minor / 64) by (bit_vector);
    DrmNodeType::try_from(minor >> 6)
}

/// A system that nodes are found on.
#[derive(Debug, Clone, Copy, PartialEq, Eq)]
pub enum System {
    /// Linux.
    Linux,
    /// DragonFly BSD.
    DragonFly,
    /// NetBSD.
    NetBsd,
    /// OpenBSD on i386.
    OpenBsdI386,
    /// OpenBSD on any other architecture.
    OpenBsd,
    /// Any other system.
    Other,
}

impl System {
    /// The major number that DRM nodes have on the system.
    pub open spec fn drm_major_spec(self) -> u64 {
        match self {
            System::DragonFly => 145,
            System::NetBsd => 34,
            System::OpenBsdI386 => 88,
            System::OpenBsd => 87,
            System::Linux | System::Other => DRM_MAJOR,
        }
    }

    /// The major number that DRM nodes have on the system.
    pub fn drm_major(&self) -> (r: u64)
        ensures
            r == self.drm_major_spec(),
    {
        match self {
            System::DragonFly => 145,
            System::NetBsd => 34,
            System::OpenBsdI386 => 88,
            System::OpenBsd => 87,
            System::Linux | System::Other => DRM_MAJOR,
        }
    }

    /// A device with the major number is a DRM node: on Linux if its path exists, on other systems
    /// by the number alone.
    pub open spec fn has_drm_node(self, major: u64, path_exists: bool) -> bool {
        if self == System::Linux {
            path_exists
        } else {
            major == self.drm_major_spec()
        }
    }
}

/// Whether a device is a DRM node: see `System::has_drm_node`.
///
/// `path_exists` says whether `drm_node_path` of the two numbers exists. It counts on Linux only.
pub fn is_drm_node_drm(major: u64, _minor: u64, system: System, path_exists: bool) -> (r: bool)
    ensures
        r == system.has_drm_node(major, path_exists),
{
    match system {
        System::Linux => path_exists,
        _ => major == system.drm_major(),
    }
}

/// The path that on Linux exists exactly if a device is a DRM node.
pub open spec fn drm_path(major: u64, minor: u64) -> Seq<char> {
    "/sys/dev/char/"@ + crate::utils::text::decimal(major as nat) + ":"@
        + crate::utils::text::decimal(minor as nat) + "/device/drm"@
}

/// The path that on Linux exists exactly if a device is a DRM node.
///
/// No more than `MAX_PATH_LEN` characters are looked at: see `drm_path_fits`.
pub fn drm_node_path(major: u64, minor: u64) -> (r: String)
    requires
        drm_path(major, minor).len() <= MAX_PATH_LEN,
    ensures
        r@ == drm_path(major, minor),
{
    let mut path: String = "/sys/dev/char/".to_owned();
    push_decimal(&mut path, major);
    path.append(":");
    push_decimal(&mut path, minor);
    path.append("/device/drm");
    path
}

/// The path of every device that there can be is short enough.
pub proof fn drm_path_fits(dev: u64)
    ensures
        drm_path(major_of(dev), minor_of(dev)).len() <= MAX_PATH_LEN,
{
    let (major, minor) = (major_of(dev), minor_of(dev));
    assert((((dev >> 32) & 0xffff_f000) | ((dev >> 8) & 0xfff)) <= 0xffff_ffff) by (bit_vector);
    assert((((dev >> 12) & 0xffff_ff00) | (dev & 0xff)) <= 0xffff_ffff) by (bit_vector);
    reveal_strlit("/sys/dev/char/");
    reveal_strlit(":");
    reveal_strlit("/device/drm");
    assert(vstd::arithmetic::power::pow(10, 10) == 10_000_000_000) by {
        reveal_with_fuel(vstd::arithmetic::power::pow, 11);
    }
    crate::utils::text::decimal_len_bound(major as nat, 10_000_000_000, 10);
    crate::utils::text::decimal_len_bound(minor as nat, 10_000_000_000, 10);
}

/// The path that on Linux exists exactly if the device that a file is open on is a DRM node.
pub fn drm_path_of(stat: &FileStat) -> (r: String)
    ensures
        r@ == drm_path(major_of(stat.st_rdev), minor_of(stat.st_rdev)),
{
    proof {
        drm_path_fits(stat.st_rdev);
    }
    drm_node_path(major(stat.st_rdev), minor(stat.st_rdev))
}

impl FileStat {
    /// The file is a character device.
    pub open spec fn is_character_device(&self) -> bool {
        self.st_mode & S_IFMT == S_IFCHR
    }

    /// The file is open on a DRM node: see `System::has_drm_node`.
    pub open spec fn is_drm_node(&self, system: System, path_exists: bool) -> bool {
        system.has_drm_node(major_of(self.st_rdev), path_exists) && self.is_character_device()
    }

    /// The minor number of the device is that of one of the node types.
    pub open spec fn has_node_type(&self) -> bool {
        minor_of(self.st_rdev) / 64 <= 2
    }

    /// Whether the minor number of the device is that of one of the node types.
    pub fn knows_node_type(&self) -> (r: bool)
        ensures
            r == self.has_node_type(),
    {
        minor(self.st_rdev) / 64 <= 2
    }
}

/// The type of the node that a file is open on.
///
/// `path_exists` says whether `drm_path_of` exists. It counts on Linux only.
pub fn get_drm_node_type(stat: &FileStat, system: System, path_exists: bool) -> (r: Result<
    DrmNodeType,
    AllocateBuffersError,
>)
    requires
        stat.is_drm_node(system, path_exists) ==> stat.has_node_type(),
    ensures
        match r {
            Ok(ty) => {
                &&& stat.is_drm_node(system, path_exists)
                &&& ty.number() == minor_of(stat.st_rdev) / 64
            },
            Err(error) => error == AllocateBuffersError::UnsupportedDrmNode && !stat.is_drm_node(
                system,
                path_exists,
            ),
        },
{
    let major: u64 = major(stat.st_rdev);
    let minor: u64 = minor(stat.st_rdev);
    let flags: u32 = file_type_flags(stat.st_mode);
    proof {
        let mode = stat.st_mode;
        assert((mode & 0xf000) & 0xf000 == mode & 0xf000) by (bit_vector);
    }
    if !is_drm_node_drm(major, minor, system, path_exists) || (flags & S_IFMT) != S_IFCHR {
        return Err(AllocateBuffersError::UnsupportedDrmNode);
    }
    match drm_get_minor_type(major, minor) {
        Ok(ty) => Ok(ty),
        Err(_) => Err(AllocateBuffersError::UnsupportedDrmNode),
    }
}

/// The bit of a file descriptor's flags that has it closed when another program is executed.
pub const FD_CLOEXEC: i32 = 1;

/// The flags of a file descriptor that are known.
///
/// This calls `FdFlag::from_bits_truncate` of `nix`, whose one flag is `FD_CLOEXEC`, and takes the
/// bits.
#[verifier::external_body]
fn known_fd_flags(bits: i32) -> (r: i32)
    ensures
        r == bits & FD_CLOEXEC,
{
    nix::fcntl::FdFlag::from_bits_truncate(bits).bits()
}

/// The flags of a file descriptor with the close-on-exec flag enabled.
pub fn close_on_exec(fd_flags: i32) -> (r: i32)
    ensures
        r == (fd_flags & FD_CLOEXEC) | FD_CLOEXEC,
        r == FD_CLOEXEC,
{
    assert((fd_flags & 1) | 1 == 1) by (bit_vector);
    known_fd_flags(fd_flags) | FD_CLOEXEC
}

} // verus!
