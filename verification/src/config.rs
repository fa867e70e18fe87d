//! The configuration of a virtual machine, as the command line writes it.

use crate::option_parser::byte_sized_slot;
use crate::option_parser::convert_slot;
use crate::option_parser::failure_text;
use crate::option_parser::or_default;
use crate::option_parser::parse_options;
use crate::option_parser::says;
use crate::option_parser::slot_set;
use crate::option_parser::slot_value;
use crate::option_parser::spec_u8;
use crate::option_parser::toggle_slot;
use crate::option_parser::u16_slot;
use crate::option_parser::u64_slot;
use crate::option_parser::u8_slot;
use crate::option_parser::usize_slot;
use crate::net::opt_mac;
use crate::net::spec_ipv4;
use crate::net::spec_mac;
use crate::net::Ipv4Addr;
use crate::net::MacAddr;
use crate::option_parser::with_option;
use crate::option_parser::OptionParser;
use crate::option_parser::OptionParserError;
use crate::option_parser::OptionParserFailure;
use crate::option_parser::OptionSlot;
use crate::text::is_word;
use crate::text::matches_word;
use crate::text::opt_text;
use crate::text::parse_u8;
use crate::text::split;
use crate::text::split_fields;
use crate::text::texts;
use vstd::prelude::*;
use vstd::string::*;

verus! {

pub const DEFAULT_VCPUS: u8 = 1;

pub const DEFAULT_MEMORY_MB: u64 = 512;

pub const DEFAULT_RNG_SOURCE: &'static str = "/dev/urandom";

pub const DEFAULT_NUM_QUEUES_VUNET: usize = 2;

pub const DEFAULT_QUEUE_SIZE_VUNET: u16 = 256;

pub const DEFAULT_NUM_QUEUES_VUBLK: usize = 1;

pub const DEFAULT_QUEUE_SIZE_VUBLK: u16 = 128;

#[derive(Clone, Copy, Debug, PartialEq, Eq, Structural)]
pub enum ValidationError {
    /// Both console and serial are tty.
    DoubleTtyMode,
    /// No kernel specified
    KernelMissing,
    /// Missing file value for console
    ConsoleFileMissing,
    /// Max is less than boot
    CpusMaxLowerThanBoot,
    /// Both socket and path specified
    DiskSocketAndPath,
    /// Using vhost user requires shared memory
    VhostUserRequiresSharedMemory,
    /// Trying to use IOMMU without PCI
    IommuUnsupported,
    /// Trying to use VFIO without PCI
    VfioUnsupported,
    /// CPU topology count doesn't match max
    CpuTopologyCount,
    /// One part of the CPU topology was zero
    CpuTopologyZeroPart,
    /// Virtio needs a min of 2 queues
    VnetQueueLowerThan2,
}

/// Errors associated with VM configuration parameters.
#[derive(Debug, PartialEq, Eq)]
pub enum Error {
    /// Filesystem tag is missing
    ParseFsTagMissing,
    /// Filesystem socket is missing
    ParseFsSockMissing,
    /// Cannot have dax=off along with cache_size parameter.
    InvalidCacheSizeWithDaxOff,
    /// Missing persistant memory file parameter.
    ParsePmemFileMissing,
    /// Missing vsock socket path parameter.
    ParseVsockSockMissing,
    /// Missing vsock cid parameter.
    ParseVsockCidMissing,
    /// Missing restore source_url parameter.
    ParseRestoreSourceUrlMissing,
    /// Error parsing CPU options
    ParseCpus(OptionParserError),
    /// Error parsing memory options
    ParseMemory(OptionParserError),
    /// Error parsing disk options
    ParseDisk(OptionParserError),
    /// Error parsing network options
    ParseNetwork(OptionParserError),
    /// Error parsing RNG options
    ParseRNG(OptionParserError),
    /// Error parsing filesystem parameters
    ParseFileSystem(OptionParserError),
    /// Error parsing persistent memorry parameters
    ParsePersistentMemory(OptionParserError),
    /// Failed parsing console
    ParseConsole(OptionParserError),
    /// No mode given for console
    ParseConsoleInvalidModeGiven,
    /// Failed parsing device parameters
    ParseDevice(OptionParserError),
    /// Missing path from device,
    ParseDevicePathMissing,
    /// Failed to parse vsock parameters
    ParseVsock(OptionParserError),
    /// Failed to parse restore parameters
    ParseRestore(OptionParserError),
    /// Failed to parse SGX EPC parameters
    ParseSgxEpc(OptionParserError),
    /// Failed to validate configuration
    Validation(ValidationError),
}

/// What an `Error` says, as text.
pub enum Failure {
    ParseFsTagMissing,
    ParseFsSockMissing,
    InvalidCacheSizeWithDaxOff,
    ParsePmemFileMissing,
    ParseVsockSockMissing,
    ParseVsockCidMissing,
    ParseRestoreSourceUrlMissing,
    ParseCpus(OptionParserFailure),
    ParseMemory(OptionParserFailure),
    ParseDisk(OptionParserFailure),
    ParseNetwork(OptionParserFailure),
    ParseRNG(OptionParserFailure),
    ParseFileSystem(OptionParserFailure),
    ParsePersistentMemory(OptionParserFailure),
    ParseConsole(OptionParserFailure),
    ParseConsoleInvalidModeGiven,
    ParseDevice(OptionParserFailure),
    ParseDevicePathMissing,
    ParseVsock(OptionParserFailure),
    ParseRestore(OptionParserFailure),
    ParseSgxEpc(OptionParserFailure),
    Validation(ValidationError),
}

impl View for Error {
    type V = Failure;

    open spec fn view(&self) -> Failure {
        match self {
            Error::ParseFsTagMissing => Failure::ParseFsTagMissing,
            Error::ParseFsSockMissing => Failure::ParseFsSockMissing,
            Error::InvalidCacheSizeWithDaxOff => Failure::InvalidCacheSizeWithDaxOff,
            Error::ParsePmemFileMissing => Failure::ParsePmemFileMissing,
            Error::ParseVsockSockMissing => Failure::ParseVsockSockMissing,
            Error::ParseVsockCidMissing => Failure::ParseVsockCidMissing,
            Error::ParseRestoreSourceUrlMissing => Failure::ParseRestoreSourceUrlMissing,
            Error::ParseCpus(e) => Failure::ParseCpus(e@),
            Error::ParseMemory(e) => Failure::ParseMemory(e@),
            Error::ParseDisk(e) => Failure::ParseDisk(e@),
            Error::ParseNetwork(e) => Failure::ParseNetwork(e@),
            Error::ParseRNG(e) => Failure::ParseRNG(e@),
            Error::ParseFileSystem(e) => Failure::ParseFileSystem(e@),
            Error::ParsePersistentMemory(e) => Failure::ParsePersistentMemory(e@),
            Error::ParseConsole(e) => Failure::ParseConsole(e@),
            Error::ParseConsoleInvalidModeGiven => Failure::ParseConsoleInvalidModeGiven,
            Error::ParseDevice(e) => Failure::ParseDevice(e@),
            Error::ParseDevicePathMissing => Failure::ParseDevicePathMissing,
            Error::ParseVsock(e) => Failure::ParseVsock(e@),
            Error::ParseRestore(e) => Failure::ParseRestore(e@),
            Error::ParseSgxEpc(e) => Failure::ParseSgxEpc(e@),
            Error::Validation(e) => Failure::Validation(*e),
        }
    }
}

impl ValidationError {
    /// What the error says to the user.
    pub open spec fn message(self) -> Seq<char> {
        match self {
            ValidationError::DoubleTtyMode => "Console mode tty specified for both serial and console"@,
            ValidationError::KernelMissing => "No kernel specified"@,
            ValidationError::ConsoleFileMissing => "Path missing when using file console mode"@,
            ValidationError::CpusMaxLowerThanBoot => "Max CPUs greater than boot CPUs"@,
            ValidationError::DiskSocketAndPath => "Disk path and vhost socket both provided"@,
            ValidationError::VhostUserRequiresSharedMemory => "Using vhost-user requires using shared memory"@,
            ValidationError::IommuUnsupported => "Using an IOMMU without PCI support is unsupported"@,
            ValidationError::VfioUnsupported => "Using VFIO without PCI support is unsupported"@,
            ValidationError::CpuTopologyCount => "Product of CPU topology parts does not match maximum vCPUs"@,
            ValidationError::CpuTopologyZeroPart => "No part of the CPU topology can be zero"@,
            ValidationError::VnetQueueLowerThan2 => "Number of queues to virtio_net less than 2"@,
        }
    }

    /// What the error says to the user.
    pub fn to_string(&self) -> (r: String)
        ensures
            r@ == self.message(),
    {
        match self {
            ValidationError::DoubleTtyMode => "Console mode tty specified for both serial and console".to_owned(),
            ValidationError::KernelMissing => "No kernel specified".to_owned(),
            ValidationError::ConsoleFileMissing => "Path missing when using file console mode".to_owned(),
            ValidationError::CpusMaxLowerThanBoot => "Max CPUs greater than boot CPUs".to_owned(),
            ValidationError::DiskSocketAndPath => "Disk path and vhost socket both provided".to_owned(),
            ValidationError::VhostUserRequiresSharedMemory => "Using vhost-user requires using shared memory".to_owned(),
            ValidationError::IommuUnsupported => "Using an IOMMU without PCI support is unsupported".to_owned(),
            ValidationError::VfioUnsupported => "Using VFIO without PCI support is unsupported".to_owned(),
            ValidationError::CpuTopologyCount => "Product of CPU topology parts does not match maximum vCPUs".to_owned(),
            ValidationError::CpuTopologyZeroPart => "No part of the CPU topology can be zero".to_owned(),
            ValidationError::VnetQueueLowerThan2 => "Number of queues to virtio_net less than 2".to_owned(),
        }
    }
}

/// What a failure says to the user.
pub open spec fn failure_message(f: Failure) -> Seq<char> {
    match f {
        Failure::ParseConsoleInvalidModeGiven => "Error parsing --console: invalid console mode given"@,
        Failure::ParseDevicePathMissing => "Error parsing --device: path missing"@,
        Failure::ParseFsSockMissing => "Error parsing --fs: socket missing"@,
        Failure::ParseFsTagMissing => "Error parsing --fs: tag missing"@,
        Failure::InvalidCacheSizeWithDaxOff => "Error parsing --fs: cache_size used with dax=on"@,
        Failure::ParsePmemFileMissing => "Error parsing --pmem: file missing"@,
        Failure::ParseVsockCidMissing => "Error parsing --vsock: cid missing"@,
        Failure::ParseVsockSockMissing => "Error parsing --vsock: socket missing"@,
        Failure::ParseRestoreSourceUrlMissing => "Error parsing --restore: source_url missing"@,
        Failure::ParseConsole(o) => "Error parsing --console: "@ + failure_text(o),
        Failure::ParseCpus(o) => "Error parsing --cpus: "@ + failure_text(o),
        Failure::ParseDevice(o) => "Error parsing --device: "@ + failure_text(o),
        Failure::ParseFileSystem(o) => "Error parsing --fs: "@ + failure_text(o),
        Failure::ParsePersistentMemory(o) => "Error parsing --pmem: "@ + failure_text(o),
        Failure::ParseVsock(o) => "Error parsing --vsock: "@ + failure_text(o),
        Failure::ParseMemory(o) => "Error parsing --memory: "@ + failure_text(o),
        Failure::ParseNetwork(o) => "Error parsing --net: "@ + failure_text(o),
        Failure::ParseDisk(o) => "Error parsing --disk: "@ + failure_text(o),
        Failure::ParseRNG(o) => "Error parsing --rng: "@ + failure_text(o),
        Failure::ParseRestore(o) => "Error parsing --restore: "@ + failure_text(o),
        Failure::ParseSgxEpc(o) => "Error parsing --sgx-epc: "@ + failure_text(o),
        Failure::Validation(v) => "Error validating configuration: "@ + v.message(),
    }
}

impl Error {
    /// What the error says to the user.
    pub fn to_string(&self) -> (r: String)
        ensures
            r@ == failure_message(self@),
    {
        match self {
            Error::ParseConsoleInvalidModeGiven => "Error parsing --console: invalid console mode given".to_owned(),
            Error::ParseDevicePathMissing => "Error parsing --device: path missing".to_owned(),
            Error::ParseFsSockMissing => "Error parsing --fs: socket missing".to_owned(),
            Error::ParseFsTagMissing => "Error parsing --fs: tag missing".to_owned(),
            Error::InvalidCacheSizeWithDaxOff => "Error parsing --fs: cache_size used with dax=on".to_owned(),
            Error::ParsePmemFileMissing => "Error parsing --pmem: file missing".to_owned(),
            Error::ParseVsockCidMissing => "Error parsing --vsock: cid missing".to_owned(),
            Error::ParseVsockSockMissing => "Error parsing --vsock: socket missing".to_owned(),
            Error::ParseRestoreSourceUrlMissing => "Error parsing --restore: source_url missing".to_owned(),
            Error::ParseConsole(o) => "Error parsing --console: ".to_owned().concat(o.to_string().as_str()),
            Error::ParseCpus(o) => "Error parsing --cpus: ".to_owned().concat(o.to_string().as_str()),
            Error::ParseDevice(o) => "Error parsing --device: ".to_owned().concat(o.to_string().as_str()),
            Error::ParseFileSystem(o) => "Error parsing --fs: ".to_owned().concat(o.to_string().as_str()),
            Error::ParsePersistentMemory(o) => "Error parsing --pmem: ".to_owned().concat(o.to_string().as_str()),
            Error::ParseVsock(o) => "Error parsing --vsock: ".to_owned().concat(o.to_string().as_str()),
            Error::ParseMemory(o) => "Error parsing --memory: ".to_owned().concat(o.to_string().as_str()),
            Error::ParseNetwork(o) => "Error parsing --net: ".to_owned().concat(o.to_string().as_str()),
            Error::ParseDisk(o) => "Error parsing --disk: ".to_owned().concat(o.to_string().as_str()),
            Error::ParseRNG(o) => "Error parsing --rng: ".to_owned().concat(o.to_string().as_str()),
            Error::ParseRestore(o) => "Error parsing --restore: ".to_owned().concat(o.to_string().as_str()),
            Error::ParseSgxEpc(o) => "Error parsing --sgx-epc: ".to_owned().concat(o.to_string().as_str()),
            Error::Validation(v) => "Error validating configuration: ".to_owned().concat(
                v.to_string().as_str(),
            ),
        }
    }
}

/// Whether `r` is the configuration or the error that `expected` names.
pub open spec fn parsed<C: View>(r: Result<C, Error>, expected: Result<C::V, Failure>) -> bool {
    match r {
        Ok(c) => expected == Ok::<C::V, Failure>(c@),
        Err(e) => expected == Err::<C::V, Failure>(e@),
    }
}

/// The command line's arguments, one text for each part of the machine.
pub struct VmParams<'a> {
    pub cpus: &'a str,
    pub memory: &'a str,
    pub kernel: Option<&'a str>,
    pub initramfs: Option<&'a str>,
    pub cmdline: Option<&'a str>,
    pub disks: Option<Vec<&'a str>>,
    pub net: Option<Vec<&'a str>>,
    pub rng: &'a str,
    pub fs: Option<Vec<&'a str>>,
    pub pmem: Option<Vec<&'a str>>,
    pub serial: &'a str,
    pub console: &'a str,
    pub devices: Option<Vec<&'a str>>,
    pub vsock: Option<&'a str>,
    pub sgx_epc: Option<Vec<&'a str>>,
}

#[derive(Clone, Copy, Debug, PartialEq, Eq, Structural)]
pub enum HotplugMethod {
    Acpi,
    VirtioMem,
}

impl Default for HotplugMethod {
    fn default() -> (r: Self)
        ensures
            r == HotplugMethod::Acpi,
    {
        HotplugMethod::Acpi
    }
}

#[derive(Debug, PartialEq, Eq)]
pub enum ParseHotplugMethodError {
    InvalidValue(String),
}

/// The method that `s` names: `acpi` or `virtio-mem`, in either case of
/// the letters.
pub open spec fn spec_hotplug_method(s: Seq<char>) -> Option<HotplugMethod> {
    if is_word(s, seq!['a', 'c', 'p', 'i']) {
        Some(HotplugMethod::Acpi)
    } else if is_word(s, seq!['v', 'i', 'r', 't', 'i', 'o', '-', 'm', 'e', 'm']) {
        Some(HotplugMethod::VirtioMem)
    } else {
        None
    }
}

impl HotplugMethod {
    /// The method that `s` names.
    pub fn from_str(s: &str) -> (r: Result<Self, ParseHotplugMethodError>)
        ensures
            match r {
                Ok(m) => spec_hotplug_method(s@) == Some(m),
                Err(ParseHotplugMethodError::InvalidValue(v)) => spec_hotplug_method(s@) is None
                    && v@ == s@,
            },
    {
        proof {
            reveal_strlit("acpi");
            reveal_strlit("virtio-mem");
            assert("acpi"@ =~= seq!['a', 'c', 'p', 'i']);
            assert("virtio-mem"@ =~= seq!['v', 'i', 'r', 't', 'i', 'o', '-', 'm', 'e', 'm']);
        }
        if matches_word(s, "acpi") {
            Ok(HotplugMethod::Acpi)
        } else if matches_word(s, "virtio-mem") {
            Ok(HotplugMethod::VirtioMem)
        } else {
            Err(ParseHotplugMethodError::InvalidValue(s.to_owned()))
        }
    }
}

#[derive(Debug, PartialEq, Eq)]
pub enum CpuTopologyParseError {
    InvalidValue(String),
}

#[derive(Clone, Copy, Debug, PartialEq, Eq, Structural)]
pub struct CpuTopology {
    pub threads_per_core: u8,
    pub cores_per_die: u8,
    pub dies_per_package: u8,
    pub packages: u8,
}

/// The topology that `s` writes: four numbers up to 255 with colons
/// between them.
pub open spec fn spec_topology(s: Seq<char>) -> Option<CpuTopology> {
    let parts = split(s, ':');
    if parts.len() == 4 && spec_u8(parts[0]) is Some && spec_u8(parts[1]) is Some && spec_u8(
        parts[2],
    ) is Some && spec_u8(parts[3]) is Some {
        Some(
            CpuTopology {
                threads_per_core: spec_u8(parts[0])->0,
                cores_per_die: spec_u8(parts[1])->0,
                dies_per_package: spec_u8(parts[2])->0,
                packages: spec_u8(parts[3])->0,
            },
        )
    } else {
        None
    }
}

impl CpuTopology {
    /// The topology that `s` writes.
    pub fn from_str(s: &str) -> (r: Result<Self, CpuTopologyParseError>)
        ensures
            match r {
                Ok(t) => spec_topology(s@) == Some(t),
                Err(CpuTopologyParseError::InvalidValue(v)) => spec_topology(s@) is None && v@
                    == s@,
            },
    {
        let parts = split_fields(s, ':');
        let ghost fields = split(s@, ':');

        if parts.len() != 4 {
            return Err(CpuTopologyParseError::InvalidValue(s.to_owned()));
        }
        assert(fields[0] == parts@[0]@ && fields[1] == parts@[1]@ && fields[2] == parts@[2]@
            && fields[3] == parts@[3]@);
        let threads_per_core: u8 = match parse_u8(parts[0].as_str()) {
            Some(n) => n,
            None => {
                return Err(CpuTopologyParseError::InvalidValue(s.to_owned()));
            },
        };
        let cores_per_die: u8 = match parse_u8(parts[1].as_str()) {
            Some(n) => n,
            None => {
                return Err(CpuTopologyParseError::InvalidValue(s.to_owned()));
            },
        };
        let dies_per_package: u8 = match parse_u8(parts[2].as_str()) {
            Some(n) => n,
            None => {
                return Err(CpuTopologyParseError::InvalidValue(s.to_owned()));
            },
        };
        let packages: u8 = match parse_u8(parts[3].as_str()) {
            Some(n) => n,
            None => {
                return Err(CpuTopologyParseError::InvalidValue(s.to_owned()));
            },
        };

        Ok(CpuTopology { threads_per_core, cores_per_die, dies_per_package, packages })
    }
}

/// The value of the option `name` as a topology.
pub open spec fn topology_slot(slots: Seq<OptionSlot>, name: Seq<char>) -> Result<
    Option<CpuTopology>,
    OptionParserFailure,
> {
    convert_slot(slots, name, |v: Seq<char>| spec_topology(v))
}

/// The value of the option `name` as a hotplug method.
pub open spec fn hotplug_method_slot(slots: Seq<OptionSlot>, name: Seq<char>) -> Result<
    Option<HotplugMethod>,
    OptionParserFailure,
> {
    convert_slot(slots, name, |v: Seq<char>| spec_hotplug_method(v))
}

/// The value of the option as a topology.
pub fn convert_topology(parser: &OptionParser, option: &str) -> (r: Result<
    Option<CpuTopology>,
    OptionParserError,
>)
    ensures
        says(r, topology_slot(parser@, option@)),
{
    match parser.get(option) {
        None => Ok(None),
        Some(v) => match CpuTopology::from_str(v.as_str()) {
            Ok(t) => Ok(Some(t)),
            Err(_) => Err(OptionParserError::Conversion(option.to_owned(), v)),
        },
    }
}

/// The value of the option as a hotplug method.
pub fn convert_hotplug_method(parser: &OptionParser, option: &str) -> (r: Result<
    Option<HotplugMethod>,
    OptionParserError,
>)
    ensures
        says(r, hotplug_method_slot(parser@, option@)),
{
    match parser.get(option) {
        None => Ok(None),
        Some(v) => match HotplugMethod::from_str(v.as_str()) {
            Ok(t) => Ok(Some(t)),
            Err(_) => Err(OptionParserError::Conversion(option.to_owned(), v)),
        },
    }
}

#[derive(Clone, Copy, Debug, PartialEq, Eq, Structural)]
pub struct CpusConfig {
    pub boot_vcpus: u8,
    pub max_vcpus: u8,
    pub topology: Option<CpuTopology>,
}

impl View for CpusConfig {
    type V = CpusConfig;

    open spec fn view(&self) -> CpusConfig {
        *self
    }
}

impl CpusConfig {
    /// The options of `--cpus`.
    pub open spec fn options() -> Seq<OptionSlot> {
        with_option(
            with_option(with_option(Seq::empty(), "boot"@, true), "max"@, true),
            "topology"@,
            true,
        )
    }

    /// What `--cpus` says: `boot` is 1 where it is not given, `max` is
    /// `boot` where it is not given.
    pub open spec fn spec_parse(cpus: Seq<char>) -> Result<CpusConfig, Failure> {
        match parse_options(Self::options(), cpus) {
            Err(f) => Err(Failure::ParseCpus(f)),
            Ok(slots) => {
                let boot = or_default(u8_slot(slots, "boot"@), DEFAULT_VCPUS);
                let max = u8_slot(slots, "max"@);
                let topology = topology_slot(slots, "topology"@);
                if boot is Err {
                    Err(Failure::ParseCpus(boot->Err_0))
                } else if max is Err {
                    Err(Failure::ParseCpus(max->Err_0))
                } else if topology is Err {
                    Err(Failure::ParseCpus(topology->Err_0))
                } else {
                    Ok(
                        CpusConfig {
                            boot_vcpus: boot->Ok_0,
                            max_vcpus: or_default(max, boot->Ok_0)->Ok_0,
                            topology: topology->Ok_0,
                        },
                    )
                }
            },
        }
    }

    /// Reads what `--cpus` says.
    pub fn parse(cpus: &str) -> (r: Result<Self, Error>)
        ensures
            parsed(r, Self::spec_parse(cpus@)),
    {
        let mut parser = OptionParser::new();
        parser.add("boot").add("max").add("topology");
        match parser.parse(cpus) {
            Ok(_) => {},
            Err(e) => {
                return Err(Error::ParseCpus(e));
            },
        }

        let boot_vcpus: u8 = match parser.convert_u8("boot") {
            Ok(Some(v)) => v,
            Ok(None) => DEFAULT_VCPUS,
            Err(e) => {
                return Err(Error::ParseCpus(e));
            },
        };
        let max_vcpus: u8 = match parser.convert_u8("max") {
            Ok(Some(v)) => v,
            Ok(None) => boot_vcpus,
            Err(e) => {
                return Err(Error::ParseCpus(e));
            },
        };
        let topology = match convert_topology(&parser, "topology") {
            Ok(v) => v,
            Err(e) => {
                return Err(Error::ParseCpus(e));
            },
        };

        Ok(CpusConfig { boot_vcpus, max_vcpus, topology })
    }
}

impl Default for CpusConfig {
    fn default() -> (r: Self)
        ensures
            r == (CpusConfig { boot_vcpus: 1, max_vcpus: 1, topology: None }),
    {
        CpusConfig { boot_vcpus: DEFAULT_VCPUS, max_vcpus: DEFAULT_VCPUS, topology: None }
    }
}

#[derive(Clone, Debug, PartialEq, Eq)]
pub struct MemoryConfig {
    pub size: u64,
    pub file: Option<String>,
    pub mergeable: bool,
    pub hotplug_method: HotplugMethod,
    pub hotplug_size: Option<u64>,
    pub shared: bool,
    pub hugepages: bool,
    pub balloon: bool,
    pub balloon_size: u64,
}

/// A `MemoryConfig` with its texts as text.
pub struct MemoryConfigView {
    pub size: u64,
    pub file: Option<Seq<char>>,
    pub mergeable: bool,
    pub hotplug_method: HotplugMethod,
    pub hotplug_size: Option<u64>,
    pub shared: bool,
    pub hugepages: bool,
    pub balloon: bool,
    pub balloon_size: u64,
}

impl View for MemoryConfig {
    type V = MemoryConfigView;

    open spec fn view(&self) -> MemoryConfigView {
        MemoryConfigView {
            size: self.size,
            file: opt_text(self.file),
            mergeable: self.mergeable,
            hotplug_method: self.hotplug_method,
            hotplug_size: self.hotplug_size,
            shared: self.shared,
            hugepages: self.hugepages,
            balloon: self.balloon,
            balloon_size: self.balloon_size,
        }
    }
}

impl MemoryConfig {
    /// The options of `--memory`.
    pub open spec fn options() -> Seq<OptionSlot> {
        let slots = Seq::empty();
        let slots = with_option(slots, "size"@, true);
        let slots = with_option(slots, "file"@, true);
        let slots = with_option(slots, "mergeable"@, true);
        let slots = with_option(slots, "hotplug_method"@, true);
        let slots = with_option(slots, "hotplug_size"@, true);
        let slots = with_option(slots, "shared"@, true);
        let slots = with_option(slots, "hugepages"@, true);
        let slots = with_option(slots, "balloon"@, true);
        slots
    }

    /// What `--memory` says: 512 MiB and every switch off where nothing else
    /// is given.
    pub open spec fn spec_parse(memory: Seq<char>) -> Result<MemoryConfigView, Failure> {
        match parse_options(Self::options(), memory) {
            Err(f) => Err(Failure::ParseMemory(f)),
            Ok(slots) => {
                let size = or_default(byte_sized_slot(slots, "size"@), DEFAULT_MEMORY_MB << 20);
                let mergeable = or_default(toggle_slot(slots, "mergeable"@), false);
                let hotplug_method = or_default(hotplug_method_slot(slots, "hotplug_method"@), HotplugMethod::Acpi);
                let hotplug_size = byte_sized_slot(slots, "hotplug_size"@);
                let shared = or_default(toggle_slot(slots, "shared"@), false);
                let hugepages = or_default(toggle_slot(slots, "hugepages"@), false);
                let balloon = or_default(toggle_slot(slots, "balloon"@), false);
                if size is Err {
                    Err(Failure::ParseMemory(size->Err_0))
                } else if mergeable is Err {
                    Err(Failure::ParseMemory(mergeable->Err_0))
                } else if hotplug_method is Err {
                    Err(Failure::ParseMemory(hotplug_method->Err_0))
                } else if hotplug_size is Err {
                    Err(Failure::ParseMemory(hotplug_size->Err_0))
                } else if shared is Err {
                    Err(Failure::ParseMemory(shared->Err_0))
                } else if hugepages is Err {
                    Err(Failure::ParseMemory(hugepages->Err_0))
                } else if balloon is Err {
                    Err(Failure::ParseMemory(balloon->Err_0))
                } else {
                    Ok(
                        MemoryConfigView {
                            size: size->Ok_0,
                            file: slot_value(slots, "file"@),
                            mergeable: mergeable->Ok_0,
                            hotplug_method: hotplug_method->Ok_0,
                            hotplug_size: hotplug_size->Ok_0,
                            shared: shared->Ok_0,
                            hugepages: hugepages->Ok_0,
                            balloon: balloon->Ok_0,
                            balloon_size: 0,
                        },
                    )
                }
            },
        }
    }

    /// Reads what `--memory` says.
    pub fn parse(memory: &str) -> (r: Result<Self, Error>)
        ensures
            parsed(r, Self::spec_parse(memory@)),
    {
        let mut parser = OptionParser::new();
        parser.add("size");
        parser.add("file");
        parser.add("mergeable");
        parser.add("hotplug_method");
        parser.add("hotplug_size");
        parser.add("shared");
        parser.add("hugepages");
        parser.add("balloon");
        match parser.parse(memory) {
            Ok(_) => {},
            Err(e) => {
                return Err(Error::ParseMemory(e));
            },
        }

        let size: u64 = match parser.byte_sized_or("size", DEFAULT_MEMORY_MB << 20) {
            Ok(v) => v,
            Err(e) => {
                return Err(Error::ParseMemory(e));
            },
        };
        let file = parser.get("file");
        let mergeable = match parser.toggle_or("mergeable", false) {
            Ok(v) => v,
            Err(e) => {
                return Err(Error::ParseMemory(e));
            },
        };
        let hotplug_method = match convert_hotplug_method(&parser, "hotplug_method") {
            Ok(Some(v)) => v,
            Ok(None) => HotplugMethod::Acpi,
            Err(e) => {
                return Err(Error::ParseMemory(e));
            },
        };
        let hotplug_size = match parser.convert_byte_sized("hotplug_size") {
            Ok(v) => v,
            Err(e) => {
                return Err(Error::ParseMemory(e));
            },
        };
        let shared = match parser.toggle_or("shared", false) {
            Ok(v) => v,
            Err(e) => {
                return Err(Error::ParseMemory(e));
            },
        };
        let hugepages = match parser.toggle_or("hugepages", false) {
            Ok(v) => v,
            Err(e) => {
                return Err(Error::ParseMemory(e));
            },
        };
        let balloon = match parser.toggle_or("balloon", false) {
            Ok(v) => v,
            Err(e) => {
                return Err(Error::ParseMemory(e));
            },
        };

        Ok(MemoryConfig { size, file, mergeable, hotplug_method, hotplug_size, shared, hugepages, balloon, balloon_size: 0 })
    }
}

impl Default for MemoryConfig {
    fn default() -> (r: Self)
        ensures
            r@ == (MemoryConfigView {
                size: DEFAULT_MEMORY_MB << 20,
                file: None,
                mergeable: false,
                hotplug_method: HotplugMethod::Acpi,
                hotplug_size: None,
                shared: false,
                hugepages: false,
                balloon: false,
                balloon_size: 0,
            }),
    {
        MemoryConfig {
            size: DEFAULT_MEMORY_MB << 20,
            file: None,
            mergeable: false,
            hotplug_method: HotplugMethod::Acpi,
            hotplug_size: None,
            shared: false,
            hugepages: false,
            balloon: false,
            balloon_size: 0,
        }
    }
}

pub fn default_diskconfig_num_queues() -> (r: usize)
    ensures
        r == DEFAULT_NUM_QUEUES_VUBLK,
{
    DEFAULT_NUM_QUEUES_VUBLK
}

pub fn default_diskconfig_queue_size() -> (r: u16)
    ensures
        r == DEFAULT_QUEUE_SIZE_VUBLK,
{
    DEFAULT_QUEUE_SIZE_VUBLK
}

pub fn default_diskconfig_poll_queue() -> (r: bool)
    ensures
        r,
{
    true
}

#[derive(Clone, Debug, PartialEq, Eq)]
pub struct DiskConfig {
    pub path: Option<String>,
    pub readonly: bool,
    pub direct: bool,
    pub iommu: bool,
    pub num_queues: usize,
    pub queue_size: u16,
    pub vhost_user: bool,
    pub vhost_socket: Option<String>,
    pub poll_queue: bool,
    pub id: Option<String>,
}

/// A `DiskConfig` with its texts as text.
pub struct DiskConfigView {
    pub path: Option<Seq<char>>,
    pub readonly: bool,
    pub direct: bool,
    pub iommu: bool,
    pub num_queues: usize,
    pub queue_size: u16,
    pub vhost_user: bool,
    pub vhost_socket: Option<Seq<char>>,
    pub poll_queue: bool,
    pub id: Option<Seq<char>>,
}

impl View for DiskConfig {
    type V = DiskConfigView;

    open spec fn view(&self) -> DiskConfigView {
        DiskConfigView {
            path: opt_text(self.path),
            readonly: self.readonly,
            direct: self.direct,
            iommu: self.iommu,
            num_queues: self.num_queues,
            queue_size: self.queue_size,
            vhost_user: self.vhost_user,
            vhost_socket: opt_text(self.vhost_socket),
            poll_queue: self.poll_queue,
            id: opt_text(self.id),
        }
    }
}

impl DiskConfig {
    pub const SYNTAX: &'static str = "Disk parameters \
         \"path=<disk_image_path>,readonly=on|off,iommu=on|off,num_queues=<number_of_queues>,\
         queue_size=<size_of_each_queue>,vhost_user=<vhost_user_enable>,\
         socket=<vhost_user_socket_path>, default true>,id=<device_id>\"";

    /// The options of `--disk`.
    pub open spec fn options() -> Seq<OptionSlot> {
        let slots = Seq::empty();
        let slots = with_option(slots, "path"@, true);
        let slots = with_option(slots, "readonly"@, true);
        let slots = with_option(slots, "direct"@, true);
        let slots = with_option(slots, "iommu"@, true);
        let slots = with_option(slots, "queue_size"@, true);
        let slots = with_option(slots, "num_queues"@, true);
        let slots = with_option(slots, "vhost_user"@, true);
        let slots = with_option(slots, "socket"@, true);
        let slots = with_option(slots, "poll_queue"@, true);
        let slots = with_option(slots, "id"@, true);
        slots
    }

    /// What `--disk` says: one queue of 128 entries, polled, and every
    /// other switch off where nothing else is given.
    pub open spec fn spec_parse(disk: Seq<char>) -> Result<DiskConfigView, Failure> {
        match parse_options(Self::options(), disk) {
            Err(f) => Err(Failure::ParseDisk(f)),
            Ok(slots) => {
                let readonly = or_default(toggle_slot(slots, "readonly"@), false);
                let direct = or_default(toggle_slot(slots, "direct"@), false);
                let iommu = or_default(toggle_slot(slots, "iommu"@), false);
                let queue_size = or_default(u16_slot(slots, "queue_size"@), DEFAULT_QUEUE_SIZE_VUBLK);
                let num_queues = or_default(usize_slot(slots, "num_queues"@), DEFAULT_NUM_QUEUES_VUBLK);
                let vhost_user = or_default(toggle_slot(slots, "vhost_user"@), false);
                let poll_queue = or_default(toggle_slot(slots, "poll_queue"@), true);
                if readonly is Err {
                    Err(Failure::ParseDisk(readonly->Err_0))
                } else if direct is Err {
                    Err(Failure::ParseDisk(direct->Err_0))
                } else if iommu is Err {
                    Err(Failure::ParseDisk(iommu->Err_0))
                } else if queue_size is Err {
                    Err(Failure::ParseDisk(queue_size->Err_0))
                } else if num_queues is Err {
                    Err(Failure::ParseDisk(num_queues->Err_0))
                } else if vhost_user is Err {
                    Err(Failure::ParseDisk(vhost_user->Err_0))
                } else if poll_queue is Err {
                    Err(Failure::ParseDisk(poll_queue->Err_0))
                } else {
                    Ok(
                        DiskConfigView {
                            path: slot_value(slots, "path"@),
                            readonly: readonly->Ok_0,
                            direct: direct->Ok_0,
                            iommu: iommu->Ok_0,
                            num_queues: num_queues->Ok_0,
                            queue_size: queue_size->Ok_0,
                            vhost_user: vhost_user->Ok_0,
                            vhost_socket: slot_value(slots, "socket"@),
                            poll_queue: poll_queue->Ok_0,
                            id: slot_value(slots, "id"@),
                        },
                    )
                }
            },
        }
    }

    /// Reads what `--disk` says.
    pub fn parse(disk: &str) -> (r: Result<Self, Error>)
        ensures
            parsed(r, Self::spec_parse(disk@)),
    {
        let mut parser = OptionParser::new();
        parser.add("path");
        parser.add("readonly");
        parser.add("direct");
        parser.add("iommu");
        parser.add("queue_size");
        parser.add("num_queues");
        parser.add("vhost_user");
        parser.add("socket");
        parser.add("poll_queue");
        parser.add("id");
        match parser.parse(disk) {
            Ok(_) => {},
            Err(e) => {
                return Err(Error::ParseDisk(e));
            },
        }

        let path = parser.get("path");
        let readonly = match parser.toggle_or("readonly", false) {
            Ok(v) => v,
            Err(e) => {
                return Err(Error::ParseDisk(e));
            },
        };
        let direct = match parser.toggle_or("direct", false) {
            Ok(v) => v,
            Err(e) => {
                return Err(Error::ParseDisk(e));
            },
        };
        let iommu = match parser.toggle_or("iommu", false) {
            Ok(v) => v,
            Err(e) => {
                return Err(Error::ParseDisk(e));
            },
        };
        let queue_size: u16 = match parser.u16_or("queue_size", DEFAULT_QUEUE_SIZE_VUBLK) {
            Ok(v) => v,
            Err(e) => {
                return Err(Error::ParseDisk(e));
            },
        };
        let num_queues: usize = match parser.usize_or("num_queues", DEFAULT_NUM_QUEUES_VUBLK) {
            Ok(v) => v,
            Err(e) => {
                return Err(Error::ParseDisk(e));
            },
        };
        let vhost_user = match parser.toggle_or("vhost_user", false) {
            Ok(v) => v,
            Err(e) => {
                return Err(Error::ParseDisk(e));
            },
        };
        let vhost_socket = parser.get("socket");
        let poll_queue = match parser.toggle_or("poll_queue", true) {
            Ok(v) => v,
            Err(e) => {
                return Err(Error::ParseDisk(e));
            },
        };
        let id = parser.get("id");

        Ok(DiskConfig { path, readonly, direct, iommu, num_queues, queue_size, vhost_user, vhost_socket, poll_queue, id })
    }
}

impl Default for DiskConfig {
    fn default() -> (r: Self)
        ensures
            r@ == (DiskConfigView {
                path: None,
                readonly: false,
                direct: false,
                iommu: false,
                num_queues: DEFAULT_NUM_QUEUES_VUBLK,
                queue_size: DEFAULT_QUEUE_SIZE_VUBLK,
                vhost_user: false,
                vhost_socket: None,
                poll_queue: true,
                id: None,
            }),
    {
        DiskConfig {
            path: None,
            readonly: false,
            direct: false,
            iommu: false,
            num_queues: default_diskconfig_num_queues(),
            queue_size: default_diskconfig_queue_size(),
            vhost_user: false,
            vhost_socket: None,
            poll_queue: default_diskconfig_poll_queue(),
            id: None,
        }
    }
}

#[derive(Clone, Debug, PartialEq, Eq)]
pub struct RngConfig {
    pub src: String,
    pub iommu: bool,
}

/// A `RngConfig` with its texts as text.
pub struct RngConfigView {
    pub src: Seq<char>,
    pub iommu: bool,
}

impl View for RngConfig {
    type V = RngConfigView;

    open spec fn view(&self) -> RngConfigView {
        RngConfigView {
            src: self.src@,
            iommu: self.iommu,
        }
    }
}

impl RngConfig {
    /// The options of `--rng`.
    pub open spec fn options() -> Seq<OptionSlot> {
        let slots = Seq::empty();
        let slots = with_option(slots, "src"@, true);
        let slots = with_option(slots, "iommu"@, true);
        slots
    }

    /// What `--rng` says: `/dev/urandom` and no IOMMU where nothing else is
    /// given.
    pub open spec fn spec_parse(rng: Seq<char>) -> Result<RngConfigView, Failure> {
        match parse_options(Self::options(), rng) {
            Err(f) => Err(Failure::ParseRNG(f)),
            Ok(slots) => {
                let iommu = or_default(toggle_slot(slots, "iommu"@), false);
                if iommu is Err {
                    Err(Failure::ParseRNG(iommu->Err_0))
                } else {
                    Ok(
                        RngConfigView {
                            src: match slot_value(slots, "src"@) {
                            Some(v) => v,
                            None => DEFAULT_RNG_SOURCE@,
                        },
                            iommu: iommu->Ok_0,
                        },
                    )
                }
            },
        }
    }

    /// Reads what `--rng` says.
    pub fn parse(rng: &str) -> (r: Result<Self, Error>)
        ensures
            parsed(r, Self::spec_parse(rng@)),
    {
        let mut parser = OptionParser::new();
        parser.add("src");
        parser.add("iommu");
        match parser.parse(rng) {
            Ok(_) => {},
            Err(e) => {
                return Err(Error::ParseRNG(e));
            },
        }

        let src = match parser.get("src") {
            Some(v) => v,
            None => DEFAULT_RNG_SOURCE.to_owned(),
        };
        let iommu = match parser.toggle_or("iommu", false) {
            Ok(v) => v,
            Err(e) => {
                return Err(Error::ParseRNG(e));
            },
        };

        Ok(RngConfig { src, iommu })
    }
}

impl Default for RngConfig {
    fn default() -> (r: Self)
        ensures
            r@ == (RngConfigView {
                src: DEFAULT_RNG_SOURCE@,
                iommu: false,
            }),
    {
        RngConfig {
            src: DEFAULT_RNG_SOURCE.to_owned(),
            iommu: false,
        }
    }
}

#[derive(Clone, Debug, PartialEq, Eq)]
pub struct PmemConfig {
    pub file: String,
    pub size: Option<u64>,
    pub iommu: bool,
    pub mergeable: bool,
    pub discard_writes: bool,
    pub id: Option<String>,
}

/// A `PmemConfig` with its texts as text.
pub struct PmemConfigView {
    pub file: Seq<char>,
    pub size: Option<u64>,
    pub iommu: bool,
    pub mergeable: bool,
    pub discard_writes: bool,
    pub id: Option<Seq<char>>,
}

impl View for PmemConfig {
    type V = PmemConfigView;

    open spec fn view(&self) -> PmemConfigView {
        PmemConfigView {
            file: self.file@,
            size: self.size,
            iommu: self.iommu,
            mergeable: self.mergeable,
            discard_writes: self.discard_writes,
            id: opt_text(self.id),
        }
    }
}

impl PmemConfig {
    pub const SYNTAX: &'static str = "Persistent memory parameters \
    \"file=<backing_file_path>,size=<persistent_memory_size>,iommu=on|off,\
    mergeable=on|off,discard_writes=on|off,id=<device_id>\"";

    /// The options of `--pmem`.
    pub open spec fn options() -> Seq<OptionSlot> {
        let slots = Seq::empty();
        let slots = with_option(slots, "size"@, true);
        let slots = with_option(slots, "file"@, true);
        let slots = with_option(slots, "mergeable"@, true);
        let slots = with_option(slots, "iommu"@, true);
        let slots = with_option(slots, "discard_writes"@, true);
        let slots = with_option(slots, "id"@, true);
        slots
    }

    /// What `--pmem` says: a file, which must be given, and every switch
    /// off where nothing else is given.
    pub open spec fn spec_parse(pmem: Seq<char>) -> Result<PmemConfigView, Failure> {
        match parse_options(Self::options(), pmem) {
            Err(f) => Err(Failure::ParsePersistentMemory(f)),
            Ok(slots) => {
                let size = byte_sized_slot(slots, "size"@);
                let mergeable = or_default(toggle_slot(slots, "mergeable"@), false);
                let iommu = or_default(toggle_slot(slots, "iommu"@), false);
                let discard_writes = or_default(toggle_slot(slots, "discard_writes"@), false);
                if slot_value(slots, "file"@) is None {
                    Err(Failure::ParsePmemFileMissing)
                } else if size is Err {
                    Err(Failure::ParsePersistentMemory(size->Err_0))
                } else if mergeable is Err {
                    Err(Failure::ParsePersistentMemory(mergeable->Err_0))
                } else if iommu is Err {
                    Err(Failure::ParsePersistentMemory(iommu->Err_0))
                } else if discard_writes is Err {
                    Err(Failure::ParsePersistentMemory(discard_writes->Err_0))
                } else {
                    Ok(
                        PmemConfigView {
                            file: slot_value(slots, "file"@)->0,
                            size: size->Ok_0,
                            iommu: iommu->Ok_0,
                            mergeable: mergeable->Ok_0,
                            discard_writes: discard_writes->Ok_0,
                            id: slot_value(slots, "id"@),
                        },
                    )
                }
            },
        }
    }

    /// Reads what `--pmem` says.
    pub fn parse(pmem: &str) -> (r: Result<Self, Error>)
        ensures
            parsed(r, Self::spec_parse(pmem@)),
    {
        let mut parser = OptionParser::new();
        parser.add("size");
        parser.add("file");
        parser.add("mergeable");
        parser.add("iommu");
        parser.add("discard_writes");
        parser.add("id");
        match parser.parse(pmem) {
            Ok(_) => {},
            Err(e) => {
                return Err(Error::ParsePersistentMemory(e));
            },
        }

        let file = match parser.get("file") {
            Some(v) => v,
            None => {
                return Err(Error::ParsePmemFileMissing);
            },
        };
        let size = match parser.convert_byte_sized("size") {
            Ok(v) => v,
            Err(e) => {
                return Err(Error::ParsePersistentMemory(e));
            },
        };
        let mergeable = match parser.toggle_or("mergeable", false) {
            Ok(v) => v,
            Err(e) => {
                return Err(Error::ParsePersistentMemory(e));
            },
        };
        let iommu = match parser.toggle_or("iommu", false) {
            Ok(v) => v,
            Err(e) => {
                return Err(Error::ParsePersistentMemory(e));
            },
        };
        let discard_writes = match parser.toggle_or("discard_writes", false) {
            Ok(v) => v,
            Err(e) => {
                return Err(Error::ParsePersistentMemory(e));
            },
        };
        let id = parser.get("id");

        Ok(PmemConfig { file, size, iommu, mergeable, discard_writes, id })
    }
}

impl Default for PmemConfig {
    fn default() -> (r: Self)
        ensures
            r@ == (PmemConfigView {
                file: Seq::<char>::empty(),
                size: None,
                iommu: false,
                mergeable: false,
                discard_writes: false,
                id: None,
            }),
    {
        PmemConfig {
            file: String::new(),
            size: None,
            iommu: false,
            mergeable: false,
            discard_writes: false,
            id: None,
        }
    }
}

#[derive(Clone, Debug, PartialEq, Eq)]
pub struct DeviceConfig {
    pub path: String,
    pub iommu: bool,
    pub id: Option<String>,
}

/// A `DeviceConfig` with its texts as text.
pub struct DeviceConfigView {
    pub path: Seq<char>,
    pub iommu: bool,
    pub id: Option<Seq<char>>,
}

impl View for DeviceConfig {
    type V = DeviceConfigView;

    open spec fn view(&self) -> DeviceConfigView {
        DeviceConfigView {
            path: self.path@,
            iommu: self.iommu,
            id: opt_text(self.id),
        }
    }
}

impl DeviceConfig {
    pub const SYNTAX: &'static str = "Direct device assignment parameters \"path=<device_path>,iommu=on|off,id=<device_id>\"";

    /// The options of `--device`.
    pub open spec fn options() -> Seq<OptionSlot> {
        let slots = Seq::empty();
        let slots = with_option(slots, "path"@, true);
        let slots = with_option(slots, "id"@, true);
        let slots = with_option(slots, "iommu"@, true);
        slots
    }

    /// What `--device` says: a path, which must be given, and no IOMMU
    /// where nothing else is given.
    pub open spec fn spec_parse(device: Seq<char>) -> Result<DeviceConfigView, Failure> {
        match parse_options(Self::options(), device) {
            Err(f) => Err(Failure::ParseDevice(f)),
            Ok(slots) => {
                let iommu = or_default(toggle_slot(slots, "iommu"@), false);
                if slot_value(slots, "path"@) is None {
                    Err(Failure::ParseDevicePathMissing)
                } else if iommu is Err {
                    Err(Failure::ParseDevice(iommu->Err_0))
                } else {
                    Ok(
                        DeviceConfigView {
                            path: slot_value(slots, "path"@)->0,
                            iommu: iommu->Ok_0,
                            id: slot_value(slots, "id"@),
                        },
                    )
                }
            },
        }
    }

    /// Reads what `--device` says.
    pub fn parse(device: &str) -> (r: Result<Self, Error>)
        ensures
            parsed(r, Self::spec_parse(device@)),
    {
        let mut parser = OptionParser::new();
        parser.add("path");
        parser.add("id");
        parser.add("iommu");
        match parser.parse(device) {
            Ok(_) => {},
            Err(e) => {
                return Err(Error::ParseDevice(e));
            },
        }

        let path = match parser.get("path") {
            Some(v) => v,
            None => {
                return Err(Error::ParseDevicePathMissing);
            },
        };
        let iommu = match parser.toggle_or("iommu", false) {
            Ok(v) => v,
            Err(e) => {
                return Err(Error::ParseDevice(e));
            },
        };
        let id = parser.get("id");

        Ok(DeviceConfig { path, iommu, id })
    }
}

impl Default for DeviceConfig {
    fn default() -> (r: Self)
        ensures
            r@ == (DeviceConfigView {
                path: Seq::<char>::empty(),
                iommu: false,
                id: None,
            }),
    {
        DeviceConfig {
            path: String::new(),
            iommu: false,
            id: None,
        }
    }
}

#[derive(Clone, Debug, PartialEq, Eq)]
pub struct VsockConfig {
    pub cid: u64,
    pub socket: String,
    pub iommu: bool,
    pub id: Option<String>,
}

/// A `VsockConfig` with its texts as text.
pub struct VsockConfigView {
    pub cid: u64,
    pub socket: Seq<char>,
    pub iommu: bool,
    pub id: Option<Seq<char>>,
}

impl View for VsockConfig {
    type V = VsockConfigView;

    open spec fn view(&self) -> VsockConfigView {
        VsockConfigView {
            cid: self.cid,
            socket: self.socket@,
            iommu: self.iommu,
            id: opt_text(self.id),
        }
    }
}

impl VsockConfig {
    pub const SYNTAX: &'static str = "Virtio VSOCK parameters \
        \"cid=<context_id>,socket=<socket_path>,iommu=on|off,id=<device_id>\"";

    /// The options of `--vsock`.
    pub open spec fn options() -> Seq<OptionSlot> {
        let slots = Seq::empty();
        let slots = with_option(slots, "socket"@, true);
        let slots = with_option(slots, "cid"@, true);
        let slots = with_option(slots, "iommu"@, true);
        let slots = with_option(slots, "id"@, true);
        slots
    }

    /// What `--vsock` says: a socket and a context identifier, which must
    /// both be given, and no IOMMU where nothing else is given.
    pub open spec fn spec_parse(vsock: Seq<char>) -> Result<VsockConfigView, Failure> {
        match parse_options(Self::options(), vsock) {
            Err(f) => Err(Failure::ParseVsock(f)),
            Ok(slots) => {
                let iommu = or_default(toggle_slot(slots, "iommu"@), false);
                let cid = u64_slot(slots, "cid"@);
                if slot_value(slots, "socket"@) is None {
                    Err(Failure::ParseVsockSockMissing)
                } else if iommu is Err {
                    Err(Failure::ParseVsock(iommu->Err_0))
                } else if cid is Err {
                    Err(Failure::ParseVsock(cid->Err_0))
                } else if cid->Ok_0 is None {
                    Err(Failure::ParseVsockCidMissing)
                } else {
                    Ok(
                        VsockConfigView {
                            cid: cid->Ok_0->0,
                            socket: slot_value(slots, "socket"@)->0,
                            iommu: iommu->Ok_0,
                            id: slot_value(slots, "id"@),
                        },
                    )
                }
            },
        }
    }

    /// Reads what `--vsock` says.
    pub fn parse(vsock: &str) -> (r: Result<Self, Error>)
        ensures
            parsed(r, Self::spec_parse(vsock@)),
    {
        let mut parser = OptionParser::new();
        parser.add("socket");
        parser.add("cid");
        parser.add("iommu");
        parser.add("id");
        match parser.parse(vsock) {
            Ok(_) => {},
            Err(e) => {
                return Err(Error::ParseVsock(e));
            },
        }

        let socket = match parser.get("socket") {
            Some(v) => v,
            None => {
                return Err(Error::ParseVsockSockMissing);
            },
        };
        let iommu = match parser.toggle_or("iommu", false) {
            Ok(v) => v,
            Err(e) => {
                return Err(Error::ParseVsock(e));
            },
        };
        let cid: u64 = match parser.convert_u64("cid") {
            Ok(Some(v)) => v,
            Ok(None) => {
                return Err(Error::ParseVsockCidMissing);
            },
            Err(e) => {
                return Err(Error::ParseVsock(e));
            },
        };
        let id = parser.get("id");

        Ok(VsockConfig { cid, socket, iommu, id })
    }
}

impl Default for VsockConfig {
    fn default() -> (r: Self)
        ensures
            r@ == (VsockConfigView {
                cid: 0,
                socket: Seq::<char>::empty(),
                iommu: false,
                id: None,
            }),
    {
        VsockConfig {
            cid: 0,
            socket: String::new(),
            iommu: false,
            id: None,
        }
    }
}

#[derive(Clone, Debug, PartialEq, Eq)]
pub struct SgxEpcConfig {
    pub size: u64,
    pub prefault: bool,
}

/// A `SgxEpcConfig` with its texts as text.
pub struct SgxEpcConfigView {
    pub size: u64,
    pub prefault: bool,
}

impl View for SgxEpcConfig {
    type V = SgxEpcConfigView;

    open spec fn view(&self) -> SgxEpcConfigView {
        SgxEpcConfigView {
            size: self.size,
            prefault: self.prefault,
        }
    }
}

impl SgxEpcConfig {
    pub const SYNTAX: &'static str = "SGX EPC parameters \
        \"size=<epc_section_size>,prefault=on|off\"";

    /// The options of `--sgx-epc`.
    pub open spec fn options() -> Seq<OptionSlot> {
        let slots = Seq::empty();
        let slots = with_option(slots, "size"@, true);
        let slots = with_option(slots, "prefault"@, true);
        slots
    }

    /// What `--sgx-epc` says: no bytes and no prefault where nothing else
    /// is given.
    pub open spec fn spec_parse(sgx_epc: Seq<char>) -> Result<SgxEpcConfigView, Failure> {
        match parse_options(Self::options(), sgx_epc) {
            Err(f) => Err(Failure::ParseSgxEpc(f)),
            Ok(slots) => {
                let size = or_default(byte_sized_slot(slots, "size"@), 0);
                let prefault = or_default(toggle_slot(slots, "prefault"@), false);
                if size is Err {
                    Err(Failure::ParseSgxEpc(size->Err_0))
                } else if prefault is Err {
                    Err(Failure::ParseSgxEpc(prefault->Err_0))
                } else {
                    Ok(
                        SgxEpcConfigView {
                            size: size->Ok_0,
                            prefault: prefault->Ok_0,
                        },
                    )
                }
            },
        }
    }

    /// Reads what `--sgx-epc` says.
    pub fn parse(sgx_epc: &str) -> (r: Result<Self, Error>)
        ensures
            parsed(r, Self::spec_parse(sgx_epc@)),
    {
        let mut parser = OptionParser::new();
        parser.add("size");
        parser.add("prefault");
        match parser.parse(sgx_epc) {
            Ok(_) => {},
            Err(e) => {
                return Err(Error::ParseSgxEpc(e));
            },
        }

        let size: u64 = match parser.byte_sized_or("size", 0) {
            Ok(v) => v,
            Err(e) => {
                return Err(Error::ParseSgxEpc(e));
            },
        };
        let prefault = match parser.toggle_or("prefault", false) {
            Ok(v) => v,
            Err(e) => {
                return Err(Error::ParseSgxEpc(e));
            },
        };

        Ok(SgxEpcConfig { size, prefault })
    }
}

impl Default for SgxEpcConfig {
    fn default() -> (r: Self)
        ensures
            r@ == (SgxEpcConfigView {
                size: 0,
                prefault: false,
            }),
    {
        SgxEpcConfig {
            size: 0,
            prefault: false,
        }
    }
}

#[derive(Clone, Debug, PartialEq, Eq)]
pub struct RestoreConfig {
    pub source_url: String,
    pub prefault: bool,
}

/// A `RestoreConfig` with its texts as text.
pub struct RestoreConfigView {
    pub source_url: Seq<char>,
    pub prefault: bool,
}

impl View for RestoreConfig {
    type V = RestoreConfigView;

    open spec fn view(&self) -> RestoreConfigView {
        RestoreConfigView {
            source_url: self.source_url@,
            prefault: self.prefault,
        }
    }
}

impl RestoreConfig {
    pub const SYNTAX: &'static str = "Restore from a VM snapshot. \
        \nRestore parameters \"source_url=<source_url>,prefault=on|off\" \
        \n`source_url` should be a valid URL (e.g file:///foo/bar or tcp://192.168.1.10/foo) \
        \n`prefault` brings memory pages in when enabled (disabled by default)";

    /// The options of `--restore`.
    pub open spec fn options() -> Seq<OptionSlot> {
        let slots = Seq::empty();
        let slots = with_option(slots, "source_url"@, true);
        let slots = with_option(slots, "prefault"@, true);
        slots
    }

    /// What `--restore` says: a source, which must be given, and no
    /// prefault where nothing else is given.
    pub open spec fn spec_parse(restore: Seq<char>) -> Result<RestoreConfigView, Failure> {
        match parse_options(Self::options(), restore) {
            Err(f) => Err(Failure::ParseRestore(f)),
            Ok(slots) => {
                let prefault = or_default(toggle_slot(slots, "prefault"@), false);
                if slot_value(slots, "source_url"@) is None {
                    Err(Failure::ParseRestoreSourceUrlMissing)
                } else if prefault is Err {
                    Err(Failure::ParseRestore(prefault->Err_0))
                } else {
                    Ok(
                        RestoreConfigView {
                            source_url: slot_value(slots, "source_url"@)->0,
                            prefault: prefault->Ok_0,
                        },
                    )
                }
            },
        }
    }

    /// Reads what `--restore` says.
    pub fn parse(restore: &str) -> (r: Result<Self, Error>)
        ensures
            parsed(r, Self::spec_parse(restore@)),
    {
        let mut parser = OptionParser::new();
        parser.add("source_url");
        parser.add("prefault");
        match parser.parse(restore) {
            Ok(_) => {},
            Err(e) => {
                return Err(Error::ParseRestore(e));
            },
        }

        let source_url = match parser.get("source_url") {
            Some(v) => v,
            None => {
                return Err(Error::ParseRestoreSourceUrlMissing);
            },
        };
        let prefault = match parser.toggle_or("prefault", false) {
            Ok(v) => v,
            Err(e) => {
                return Err(Error::ParseRestore(e));
            },
        };

        Ok(RestoreConfig { source_url, prefault })
    }
}

impl Default for RestoreConfig {
    fn default() -> (r: Self)
        ensures
            r@ == (RestoreConfigView {
                source_url: Seq::<char>::empty(),
                prefault: false,
            }),
    {
        RestoreConfig {
            source_url: String::new(),
            prefault: false,
        }
    }
}

#[derive(Clone, Debug, PartialEq, Eq)]
pub struct KernelConfig {
    pub path: String,
}

#[derive(Clone, Debug, PartialEq, Eq)]
pub struct InitramfsConfig {
    pub path: String,
}

#[derive(Clone, Debug, PartialEq, Eq)]
pub struct CmdlineConfig {
    pub args: String,
}

impl Default for CmdlineConfig {
    fn default() -> (r: Self)
        ensures
            r.args@ == Seq::<char>::empty(),
    {
        CmdlineConfig { args: String::new() }
    }
}

impl CmdlineConfig {
    /// The kernel's command line: the text that is given, or the empty
    /// text.
    pub fn parse(cmdline: Option<&str>) -> (r: Result<Self, Error>)
        ensures
            r matches Ok(c) && c.args@ == match cmdline {
                Some(s) => s@,
                None => Seq::<char>::empty(),
            },
    {
        let args = match cmdline {
            Some(s) => s.to_owned(),
            None => String::new(),
        };

        Ok(CmdlineConfig { args })
    }
}

#[derive(Clone, Debug, PartialEq, Eq)]
pub struct FsConfig {
    pub tag: String,
    pub socket: String,
    pub num_queues: usize,
    pub queue_size: u16,
    pub dax: bool,
    pub cache_size: u64,
    pub id: Option<String>,
}

/// A `FsConfig` with its texts as text.
pub struct FsConfigView {
    pub tag: Seq<char>,
    pub socket: Seq<char>,
    pub num_queues: usize,
    pub queue_size: u16,
    pub dax: bool,
    pub cache_size: u64,
    pub id: Option<Seq<char>>,
}

impl View for FsConfig {
    type V = FsConfigView;

    open spec fn view(&self) -> FsConfigView {
        FsConfigView {
            tag: self.tag@,
            socket: self.socket@,
            num_queues: self.num_queues,
            queue_size: self.queue_size,
            dax: self.dax,
            cache_size: self.cache_size,
            id: opt_text(self.id),
        }
    }
}

pub fn default_fsconfig_num_queues() -> (r: usize)
    ensures
        r == 1,
{
    1
}

pub fn default_fsconfig_queue_size() -> (r: u16)
    ensures
        r == 1024,
{
    1024
}

pub fn default_fsconfig_dax() -> (r: bool)
    ensures
        r,
{
    true
}

pub fn default_fsconfig_cache_size() -> (r: u64)
    ensures
        r == 0x0002_0000_0000,
{
    0x0002_0000_0000
}

impl Default for FsConfig {
    fn default() -> (r: Self)
        ensures
            r@ == (FsConfigView {
                tag: Seq::<char>::empty(),
                socket: Seq::<char>::empty(),
                num_queues: 1,
                queue_size: 1024,
                dax: true,
                cache_size: 0x0002_0000_0000,
                id: None,
            }),
    {
        FsConfig {
            tag: String::new(),
            socket: String::new(),
            num_queues: default_fsconfig_num_queues(),
            queue_size: default_fsconfig_queue_size(),
            dax: default_fsconfig_dax(),
            cache_size: default_fsconfig_cache_size(),
            id: None,
        }
    }
}

impl FsConfig {
    pub const SYNTAX: &'static str = "virtio-fs parameters \
    \"tag=<tag_name>,socket=<socket_path>,num_queues=<number_of_queues>,\
    queue_size=<size_of_each_queue>,dax=on|off,cache_size=<DAX cache size: \
    default 8Gib>,id=<device_id>\"";

    /// The options of `--fs`.
    pub open spec fn options() -> Seq<OptionSlot> {
        let slots = Seq::empty();
        let slots = with_option(slots, "tag"@, true);
        let slots = with_option(slots, "dax"@, true);
        let slots = with_option(slots, "cache_size"@, true);
        let slots = with_option(slots, "queue_size"@, true);
        let slots = with_option(slots, "num_queues"@, true);
        let slots = with_option(slots, "socket"@, true);
        let slots = with_option(slots, "id"@, true);
        slots
    }

    /// What `--fs` says: a tag and a socket, which must both be given; one
    /// queue of 1024 entries, and DAX with a cache of 8 GiB where nothing
    /// else is given. A cache size goes with DAX only.
    pub open spec fn spec_parse(fs: Seq<char>) -> Result<FsConfigView, Failure> {
        match parse_options(Self::options(), fs) {
            Err(f) => Err(Failure::ParseFileSystem(f)),
            Ok(slots) => {
                let queue_size = or_default(u16_slot(slots, "queue_size"@), 1024);
                let num_queues = or_default(usize_slot(slots, "num_queues"@), 1);
                let dax = or_default(toggle_slot(slots, "dax"@), true);
                let cache_size = or_default(
                    byte_sized_slot(slots, "cache_size"@),
                    0x0002_0000_0000,
                );
                if slot_value(slots, "tag"@) is None {
                    Err(Failure::ParseFsTagMissing)
                } else if slot_value(slots, "socket"@) is None {
                    Err(Failure::ParseFsSockMissing)
                } else if queue_size is Err {
                    Err(Failure::ParseFileSystem(queue_size->Err_0))
                } else if num_queues is Err {
                    Err(Failure::ParseFileSystem(num_queues->Err_0))
                } else if dax is Err {
                    Err(Failure::ParseFileSystem(dax->Err_0))
                } else if slot_set(slots, "cache_size"@) && !dax->Ok_0 {
                    Err(Failure::InvalidCacheSizeWithDaxOff)
                } else if cache_size is Err {
                    Err(Failure::ParseFileSystem(cache_size->Err_0))
                } else {
                    Ok(
                        FsConfigView {
                            tag: slot_value(slots, "tag"@)->0,
                            socket: slot_value(slots, "socket"@)->0,
                            num_queues: num_queues->Ok_0,
                            queue_size: queue_size->Ok_0,
                            dax: dax->Ok_0,
                            cache_size: cache_size->Ok_0,
                            id: slot_value(slots, "id"@),
                        },
                    )
                }
            },
        }
    }

    /// Reads what `--fs` says.
    pub fn parse(fs: &str) -> (r: Result<Self, Error>)
        ensures
            parsed(r, Self::spec_parse(fs@)),
    {
        let mut parser = OptionParser::new();
        parser.add("tag").add("dax").add("cache_size").add("queue_size").add("num_queues").add(
            "socket",
        ).add("id");
        match parser.parse(fs) {
            Ok(_) => {},
            Err(e) => {
                return Err(Error::ParseFileSystem(e));
            },
        }

        let tag = match parser.get("tag") {
            Some(v) => v,
            None => {
                return Err(Error::ParseFsTagMissing);
            },
        };
        let socket = match parser.get("socket") {
            Some(v) => v,
            None => {
                return Err(Error::ParseFsSockMissing);
            },
        };

        let queue_size: u16 = match parser.u16_or("queue_size", default_fsconfig_queue_size()) {
            Ok(v) => v,
            Err(e) => {
                return Err(Error::ParseFileSystem(e));
            },
        };
        let num_queues: usize = match parser.usize_or(
            "num_queues",
            default_fsconfig_num_queues(),
        ) {
            Ok(v) => v,
            Err(e) => {
                return Err(Error::ParseFileSystem(e));
            },
        };

        let dax = match parser.toggle_or("dax", default_fsconfig_dax()) {
            Ok(v) => v,
            Err(e) => {
                return Err(Error::ParseFileSystem(e));
            },
        };

        if parser.is_set("cache_size") && !dax {
            return Err(Error::InvalidCacheSizeWithDaxOff);
        }
        let cache_size: u64 = match parser.byte_sized_or(
            "cache_size",
            default_fsconfig_cache_size(),
        ) {
            Ok(v) => v,
            Err(e) => {
                return Err(Error::ParseFileSystem(e));
            },
        };

        let id = parser.get("id");

        Ok(FsConfig { tag, socket, num_queues, queue_size, dax, cache_size, id })
    }
}

#[derive(Clone, Copy, Debug, PartialEq, Eq, Structural)]
pub enum ConsoleOutputMode {
    Off,
    Tty,
    File,
    Null,
}

impl ConsoleOutputMode {
    /// Whether the console takes input: a terminal does, nothing else.
    pub fn input_enabled(&self) -> (r: bool)
        ensures
            r == (*self == ConsoleOutputMode::Tty),
    {
        match self {
            ConsoleOutputMode::Tty => true,
            _ => false,
        }
    }
}

#[derive(Clone, Debug, PartialEq, Eq)]
pub struct ConsoleConfig {
    pub file: Option<String>,
    pub mode: ConsoleOutputMode,
    pub iommu: bool,
}

/// A `ConsoleConfig` with its texts as text.
pub struct ConsoleConfigView {
    pub file: Option<Seq<char>>,
    pub mode: ConsoleOutputMode,
    pub iommu: bool,
}

impl View for ConsoleConfig {
    type V = ConsoleConfigView;

    open spec fn view(&self) -> ConsoleConfigView {
        ConsoleConfigView { file: opt_text(self.file), mode: self.mode, iommu: self.iommu }
    }
}

pub fn default_consoleconfig_file() -> (r: Option<String>)
    ensures
        r is None,
{
    None
}

impl ConsoleConfig {
    /// The options of `--console` and `--serial`.
    pub open spec fn options() -> Seq<OptionSlot> {
        let slots = Seq::empty();
        let slots = with_option(slots, "off"@, false);
        let slots = with_option(slots, "tty"@, false);
        let slots = with_option(slots, "null"@, false);
        let slots = with_option(slots, "file"@, true);
        let slots = with_option(slots, "iommu"@, true);
        slots
    }

    /// What `--console` and `--serial` say. The mode is the first of
    /// `off`, `tty`, `null` and `file=` that is given, and one must be; a
    /// file goes with the last only.
    pub open spec fn spec_parse(console: Seq<char>) -> Result<ConsoleConfigView, Failure> {
        match parse_options(Self::options(), console) {
            Err(f) => Err(Failure::ParseConsole(f)),
            Ok(slots) => {
                let iommu = or_default(toggle_slot(slots, "iommu"@), false);
                let mode = if slot_set(slots, "off"@) {
                    Some(ConsoleOutputMode::Off)
                } else if slot_set(slots, "tty"@) {
                    Some(ConsoleOutputMode::Tty)
                } else if slot_set(slots, "null"@) {
                    Some(ConsoleOutputMode::Null)
                } else if slot_set(slots, "file"@) {
                    Some(ConsoleOutputMode::File)
                } else {
                    None
                };
                if mode is None {
                    Err(Failure::ParseConsoleInvalidModeGiven)
                } else if iommu is Err {
                    Err(Failure::ParseConsole(iommu->Err_0))
                } else {
                    Ok(
                        ConsoleConfigView {
                            file: if mode == Some(ConsoleOutputMode::File) {
                                slot_value(slots, "file"@)
                            } else {
                                None
                            },
                            mode: mode->0,
                            iommu: iommu->Ok_0,
                        },
                    )
                }
            },
        }
    }

    /// Reads what `--console` or `--serial` says.
    pub fn parse(console: &str) -> (r: Result<Self, Error>)
        ensures
            parsed(r, Self::spec_parse(console@)),
    {
        let mut parser = OptionParser::new();
        parser.add_valueless("off").add_valueless("tty").add_valueless("null").add("file").add(
            "iommu",
        );
        match parser.parse(console) {
            Ok(_) => {},
            Err(e) => {
                return Err(Error::ParseConsole(e));
            },
        }

        let mut file: Option<String> = default_consoleconfig_file();
        let mut mode: ConsoleOutputMode = ConsoleOutputMode::Off;

        if parser.is_set("off") {
        } else if parser.is_set("tty") {
            mode = ConsoleOutputMode::Tty
        } else if parser.is_set("null") {
            mode = ConsoleOutputMode::Null
        } else if parser.is_set("file") {
            mode = ConsoleOutputMode::File;
            file = match parser.get("file") {
                Some(v) => Some(v),
                None => {
                    return Err(Error::Validation(ValidationError::ConsoleFileMissing));
                },
            };
        } else {
            return Err(Error::ParseConsoleInvalidModeGiven);
        }
        let iommu = match parser.toggle_or("iommu", false) {
            Ok(v) => v,
            Err(e) => {
                return Err(Error::ParseConsole(e));
            },
        };

        Ok(Self { mode, file, iommu })
    }

    /// The serial port where nothing is said of it: it goes nowhere.
    pub fn default_serial() -> (r: Self)
        ensures
            r@ == (ConsoleConfigView { file: None, mode: ConsoleOutputMode::Null, iommu: false }),
    {
        ConsoleConfig { file: None, mode: ConsoleOutputMode::Null, iommu: false }
    }

    /// The console where nothing is said of it: the terminal.
    pub fn default_console() -> (r: Self)
        ensures
            r@ == (ConsoleConfigView { file: None, mode: ConsoleOutputMode::Tty, iommu: false }),
    {
        ConsoleConfig { file: None, mode: ConsoleOutputMode::Tty, iommu: false }
    }
}

#[derive(Clone, Debug, PartialEq, Eq)]
pub struct NetConfig {
    pub tap: Option<String>,
    pub ip: Ipv4Addr,
    pub mask: Ipv4Addr,
    pub mac: MacAddr,
    pub host_mac: Option<MacAddr>,
    pub iommu: bool,
    pub num_queues: usize,
    pub queue_size: u16,
    pub vhost_user: bool,
    pub vhost_socket: Option<String>,
    pub id: Option<String>,
}

/// A `NetConfig` with its texts as text and its MAC addresses as bytes.
pub struct NetConfigView {
    pub tap: Option<Seq<char>>,
    pub ip: Ipv4Addr,
    pub mask: Ipv4Addr,
    pub mac: Seq<u8>,
    pub host_mac: Option<Seq<u8>>,
    pub iommu: bool,
    pub num_queues: usize,
    pub queue_size: u16,
    pub vhost_user: bool,
    pub vhost_socket: Option<Seq<char>>,
    pub id: Option<Seq<char>>,
}

impl View for NetConfig {
    type V = NetConfigView;

    open spec fn view(&self) -> NetConfigView {
        NetConfigView {
            tap: opt_text(self.tap),
            ip: self.ip,
            mask: self.mask,
            mac: self.mac@,
            host_mac: opt_mac(self.host_mac),
            iommu: self.iommu,
            num_queues: self.num_queues,
            queue_size: self.queue_size,
            vhost_user: self.vhost_user,
            vhost_socket: opt_text(self.vhost_socket),
            id: opt_text(self.id),
        }
    }
}

pub fn default_netconfig_tap() -> (r: Option<String>)
    ensures
        r is None,
{
    None
}

pub fn default_netconfig_ip() -> (r: Ipv4Addr)
    ensures
        r == Ipv4Addr(192, 168, 249, 1),
{
    Ipv4Addr::new(192, 168, 249, 1)
}

pub fn default_netconfig_mask() -> (r: Ipv4Addr)
    ensures
        r == Ipv4Addr(255, 255, 255, 0),
{
    Ipv4Addr::new(255, 255, 255, 0)
}

pub fn default_netconfig_num_queues() -> (r: usize)
    ensures
        r == DEFAULT_NUM_QUEUES_VUNET,
{
    DEFAULT_NUM_QUEUES_VUNET
}

pub fn default_netconfig_queue_size() -> (r: u16)
    ensures
        r == DEFAULT_QUEUE_SIZE_VUNET,
{
    DEFAULT_QUEUE_SIZE_VUNET
}

/// The value of the option `name` as an IPv4 address.
pub open spec fn ipv4_slot(slots: Seq<OptionSlot>, name: Seq<char>) -> Result<
    Option<Ipv4Addr>,
    OptionParserFailure,
> {
    convert_slot(slots, name, |v: Seq<char>| spec_ipv4(v))
}

/// The value of the option `name` as a MAC address.
pub open spec fn mac_slot(slots: Seq<OptionSlot>, name: Seq<char>) -> Result<
    Option<Seq<u8>>,
    OptionParserFailure,
> {
    convert_slot(slots, name, |v: Seq<char>| spec_mac(v))
}

/// The value of the option as an IPv4 address.
pub fn convert_ipv4(parser: &OptionParser, option: &str) -> (r: Result<
    Option<Ipv4Addr>,
    OptionParserError,
>)
    ensures
        says(r, ipv4_slot(parser@, option@)),
{
    match parser.get(option) {
        None => Ok(None),
        Some(v) => match Ipv4Addr::parse_str(v.as_str()) {
            Some(t) => Ok(Some(t)),
            None => Err(OptionParserError::Conversion(option.to_owned(), v)),
        },
    }
}

/// The value of the option as a MAC address.
pub fn convert_mac(parser: &OptionParser, option: &str) -> (r: Result<
    Option<MacAddr>,
    OptionParserError,
>)
    ensures
        match r {
            Ok(m) => mac_slot(parser@, option@) == Ok::<Option<Seq<u8>>, OptionParserFailure>(
                opt_mac(m),
            ),
            Err(e) => mac_slot(parser@, option@) == Err::<Option<Seq<u8>>, OptionParserFailure>(
                e@,
            ),
        },
{
    match parser.get(option) {
        None => Ok(None),
        Some(v) => match MacAddr::parse_str(v.as_str()) {
            Some(t) => Ok(Some(t)),
            None => Err(OptionParserError::Conversion(option.to_owned(), v)),
        },
    }
}

impl NetConfig {
    pub const SYNTAX: &'static str = "Network parameters \
    \"tap=<if_name>,ip=<ip_addr>,mask=<net_mask>,mac=<mac_addr>,iommu=on|off,\
    num_queues=<number_of_queues>,queue_size=<size_of_each_queue>,\
    vhost_user=<vhost_user_enable>,socket=<vhost_user_socket_path>,id=<device_id>\"";

    /// The configuration of a device of which nothing is said but its MAC
    /// address, which the caller picks.
    pub fn with_mac(mac: MacAddr) -> (r: Self)
        ensures
            r@ == (NetConfigView {
                tap: None,
                ip: Ipv4Addr(192, 168, 249, 1),
                mask: Ipv4Addr(255, 255, 255, 0),
                mac: mac@,
                host_mac: None,
                iommu: false,
                num_queues: DEFAULT_NUM_QUEUES_VUNET,
                queue_size: DEFAULT_QUEUE_SIZE_VUNET,
                vhost_user: false,
                vhost_socket: None,
                id: None,
            }),
    {
        Self {
            tap: default_netconfig_tap(),
            ip: default_netconfig_ip(),
            mask: default_netconfig_mask(),
            mac,
            host_mac: None,
            iommu: false,
            num_queues: default_netconfig_num_queues(),
            queue_size: default_netconfig_queue_size(),
            vhost_user: false,
            vhost_socket: None,
            id: None,
        }
    }

    /// The options of `--net`.
    pub open spec fn options() -> Seq<OptionSlot> {
        let slots = Seq::empty();
        let slots = with_option(slots, "tap"@, true);
        let slots = with_option(slots, "ip"@, true);
        let slots = with_option(slots, "mask"@, true);
        let slots = with_option(slots, "mac"@, true);
        let slots = with_option(slots, "host_mac"@, true);
        let slots = with_option(slots, "iommu"@, true);
        let slots = with_option(slots, "queue_size"@, true);
        let slots = with_option(slots, "num_queues"@, true);
        let slots = with_option(slots, "vhost_user"@, true);
        let slots = with_option(slots, "socket"@, true);
        let slots = with_option(slots, "id"@, true);
        slots
    }

    /// What `--net` says: the address 192.168.249.1 in a network of 256,
    /// two queues of 256 entries, every switch off, and the MAC address
    /// `default_mac` where nothing else is given. A device has two queues
    /// at least.
    pub open spec fn spec_parse(net: Seq<char>, default_mac: Seq<u8>) -> Result<
        NetConfigView,
        Failure,
    > {
        match parse_options(Self::options(), net) {
            Err(f) => Err(Failure::ParseNetwork(f)),
            Ok(slots) => {
                let ip = or_default(ipv4_slot(slots, "ip"@), Ipv4Addr(192, 168, 249, 1));
                let mask = or_default(ipv4_slot(slots, "mask"@), Ipv4Addr(255, 255, 255, 0));
                let mac = or_default(mac_slot(slots, "mac"@), default_mac);
                let host_mac = mac_slot(slots, "host_mac"@);
                let iommu = or_default(toggle_slot(slots, "iommu"@), false);
                let queue_size = or_default(
                    u16_slot(slots, "queue_size"@),
                    DEFAULT_QUEUE_SIZE_VUNET,
                );
                let num_queues = or_default(
                    usize_slot(slots, "num_queues"@),
                    DEFAULT_NUM_QUEUES_VUNET,
                );
                let vhost_user = or_default(toggle_slot(slots, "vhost_user"@), false);
                if ip is Err {
                    Err(Failure::ParseNetwork(ip->Err_0))
                } else if mask is Err {
                    Err(Failure::ParseNetwork(mask->Err_0))
                } else if mac is Err {
                    Err(Failure::ParseNetwork(mac->Err_0))
                } else if host_mac is Err {
                    Err(Failure::ParseNetwork(host_mac->Err_0))
                } else if iommu is Err {
                    Err(Failure::ParseNetwork(iommu->Err_0))
                } else if queue_size is Err {
                    Err(Failure::ParseNetwork(queue_size->Err_0))
                } else if num_queues is Err {
                    Err(Failure::ParseNetwork(num_queues->Err_0))
                } else if vhost_user is Err {
                    Err(Failure::ParseNetwork(vhost_user->Err_0))
                } else if num_queues->Ok_0 < 2 {
                    Err(Failure::Validation(ValidationError::VnetQueueLowerThan2))
                } else {
                    Ok(
                        NetConfigView {
                            tap: slot_value(slots, "tap"@),
                            ip: ip->Ok_0,
                            mask: mask->Ok_0,
                            mac: mac->Ok_0,
                            host_mac: host_mac->Ok_0,
                            iommu: iommu->Ok_0,
                            num_queues: num_queues->Ok_0,
                            queue_size: queue_size->Ok_0,
                            vhost_user: vhost_user->Ok_0,
                            vhost_socket: slot_value(slots, "socket"@),
                            id: slot_value(slots, "id"@),
                        },
                    )
                }
            },
        }
    }

    /// Reads what `--net` says. `default_mac` is the MAC address of a
    /// device for which the text gives none; the caller picks it.
    pub fn parse(net: &str, default_mac: MacAddr) -> (r: Result<Self, Error>)
        ensures
            parsed(r, Self::spec_parse(net@, default_mac@)),
    {
        let mut parser = OptionParser::new();

        parser.add("tap").add("ip").add("mask").add("mac").add("host_mac").add("iommu").add(
            "queue_size",
        ).add("num_queues").add("vhost_user").add("socket").add("id");
        match parser.parse(net) {
            Ok(_) => {},
            Err(e) => {
                return Err(Error::ParseNetwork(e));
            },
        }

        let tap = parser.get("tap");
        let ip = match convert_ipv4(&parser, "ip") {
            Ok(Some(v)) => v,
            Ok(None) => default_netconfig_ip(),
            Err(e) => {
                return Err(Error::ParseNetwork(e));
            },
        };
        let mask = match convert_ipv4(&parser, "mask") {
            Ok(Some(v)) => v,
            Ok(None) => default_netconfig_mask(),
            Err(e) => {
                return Err(Error::ParseNetwork(e));
            },
        };
        let mac = match convert_mac(&parser, "mac") {
            Ok(Some(v)) => v,
            Ok(None) => default_mac,
            Err(e) => {
                return Err(Error::ParseNetwork(e));
            },
        };
        let host_mac = match convert_mac(&parser, "host_mac") {
            Ok(v) => v,
            Err(e) => {
                return Err(Error::ParseNetwork(e));
            },
        };
        let iommu = match parser.toggle_or("iommu", false) {
            Ok(v) => v,
            Err(e) => {
                return Err(Error::ParseNetwork(e));
            },
        };
        let queue_size: u16 = match parser.u16_or("queue_size", default_netconfig_queue_size()) {
            Ok(v) => v,
            Err(e) => {
                return Err(Error::ParseNetwork(e));
            },
        };
        let num_queues: usize = match parser.usize_or(
            "num_queues",
            default_netconfig_num_queues(),
        ) {
            Ok(v) => v,
            Err(e) => {
                return Err(Error::ParseNetwork(e));
            },
        };
        let vhost_user = match parser.toggle_or("vhost_user", false) {
            Ok(v) => v,
            Err(e) => {
                return Err(Error::ParseNetwork(e));
            },
        };
        let vhost_socket = parser.get("socket");
        let id = parser.get("id");
        let config = NetConfig {
            tap,
            ip,
            mask,
            mac,
            host_mac,
            iommu,
            num_queues,
            queue_size,
            vhost_user,
            vhost_socket,
            id,
        };
        match config.validate() {
            Ok(_) => {},
            Err(e) => {
                return Err(Error::Validation(e));
            },
        }
        Ok(config)
    }

    pub fn validate(&self) -> (r: Result<(), ValidationError>)
        ensures
            r == if self.num_queues < 2 {
                Err::<(), ValidationError>(ValidationError::VnetQueueLowerThan2)
            } else {
                Ok::<(), ValidationError>(())
            },
    {
        if self.num_queues < 2 {
            return Err(ValidationError::VnetQueueLowerThan2);
        }
        Ok(())
    }
}

/// Whether a machine on a PCI bus is described. Without one there is no
/// IOMMU and no device passed through.
pub const PCI_SUPPORT: bool = true;

/// The texts that the command line gives.
pub open spec fn arguments(v: Seq<&str>) -> Seq<Seq<char>> {
    Seq::new(v.len(), |i: int| v[i]@)
}

/// The texts that the command line gives for a part that may be given
/// several times.
pub open spec fn opt_arguments(v: Option<Vec<&str>>) -> Option<Seq<Seq<char>>> {
    match v {
        Some(l) => Some(arguments(l@)),
        None => None,
    }
}

/// The text that the command line gives for a part that may be left out.
pub open spec fn opt_argument(v: Option<&str>) -> Option<Seq<char>> {
    match v {
        Some(s) => Some(s@),
        None => None,
    }
}

/// The command line's arguments as text.
pub struct VmParamsView {
    pub cpus: Seq<char>,
    pub memory: Seq<char>,
    pub kernel: Option<Seq<char>>,
    pub initramfs: Option<Seq<char>>,
    pub cmdline: Option<Seq<char>>,
    pub disks: Option<Seq<Seq<char>>>,
    pub net: Option<Seq<Seq<char>>>,
    pub rng: Seq<char>,
    pub fs: Option<Seq<Seq<char>>>,
    pub pmem: Option<Seq<Seq<char>>>,
    pub serial: Seq<char>,
    pub console: Seq<char>,
    pub devices: Option<Seq<Seq<char>>>,
    pub vsock: Option<Seq<char>>,
    pub sgx_epc: Option<Seq<Seq<char>>>,
}

impl<'a> View for VmParams<'a> {
    type V = VmParamsView;

    open spec fn view(&self) -> VmParamsView {
        VmParamsView {
            cpus: self.cpus@,
            memory: self.memory@,
            kernel: opt_argument(self.kernel),
            initramfs: opt_argument(self.initramfs),
            cmdline: opt_argument(self.cmdline),
            disks: opt_arguments(self.disks),
            net: opt_arguments(self.net),
            rng: self.rng@,
            fs: opt_arguments(self.fs),
            pmem: opt_arguments(self.pmem),
            serial: self.serial@,
            console: self.console@,
            devices: opt_arguments(self.devices),
            vsock: opt_argument(self.vsock),
            sgx_epc: opt_arguments(self.sgx_epc),
        }
    }
}

/// The configurations as values.
pub open spec fn views<C: View>(v: Seq<C>) -> Seq<C::V> {
    Seq::new(v.len(), |i: int| v[i]@)
}

/// The configurations as values, for a part that may be left out.
pub open spec fn opt_views<C: View>(v: Option<Vec<C>>) -> Option<Seq<C::V>> {
    match v {
        Some(l) => Some(views(l@)),
        None => None,
    }
}

#[derive(Clone, Debug, PartialEq, Eq)]
pub struct VmConfig {
    pub cpus: CpusConfig,
    pub memory: MemoryConfig,
    pub kernel: Option<KernelConfig>,
    pub initramfs: Option<InitramfsConfig>,
    pub cmdline: CmdlineConfig,
    pub disks: Option<Vec<DiskConfig>>,
    pub net: Option<Vec<NetConfig>>,
    pub rng: RngConfig,
    pub fs: Option<Vec<FsConfig>>,
    pub pmem: Option<Vec<PmemConfig>>,
    pub serial: ConsoleConfig,
    pub console: ConsoleConfig,
    pub devices: Option<Vec<DeviceConfig>>,
    pub vsock: Option<VsockConfig>,
    pub iommu: bool,
    pub sgx_epc: Option<Vec<SgxEpcConfig>>,
}

/// A `VmConfig` with its texts as text.
pub struct VmConfigView {
    pub cpus: CpusConfig,
    pub memory: MemoryConfigView,
    pub kernel: Option<Seq<char>>,
    pub initramfs: Option<Seq<char>>,
    pub cmdline: Seq<char>,
    pub disks: Option<Seq<DiskConfigView>>,
    pub net: Option<Seq<NetConfigView>>,
    pub rng: RngConfigView,
    pub fs: Option<Seq<FsConfigView>>,
    pub pmem: Option<Seq<PmemConfigView>>,
    pub serial: ConsoleConfigView,
    pub console: ConsoleConfigView,
    pub devices: Option<Seq<DeviceConfigView>>,
    pub vsock: Option<VsockConfigView>,
    pub iommu: bool,
    pub sgx_epc: Option<Seq<SgxEpcConfigView>>,
}

impl View for VmConfig {
    type V = VmConfigView;

    open spec fn view(&self) -> VmConfigView {
        VmConfigView {
            cpus: self.cpus,
            memory: self.memory@,
            kernel: match self.kernel {
                Some(k) => Some(k.path@),
                None => None,
            },
            initramfs: match self.initramfs {
                Some(k) => Some(k.path@),
                None => None,
            },
            cmdline: self.cmdline.args@,
            disks: opt_views(self.disks),
            net: opt_views(self.net),
            rng: self.rng@,
            fs: opt_views(self.fs),
            pmem: opt_views(self.pmem),
            serial: self.serial@,
            console: self.console@,
            devices: opt_views(self.devices),
            vsock: match self.vsock {
                Some(v) => Some(v@),
                None => None,
            },
            iommu: self.iommu,
            sgx_epc: opt_views(self.sgx_epc),
        }
    }
}

/// What is wrong with a disk in a machine whose memory is shared or not.
pub open spec fn disk_fault(disk: DiskConfigView, shared: bool) -> Option<ValidationError> {
    if disk.vhost_socket is Some && disk.path is Some {
        Some(ValidationError::DiskSocketAndPath)
    } else if disk.vhost_user && !shared {
        Some(ValidationError::VhostUserRequiresSharedMemory)
    } else {
        None
    }
}

/// What is wrong with the first disk with which something is wrong.
pub open spec fn disks_fault(disks: Seq<DiskConfigView>, shared: bool) -> Option<ValidationError>
    decreases disks.len(),
{
    if disks.len() == 0 {
        None
    } else {
        match disks_fault(disks.drop_last(), shared) {
            Some(e) => Some(e),
            None => disk_fault(disks.last(), shared),
        }
    }
}

/// Whether a network device speaks vhost-user in a machine whose memory
/// is not shared.
pub open spec fn nets_fault(nets: Seq<NetConfigView>, shared: bool) -> bool {
    exists|i: int| 0 <= i < nets.len() && (#[trigger] nets[i]).vhost_user && !shared
}

/// What is wrong with a topology for `max_vcpus` processors: a part that
/// is zero, or a product of the parts that is another number.
pub open spec fn topology_fault(t: CpuTopology, max_vcpus: u8) -> Option<ValidationError> {
    if t.threads_per_core == 0 || t.cores_per_die == 0 || t.dies_per_package == 0 || t.packages
        == 0 {
        Some(ValidationError::CpuTopologyZeroPart)
    } else if t.threads_per_core * t.cores_per_die * t.dies_per_package * t.packages
        != max_vcpus {
        Some(ValidationError::CpuTopologyCount)
    } else {
        None
    }
}

/// What is wrong with a configuration, if anything: the first of the
/// faults in the order of the checks.
pub open spec fn fault_of(c: VmConfigView) -> Option<ValidationError> {
    if c.kernel is None {
        Some(ValidationError::KernelMissing)
    } else if c.console.mode == ConsoleOutputMode::Tty && c.serial.mode == ConsoleOutputMode::Tty {
        Some(ValidationError::DoubleTtyMode)
    } else if c.console.mode == ConsoleOutputMode::File && c.console.file is None {
        Some(ValidationError::ConsoleFileMissing)
    } else if c.serial.mode == ConsoleOutputMode::File && c.serial.file is None {
        Some(ValidationError::ConsoleFileMissing)
    } else if c.cpus.max_vcpus < c.cpus.boot_vcpus {
        Some(ValidationError::CpusMaxLowerThanBoot)
    } else if c.disks is Some && disks_fault(c.disks->0, c.memory.shared) is Some {
        disks_fault(c.disks->0, c.memory.shared)
    } else if c.net is Some && nets_fault(c.net->0, c.memory.shared) {
        Some(ValidationError::VhostUserRequiresSharedMemory)
    } else if c.fs is Some && c.fs->0.len() > 0 && !c.memory.shared {
        Some(ValidationError::VhostUserRequiresSharedMemory)
    } else if !PCI_SUPPORT && c.iommu {
        Some(ValidationError::IommuUnsupported)
    } else if !PCI_SUPPORT && c.devices is Some {
        Some(ValidationError::VfioUnsupported)
    } else if c.cpus.topology is Some {
        topology_fault(c.cpus.topology->0, c.cpus.max_vcpus)
    } else {
        None
    }
}

/// The fault of the first disk lasts whatever disks follow.
pub proof fn lemma_disks_fault_lasts(disks: Seq<DiskConfigView>, shared: bool, k: int)
    requires
        0 <= k <= disks.len(),
        disks_fault(disks.take(k), shared) is Some,
    ensures
        disks_fault(disks, shared) == disks_fault(disks.take(k), shared),
    decreases disks.len() - k,
{
    if k == disks.len() {
        assert(disks.take(k) =~= disks);
    } else {
        let rest = disks.drop_last();
        assert(rest.take(k) =~= disks.take(k));
        lemma_disks_fault_lasts(rest, shared, k);
    }
}

/// A part of the machine that the command line describes by options and
/// may describe several times.
pub trait ParseOption: View + Sized {
    /// What the options say.
    spec fn spec_parse_option(text: Seq<char>) -> Result<Self::V, Failure>;

    /// Whether the part sits behind the IOMMU.
    spec fn spec_behind_iommu(v: Self::V) -> bool;

    /// Reads the options.
    fn parse_option(text: &str) -> (r: Result<Self, Error>)
        ensures
            parsed(r, Self::spec_parse_option(text@)),
    ;

    /// Whether the part sits behind the IOMMU.
    fn behind_iommu(&self) -> (r: bool)
        ensures
            r == Self::spec_behind_iommu(self@),
    ;
}

impl ParseOption for DiskConfig {
    open spec fn spec_parse_option(text: Seq<char>) -> Result<DiskConfigView, Failure> {
        DiskConfig::spec_parse(text)
    }

    open spec fn spec_behind_iommu(v: DiskConfigView) -> bool {
        v.iommu
    }

    fn parse_option(text: &str) -> (r: Result<Self, Error>) {
        DiskConfig::parse(text)
    }

    fn behind_iommu(&self) -> (r: bool) {
        self.iommu
    }
}

impl ParseOption for FsConfig {
    open spec fn spec_parse_option(text: Seq<char>) -> Result<FsConfigView, Failure> {
        FsConfig::spec_parse(text)
    }

    open spec fn spec_behind_iommu(v: FsConfigView) -> bool {
        false
    }

    fn parse_option(text: &str) -> (r: Result<Self, Error>) {
        FsConfig::parse(text)
    }

    fn behind_iommu(&self) -> (r: bool) {
        false
    }
}

impl ParseOption for PmemConfig {
    open spec fn spec_parse_option(text: Seq<char>) -> Result<PmemConfigView, Failure> {
        PmemConfig::spec_parse(text)
    }

    open spec fn spec_behind_iommu(v: PmemConfigView) -> bool {
        v.iommu
    }

    fn parse_option(text: &str) -> (r: Result<Self, Error>) {
        PmemConfig::parse(text)
    }

    fn behind_iommu(&self) -> (r: bool) {
        self.iommu
    }
}

impl ParseOption for DeviceConfig {
    open spec fn spec_parse_option(text: Seq<char>) -> Result<DeviceConfigView, Failure> {
        DeviceConfig::spec_parse(text)
    }

    open spec fn spec_behind_iommu(v: DeviceConfigView) -> bool {
        v.iommu
    }

    fn parse_option(text: &str) -> (r: Result<Self, Error>) {
        DeviceConfig::parse(text)
    }

    fn behind_iommu(&self) -> (r: bool) {
        self.iommu
    }
}

impl ParseOption for SgxEpcConfig {
    open spec fn spec_parse_option(text: Seq<char>) -> Result<SgxEpcConfigView, Failure> {
        SgxEpcConfig::spec_parse(text)
    }

    open spec fn spec_behind_iommu(v: SgxEpcConfigView) -> bool {
        false
    }

    fn parse_option(text: &str) -> (r: Result<Self, Error>) {
        SgxEpcConfig::parse(text)
    }

    fn behind_iommu(&self) -> (r: bool) {
        false
    }
}

/// What the options of each of `items` say, in their order, up to the
/// first that fails.
pub open spec fn parse_each<C: ParseOption>(items: Seq<Seq<char>>) -> Result<Seq<C::V>, Failure>
    decreases items.len(),
{
    if items.len() == 0 {
        Ok(Seq::empty())
    } else {
        match parse_each::<C>(items.drop_last()) {
            Err(e) => Err(e),
            Ok(done) => match C::spec_parse_option(items.last()) {
                Ok(v) => Ok(done.push(v)),
                Err(e) => Err(e),
            },
        }
    }
}

/// What the options of each network device say; device `i` has the MAC
/// address `macs[i]` where its options give none.
pub open spec fn parse_each_net(items: Seq<Seq<char>>, macs: Seq<Seq<u8>>) -> Result<
    Seq<NetConfigView>,
    Failure,
>
    decreases items.len(),
{
    if items.len() == 0 {
        Ok(Seq::empty())
    } else {
        match parse_each_net(items.drop_last(), macs) {
            Err(e) => Err(e),
            Ok(done) => match NetConfig::spec_parse(items.last(), macs[items.len() - 1]) {
                Ok(v) => Ok(done.push(v)),
                Err(e) => Err(e),
            },
        }
    }
}

/// Whether one of the parts sits behind the IOMMU.
pub open spec fn any_behind_iommu<C: ParseOption>(parts: Seq<C::V>) -> bool {
    exists|i: int| 0 <= i < parts.len() && C::spec_behind_iommu(#[trigger] parts[i])
}

/// Whether one of the network devices sits behind the IOMMU.
pub open spec fn any_net_behind_iommu(nets: Seq<NetConfigView>) -> bool {
    exists|i: int| 0 <= i < nets.len() && (#[trigger] nets[i]).iommu
}

/// A failure at some item is the failure of all the items.
pub proof fn lemma_parse_each_fails<C: ParseOption>(items: Seq<Seq<char>>, k: int)
    requires
        0 <= k <= items.len(),
        parse_each::<C>(items.take(k)) is Err,
    ensures
        parse_each::<C>(items) == parse_each::<C>(items.take(k)),
    decreases items.len() - k,
{
    if k == items.len() {
        assert(items.take(k) =~= items);
    } else {
        let rest = items.drop_last();
        assert(rest.take(k) =~= items.take(k));
        lemma_parse_each_fails::<C>(rest, k);
    }
}

/// A failure at some network device is the failure of all of them.
pub proof fn lemma_parse_each_net_fails(items: Seq<Seq<char>>, macs: Seq<Seq<u8>>, k: int)
    requires
        0 <= k <= items.len(),
        parse_each_net(items.take(k), macs) is Err,
    ensures
        parse_each_net(items, macs) == parse_each_net(items.take(k), macs),
    decreases items.len() - k,
{
    if k == items.len() {
        assert(items.take(k) =~= items);
    } else {
        let rest = items.drop_last();
        assert(rest.take(k) =~= items.take(k));
        lemma_parse_each_net_fails(rest, macs, k);
    }
}

/// Reads the options of each of `items`.
pub fn parse_list<C: ParseOption>(items: &Vec<&str>) -> (r: Result<Vec<C>, Error>)
    ensures
        match r {
            Ok(v) => parse_each::<C>(arguments(items@)) == Ok::<Seq<C::V>, Failure>(views(v@)),
            Err(e) => parse_each::<C>(arguments(items@)) == Err::<Seq<C::V>, Failure>(e@),
        },
{
    let mut list: Vec<C> = Vec::new();
    let ghost texts = arguments(items@);
    let mut i: usize = 0;
    assert(texts.take(0) =~= Seq::<Seq<char>>::empty());
    assert(views(list@) =~= Seq::<C::V>::empty());
    while i < items.len()
        invariant
            i <= items@.len(),
            texts == arguments(items@),
            parse_each::<C>(texts.take(i as int)) == Ok::<Seq<C::V>, Failure>(views(list@)),
        decreases items@.len() - i,
    {
        assert(texts.take(i + 1).drop_last() =~= texts.take(i as int));
        assert(texts.take(i + 1).last() == items@[i as int]@);
        let ghost done = views(list@);
        match C::parse_option(items[i]) {
            Ok(c) => {
                list.push(c);
                assert(views(list@) =~= done.push(c@));
            },
            Err(e) => {
                proof {
                    assert(parse_each::<C>(texts.take(i + 1)) == Err::<Seq<C::V>, Failure>(e@));
                    lemma_parse_each_fails::<C>(texts, i + 1);
                }
                return Err(e);
            },
        }
        i += 1;
    }
    assert(texts.take(i as int) =~= texts);
    Ok(list)
}

/// Reads the options of each network device; device `i` has the MAC
/// address `default_macs[i]` where its options give none.
pub fn parse_net_list(items: &Vec<&str>, default_macs: &Vec<MacAddr>) -> (r: Result<
    Vec<NetConfig>,
    Error,
>)
    requires
        default_macs@.len() >= items@.len(),
    ensures
        match r {
            Ok(v) => parse_each_net(arguments(items@), views(default_macs@)) == Ok::<
                Seq<NetConfigView>,
                Failure,
            >(views(v@)),
            Err(e) => parse_each_net(arguments(items@), views(default_macs@)) == Err::<
                Seq<NetConfigView>,
                Failure,
            >(e@),
        },
{
    let mut list: Vec<NetConfig> = Vec::new();
    let ghost texts = arguments(items@);
    let ghost macs = views(default_macs@);
    let mut i: usize = 0;
    assert(texts.take(0) =~= Seq::<Seq<char>>::empty());
    assert(views(list@) =~= Seq::<NetConfigView>::empty());
    while i < items.len()
        invariant
            i <= items@.len() <= default_macs@.len(),
            texts == arguments(items@),
            macs == views(default_macs@),
            parse_each_net(texts.take(i as int), macs) == Ok::<Seq<NetConfigView>, Failure>(
                views(list@),
            ),
        decreases items@.len() - i,
    {
        assert(texts.take(i + 1).drop_last() =~= texts.take(i as int));
        assert(texts.take(i + 1).last() == items@[i as int]@);
        assert(macs[i as int] == default_macs@[i as int]@);
        let ghost done = views(list@);
        match NetConfig::parse(items[i], default_macs[i]) {
            Ok(c) => {
                list.push(c);
                assert(views(list@) =~= done.push(c@));
            },
            Err(e) => {
                proof {
                    assert(parse_each_net(texts.take(i + 1), macs) == Err::<
                        Seq<NetConfigView>,
                        Failure,
                    >(e@));
                    lemma_parse_each_net_fails(texts, macs, i + 1);
                }
                return Err(e);
            },
        }
        i += 1;
    }
    assert(texts.take(i as int) =~= texts);
    Ok(list)
}

/// Whether one of the parts sits behind the IOMMU.
pub fn list_behind_iommu<C: ParseOption>(parts: &Vec<C>) -> (r: bool)
    ensures
        r == any_behind_iommu::<C>(views(parts@)),
{
    let mut i: usize = 0;
    while i < parts.len()
        invariant
            i <= parts@.len(),
            forall|j: int| 0 <= j < i ==> !C::spec_behind_iommu(#[trigger] views(parts@)[j]),
        decreases parts@.len() - i,
    {
        if parts[i].behind_iommu() {
            assert(C::spec_behind_iommu(views(parts@)[i as int]));
            return true;
        }
        i += 1;
    }
    false
}

/// Whether one of the network devices sits behind the IOMMU.
pub fn nets_behind_iommu(nets: &Vec<NetConfig>) -> (r: bool)
    ensures
        r == any_net_behind_iommu(views(nets@)),
{
    let mut i: usize = 0;
    while i < nets.len()
        invariant
            i <= nets@.len(),
            forall|j: int| 0 <= j < i ==> !(#[trigger] views(nets@)[j]).iommu,
        decreases nets@.len() - i,
    {
        if nets[i].iommu {
            assert(views(nets@)[i as int].iommu);
            return true;
        }
        i += 1;
    }
    false
}

/// What the options of each of `items` say, for a part that may be left
/// out.
pub open spec fn opt_each<C: ParseOption>(items: Option<Seq<Seq<char>>>) -> Result<
    Option<Seq<C::V>>,
    Failure,
> {
    match items {
        None => Ok(None),
        Some(l) => match parse_each::<C>(l) {
            Ok(v) => Ok(Some(v)),
            Err(e) => Err(e),
        },
    }
}

/// What the options of each network device say, if there are any.
pub open spec fn opt_each_net(items: Option<Seq<Seq<char>>>, macs: Seq<Seq<u8>>) -> Result<
    Option<Seq<NetConfigView>>,
    Failure,
> {
    match items {
        None => Ok(None),
        Some(l) => match parse_each_net(l, macs) {
            Ok(v) => Ok(Some(v)),
            Err(e) => Err(e),
        },
    }
}

/// What the options of the vsock device say, if there is one.
pub open spec fn opt_vsock(text: Option<Seq<char>>) -> Result<Option<VsockConfigView>, Failure> {
    match text {
        None => Ok(None),
        Some(t) => match VsockConfig::spec_parse(t) {
            Ok(v) => Ok(Some(v)),
            Err(e) => Err(e),
        },
    }
}

/// Whether one of the parts, if there are any, sits behind the IOMMU.
pub open spec fn opt_behind_iommu<C: ParseOption>(parts: Option<Seq<C::V>>) -> bool {
    parts is Some && any_behind_iommu::<C>(parts->0)
}

/// Reads the options of each of `items`, if there are any.
pub fn parse_opt_list<C: ParseOption>(items: &Option<Vec<&str>>) -> (r: Result<
    Option<Vec<C>>,
    Error,
>)
    ensures
        match r {
            Ok(v) => opt_each::<C>(opt_arguments(*items)) == Ok::<Option<Seq<C::V>>, Failure>(
                opt_views(v),
            ),
            Err(e) => opt_each::<C>(opt_arguments(*items)) == Err::<Option<Seq<C::V>>, Failure>(
                e@,
            ),
        },
{
    match items {
        None => Ok(None),
        Some(l) => match parse_list::<C>(l) {
            Ok(v) => Ok(Some(v)),
            Err(e) => Err(e),
        },
    }
}

/// Whether one of the parts, if there are any, sits behind the IOMMU.
pub fn opt_list_behind_iommu<C: ParseOption>(parts: &Option<Vec<C>>) -> (r: bool)
    ensures
        r == opt_behind_iommu::<C>(opt_views(*parts)),
{
    match parts {
        Some(l) => list_behind_iommu(l),
        None => false,
    }
}

impl VmConfig {
    /// What is wrong with the configuration, if anything.
    pub open spec fn fault(&self) -> Option<ValidationError> {
        fault_of(self@)
    }

    /// Whether the machine that the parts make up has an IOMMU: it has
    /// one where a disk, a network device, the random number generator, a
    /// persistent memory, the console, a device passed through or the
    /// vsock device sits behind one.
    pub open spec fn needs_iommu(
        disks: Option<Seq<DiskConfigView>>,
        net: Option<Seq<NetConfigView>>,
        rng: RngConfigView,
        pmem: Option<Seq<PmemConfigView>>,
        console: ConsoleConfigView,
        devices: Option<Seq<DeviceConfigView>>,
        vsock: Option<VsockConfigView>,
    ) -> bool {
        opt_behind_iommu::<DiskConfig>(disks) || (net is Some && any_net_behind_iommu(net->0))
            || rng.iommu || opt_behind_iommu::<PmemConfig>(pmem) || console.iommu
            || opt_behind_iommu::<DeviceConfig>(devices) || (vsock is Some && vsock->0.iommu)
    }

    /// The machine that the command line describes. The parts are read in
    /// the order disks, network devices, random number generator, file
    /// systems, persistent memories, console, serial port, devices passed
    /// through, vsock device, SGX sections, processors, memory; the first
    /// part that fails is the failure of the whole. What has been read
    /// must then be a valid configuration.
    pub open spec fn spec_parse(p: VmParamsView, macs: Seq<Seq<u8>>) -> Result<
        VmConfigView,
        Failure,
    > {
        let disks = opt_each::<DiskConfig>(p.disks);
        let net = opt_each_net(p.net, macs);
        let rng = RngConfig::spec_parse(p.rng);
        let fs = opt_each::<FsConfig>(p.fs);
        let pmem = opt_each::<PmemConfig>(p.pmem);
        let console = ConsoleConfig::spec_parse(p.console);
        let serial = ConsoleConfig::spec_parse(p.serial);
        let devices = opt_each::<DeviceConfig>(p.devices);
        let vsock = opt_vsock(p.vsock);
        let sgx_epc = opt_each::<SgxEpcConfig>(p.sgx_epc);
        let cpus = CpusConfig::spec_parse(p.cpus);
        let memory = MemoryConfig::spec_parse(p.memory);
        if disks is Err {
            Err(disks->Err_0)
        } else if net is Err {
            Err(net->Err_0)
        } else if rng is Err {
            Err(rng->Err_0)
        } else if fs is Err {
            Err(fs->Err_0)
        } else if pmem is Err {
            Err(pmem->Err_0)
        } else if console is Err {
            Err(console->Err_0)
        } else if serial is Err {
            Err(serial->Err_0)
        } else if devices is Err {
            Err(devices->Err_0)
        } else if vsock is Err {
            Err(vsock->Err_0)
        } else if sgx_epc is Err {
            Err(sgx_epc->Err_0)
        } else if cpus is Err {
            Err(cpus->Err_0)
        } else if memory is Err {
            Err(memory->Err_0)
        } else {
            let config = VmConfigView {
                cpus: cpus->Ok_0,
                memory: memory->Ok_0,
                kernel: p.kernel,
                initramfs: p.initramfs,
                cmdline: match p.cmdline {
                    Some(s) => s,
                    None => Seq::empty(),
                },
                disks: disks->Ok_0,
                net: net->Ok_0,
                rng: rng->Ok_0,
                fs: fs->Ok_0,
                pmem: pmem->Ok_0,
                serial: serial->Ok_0,
                console: console->Ok_0,
                devices: devices->Ok_0,
                vsock: vsock->Ok_0,
                iommu: Self::needs_iommu(
                    disks->Ok_0,
                    net->Ok_0,
                    rng->Ok_0,
                    pmem->Ok_0,
                    console->Ok_0,
                    devices->Ok_0,
                    vsock->Ok_0,
                ),
                sgx_epc: sgx_epc->Ok_0,
            };
            match fault_of(config) {
                Some(e) => Err(Failure::Validation(e)),
                None => Ok(config),
            }
        }
    }

    /// Reads the machine that the command line describes. Network device
    /// `i` has the MAC address `default_macs[i]` where its options give
    /// none; the caller picks one for each device.
    pub fn parse(vm_params: VmParams, default_macs: &Vec<MacAddr>) -> (r: Result<Self, Error>)
        requires
            vm_params.net matches Some(l) ==> default_macs@.len() >= l@.len(),
        ensures
            parsed(r, Self::spec_parse(vm_params@, views(default_macs@))),
    {
        let disks = match parse_opt_list::<DiskConfig>(&vm_params.disks) {
            Ok(v) => v,
            Err(e) => {
                return Err(e);
            },
        };

        let net: Option<Vec<NetConfig>> = match &vm_params.net {
            None => None,
            Some(net_list) => match parse_net_list(net_list, default_macs) {
                Ok(v) => Some(v),
                Err(e) => {
                    return Err(e);
                },
            },
        };

        let rng = match RngConfig::parse(vm_params.rng) {
            Ok(v) => v,
            Err(e) => {
                return Err(e);
            },
        };

        let fs = match parse_opt_list::<FsConfig>(&vm_params.fs) {
            Ok(v) => v,
            Err(e) => {
                return Err(e);
            },
        };

        let pmem = match parse_opt_list::<PmemConfig>(&vm_params.pmem) {
            Ok(v) => v,
            Err(e) => {
                return Err(e);
            },
        };

        let console = match ConsoleConfig::parse(vm_params.console) {
            Ok(v) => v,
            Err(e) => {
                return Err(e);
            },
        };
        let serial = match ConsoleConfig::parse(vm_params.serial) {
            Ok(v) => v,
            Err(e) => {
                return Err(e);
            },
        };

        let devices = match parse_opt_list::<DeviceConfig>(&vm_params.devices) {
            Ok(v) => v,
            Err(e) => {
                return Err(e);
            },
        };

        let vsock: Option<VsockConfig> = match vm_params.vsock {
            None => None,
            Some(vs) => match VsockConfig::parse(vs) {
                Ok(v) => Some(v),
                Err(e) => {
                    return Err(e);
                },
            },
        };

        let sgx_epc = match parse_opt_list::<SgxEpcConfig>(&vm_params.sgx_epc) {
            Ok(v) => v,
            Err(e) => {
                return Err(e);
            },
        };

        let iommu = opt_list_behind_iommu(&disks) || (match &net {
            Some(l) => nets_behind_iommu(l),
            None => false,
        }) || rng.iommu || opt_list_behind_iommu(&pmem) || console.iommu || opt_list_behind_iommu(
            &devices,
        ) || (match &vsock {
            Some(v) => v.iommu,
            None => false,
        });

        let kernel: Option<KernelConfig> = match vm_params.kernel {
            Some(k) => Some(KernelConfig { path: k.to_owned() }),
            None => None,
        };

        let initramfs: Option<InitramfsConfig> = match vm_params.initramfs {
            Some(k) => Some(InitramfsConfig { path: k.to_owned() }),
            None => None,
        };

        let cpus = match CpusConfig::parse(vm_params.cpus) {
            Ok(v) => v,
            Err(e) => {
                return Err(e);
            },
        };
        let memory = match MemoryConfig::parse(vm_params.memory) {
            Ok(v) => v,
            Err(e) => {
                return Err(e);
            },
        };
        let cmdline = match CmdlineConfig::parse(vm_params.cmdline) {
            Ok(v) => v,
            Err(e) => {
                return Err(e);
            },
        };

        let config = VmConfig {
            cpus,
            memory,
            kernel,
            initramfs,
            cmdline,
            disks,
            net,
            rng,
            fs,
            pmem,
            serial,
            console,
            devices,
            vsock,
            iommu,
            sgx_epc,
        };
        match config.validate() {
            Ok(_) => {},
            Err(e) => {
                return Err(Error::Validation(e));
            },
        }
        Ok(config)
    }

    #[verifier::loop_isolation(false)]
    pub fn validate(&self) -> (r: Result<(), ValidationError>)
        ensures
            r == match self.fault() {
                Some(e) => Err::<(), ValidationError>(e),
                None => Ok::<(), ValidationError>(()),
            },
    {
        if self.kernel.is_none() {
            return Err(ValidationError::KernelMissing);
        }
        if mode_is(&self.console.mode, ConsoleOutputMode::Tty) && mode_is(
            &self.serial.mode,
            ConsoleOutputMode::Tty,
        ) {
            return Err(ValidationError::DoubleTtyMode);
        }
        if mode_is(&self.console.mode, ConsoleOutputMode::File) && self.console.file.is_none() {
            return Err(ValidationError::ConsoleFileMissing);
        }
        if mode_is(&self.serial.mode, ConsoleOutputMode::File) && self.serial.file.is_none() {
            return Err(ValidationError::ConsoleFileMissing);
        }
        if self.cpus.max_vcpus < self.cpus.boot_vcpus {
            return Err(ValidationError::CpusMaxLowerThanBoot);
        }
        if let Some(disks) = &self.disks {
            let ghost all = views(disks@);
            let mut i: usize = 0;
            assert(all.take(0) =~= Seq::<DiskConfigView>::empty());
            while i < disks.len()
                invariant
                    i <= disks@.len(),
                    disks_fault(all.take(i as int), self.memory.shared) is None,
                decreases disks@.len() - i,
            {
                assert(all.take(i + 1).drop_last() =~= all.take(i as int));
                assert(all.take(i + 1).last() == disks@[i as int]@);
                let disk = &disks[i];
                if disk.vhost_socket.is_some() && disk.path.is_some() {
                    proof {
                        lemma_disks_fault_lasts(all, self.memory.shared, i + 1);
                    }
                    return Err(ValidationError::DiskSocketAndPath);
                }
                if disk.vhost_user && !self.memory.shared {
                    proof {
                        lemma_disks_fault_lasts(all, self.memory.shared, i + 1);
                    }
                    return Err(ValidationError::VhostUserRequiresSharedMemory);
                }
                i += 1;
            }
            assert(all.take(i as int) =~= all);
        }
        if let Some(nets) = &self.net {
            let mut i: usize = 0;
            while i < nets.len()
                invariant
                    i <= nets@.len(),
                    forall|j: int|
                        0 <= j < i ==> !((#[trigger] views(nets@)[j]).vhost_user
                            && !self.memory.shared),
                decreases nets@.len() - i,
            {
                if nets[i].vhost_user && !self.memory.shared {
                    assert(views(nets@)[i as int].vhost_user);
                    return Err(ValidationError::VhostUserRequiresSharedMemory);
                }
                i += 1;
            }
        }
        if let Some(fses) = &self.fs {
            if fses.len() > 0 && !self.memory.shared {
                return Err(ValidationError::VhostUserRequiresSharedMemory);
            }
        }
        if !PCI_SUPPORT {
            if self.iommu {
                return Err(ValidationError::IommuUnsupported);
            }
            if self.devices.is_some() {
                return Err(ValidationError::VfioUnsupported);
            }
        }
        if let Some(t) = &self.cpus.topology {
            if t.threads_per_core == 0 || t.cores_per_die == 0 || t.dies_per_package == 0
                || t.packages == 0 {
                return Err(ValidationError::CpuTopologyZeroPart);
            }
            let threads: u32 = t.threads_per_core as u32;
            let cores: u32 = t.cores_per_die as u32;
            let dies: u32 = t.dies_per_package as u32;
            let packages: u32 = t.packages as u32;
            assert(threads * cores <= 255 * 255 && threads * cores * dies <= 255 * 255 * 255
                && threads * cores * dies * packages <= 255 * 255 * 255 * 255)
                by (nonlinear_arith)
                requires
                    threads <= 255,
                    cores <= 255,
                    dies <= 255,
                    packages <= 255,
            ;
            let total: u32 = threads * cores * dies * packages;
            if total != self.cpus.max_vcpus as u32 {
                return Err(ValidationError::CpuTopologyCount);
            }
        }
        Ok(())
    }
}

/// Whether two modes are the same.
fn mode_is(mode: &ConsoleOutputMode, other: ConsoleOutputMode) -> (r: bool)
    ensures
        r == (*mode == other),
{
    match (mode, other) {
        (ConsoleOutputMode::Off, ConsoleOutputMode::Off) => true,
        (ConsoleOutputMode::Tty, ConsoleOutputMode::Tty) => true,
        (ConsoleOutputMode::File, ConsoleOutputMode::File) => true,
        (ConsoleOutputMode::Null, ConsoleOutputMode::Null) => true,
        _ => false,
    }
}

} // verus!
