//! The unified error type: a closed set of variants, one per
//! failure-producing subsystem, each wrapping its cause unchanged.

use vstd::prelude::*;
use vstd::string::StringExecFns;

verus! {

/// Why a BMP frame could not be parsed.
pub enum BmpParseCause {
    /// The image uses an unsupported bit depth.
    UnsupportedBpp(u16),
    /// Unexpected end of file.
    UnexpectedEndOfFile,
    /// The file does not begin with the two signature bytes `BM`.
    InvalidFileSignature(u8, u8),
    /// Unsupported compression method.
    UnsupportedCompressionMethod(u32),
    /// Unsupported header length.
    UnsupportedHeaderLength(u32),
    /// Unsupported channel masks.
    UnsupportedChannelMasks,
    /// Invalid image dimensions.
    InvalidImageDimensions,
}

/// A display interface failure.
pub enum DisplayCause {
    /// Invalid data format selected for the interface.
    InvalidFormatError,
    /// Unable to write to the bus.
    BusWriteError,
    /// Unable to drive the data/command switching signal.
    DCError,
    /// Unable to drive the chip select signal.
    CSError,
    /// The requested data format is not implemented.
    DataFormatNotImplemented,
    /// Unable to drive the reset signal.
    RSError,
    /// A write outside the display's bounds was attempted.
    OutOfBoundsError,
}

/// A DMA buffer could not be set up.
pub enum DmaBufCause {
    /// Not enough transfer descriptors for the buffer.
    InsufficientDescriptors,
    /// The buffer lies in a memory region DMA cannot reach.
    UnsupportedMemoryRegion,
    /// The buffer is not aligned as the transfer requires.
    InvalidAlignment,
    /// The chunk size is out of the supported range.
    InvalidChunkSize,
}

/// The serial bus master rejected its configuration.
pub enum MasterConfigCause {
    /// The requested bus frequency cannot be reached.
    UnsupportedFrequency,
    /// The requested transfer mode is not available.
    UnsupportedMode,
}

/// A background task could not be spawned.
pub enum SpawnCause {
    /// Too many instances of the task are already running.
    Busy,
}

/// The unified error. Exactly one variant is active; the wrapped cause is
/// kept unchanged, so no information is lost by the conversion in.
pub enum Error {
    /// An ad-hoc message with no structured cause.
    AdHoc(String),
    /// A BMP frame could not be parsed.
    BmpParse(BmpParseCause),
    /// The display interface failed.
    Display(DisplayCause),
    /// A DMA buffer could not be set up.
    DmaBuf(DmaBufCause),
    /// The serial bus master rejected its configuration.
    Master(MasterConfigCause),
    /// A background task could not be spawned.
    Spawn(SpawnCause),
}

/// The message for a display interface failure: the variant's name.
pub open spec fn display_text(c: DisplayCause) -> Seq<char> {
    match c {
        DisplayCause::InvalidFormatError => "InvalidFormatError"@,
        DisplayCause::BusWriteError => "BusWriteError"@,
        DisplayCause::DCError => "DCError"@,
        DisplayCause::CSError => "CSError"@,
        DisplayCause::DataFormatNotImplemented => "DataFormatNotImplemented"@,
        DisplayCause::RSError => "RSError"@,
        DisplayCause::OutOfBoundsError => "OutOfBoundsError"@,
    }
}

/// The message for a DMA buffer failure: the variant's name.
pub open spec fn dma_buf_text(c: DmaBufCause) -> Seq<char> {
    match c {
        DmaBufCause::InsufficientDescriptors => "InsufficientDescriptors"@,
        DmaBufCause::UnsupportedMemoryRegion => "UnsupportedMemoryRegion"@,
        DmaBufCause::InvalidAlignment => "InvalidAlignment"@,
        DmaBufCause::InvalidChunkSize => "InvalidChunkSize"@,
    }
}

/// The message for a bus configuration failure: the variant's name.
pub open spec fn master_text(c: MasterConfigCause) -> Seq<char> {
    match c {
        MasterConfigCause::UnsupportedFrequency => "UnsupportedFrequency"@,
        MasterConfigCause::UnsupportedMode => "UnsupportedMode"@,
    }
}

/// The message for a spawn failure: the variant's name.
pub open spec fn spawn_text(c: SpawnCause) -> Seq<char> {
    match c {
        SpawnCause::Busy => "Busy"@,
    }
}

/// The rendering of an error: a per-variant message template, with the
/// wrapped cause interpolated where it has a message of its own.
pub open spec fn error_text(e: Error) -> Seq<char> {
    match e {
        Error::AdHoc(m) => "ad-hoc error: "@ + m@,
        Error::BmpParse(_) => "BMP parse error!"@,
        Error::Display(c) => "display error: "@ + display_text(c),
        Error::DmaBuf(c) => "DMA buffer error: "@ + dma_buf_text(c),
        Error::Master(c) => "SPI master config failed: "@ + master_text(c),
        Error::Spawn(c) => "task spawn failed: "@ + spawn_text(c),
    }
}

fn display_str(c: &DisplayCause) -> (s: &'static str)
    ensures
        s@ == display_text(*c),
{
    match c {
        DisplayCause::InvalidFormatError => "InvalidFormatError",
        DisplayCause::BusWriteError => "BusWriteError",
        DisplayCause::DCError => "DCError",
        DisplayCause::CSError => "CSError",
        DisplayCause::DataFormatNotImplemented => "DataFormatNotImplemented",
        DisplayCause::RSError => "RSError",
        DisplayCause::OutOfBoundsError => "OutOfBoundsError",
    }
}

fn dma_buf_str(c: &DmaBufCause) -> (s: &'static str)
    ensures
        s@ == dma_buf_text(*c),
{
    match c {
        DmaBufCause::InsufficientDescriptors => "InsufficientDescriptors",
        DmaBufCause::UnsupportedMemoryRegion => "UnsupportedMemoryRegion",
        DmaBufCause::InvalidAlignment => "InvalidAlignment",
        DmaBufCause::InvalidChunkSize => "InvalidChunkSize",
    }
}

fn master_str(c: &MasterConfigCause) -> (s: &'static str)
    ensures
        s@ == master_text(*c),
{
    match c {
        MasterConfigCause::UnsupportedFrequency => "UnsupportedFrequency",
        MasterConfigCause::UnsupportedMode => "UnsupportedMode",
    }
}

fn spawn_str(c: &SpawnCause) -> (s: &'static str)
    ensures
        s@ == spawn_text(*c),
{
    match c {
        SpawnCause::Busy => "Busy",
    }
}

impl Error {
    /// Render this error's message.
    pub fn render(&self) -> (s: String)
        ensures
            s@ == error_text(*self),
    {
        match self {
            Error::AdHoc(m) => {
                let mut s = String::from_str("ad-hoc error: ");
                s.append(m.as_str());
                s
            },
            Error::BmpParse(_) => String::from_str("BMP parse error!"),
            Error::Display(c) => {
                let mut s = String::from_str("display error: ");
                s.append(display_str(c));
                s
            },
            Error::DmaBuf(c) => {
                let mut s = String::from_str("DMA buffer error: ");
                s.append(dma_buf_str(c));
                s
            },
            Error::Master(c) => {
                let mut s = String::from_str("SPI master config failed: ");
                s.append(master_str(c));
                s
            },
            Error::Spawn(c) => {
                let mut s = String::from_str("task spawn failed: ");
                s.append(spawn_str(c));
                s
            },
        }
    }
}

impl From<BmpParseCause> for Error {
    fn from(c: BmpParseCause) -> (e: Error) {
        Error::BmpParse(c)
    }
}

impl vstd::std_specs::convert::FromSpecImpl<BmpParseCause> for Error {
    open spec fn obeys_from_spec() -> bool {
        true
    }

    open spec fn from_spec(c: BmpParseCause) -> Error {
        Error::BmpParse(c)
    }
}

impl From<DisplayCause> for Error {
    fn from(c: DisplayCause) -> (e: Error) {
        Error::Display(c)
    }
}

impl vstd::std_specs::convert::FromSpecImpl<DisplayCause> for Error {
    open spec fn obeys_from_spec() -> bool {
        true
    }

    open spec fn from_spec(c: DisplayCause) -> Error {
        Error::Display(c)
    }
}

impl From<DmaBufCause> for Error {
    fn from(c: DmaBufCause) -> (e: Error) {
        Error::DmaBuf(c)
    }
}

impl vstd::std_specs::convert::FromSpecImpl<DmaBufCause> for Error {
    open spec fn obeys_from_spec() -> bool {
        true
    }

    open spec fn from_spec(c: DmaBufCause) -> Error {
        Error::DmaBuf(c)
    }
}

impl From<MasterConfigCause> for Error {
    fn from(c: MasterConfigCause) -> (e: Error) {
        Error::Master(c)
    }
}

impl vstd::std_specs::convert::FromSpecImpl<MasterConfigCause> for Error {
    open spec fn obeys_from_spec() -> bool {
        true
    }

    open spec fn from_spec(c: MasterConfigCause) -> Error {
        Error::Master(c)
    }
}

impl From<SpawnCause> for Error {
    fn from(c: SpawnCause) -> (e: Error) {
        Error::Spawn(c)
    }
}

impl vstd::std_specs::convert::FromSpecImpl<SpawnCause> for Error {
    open spec fn obeys_from_spec() -> bool {
        true
    }

    open spec fn from_spec(c: SpawnCause) -> Error {
        Error::Spawn(c)
    }
}

} // verus!
