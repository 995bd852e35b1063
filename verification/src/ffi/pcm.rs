use vstd::prelude::*;

verus! {

/// Events of the platform's PCM player.
#[derive(Debug, Clone, Copy, PartialEq, Eq, Structural)]
pub enum PcmEvent {
    NoEvent,
    DataRequest,
    DataNotification,
    End,
    Error,
    DecoderUnsupport,
    Repeated,
    Terminated,
    LedOn,
    LedOff,
    VibratorOn,
    VibratorOff,
    BacklightOn,
    BacklightOff,
    ExtendedEvent,
    ReadError,
    UpdateDur,
    StopTimeUp,
    DemoTimeUp,
    BufferUnderflow,
    ReadyToPlay,
    DataRefill,
}

/// Status codes of the platform's PCM player; their numbers start at 200.
#[derive(Debug, Clone, Copy, PartialEq, Eq, Structural)]
pub enum PcmStatus {
    Success,
    Fail,
    Reentry,
    NotInitialized,
    BadFormat,
    BadParameter,
    BadCommand,
    NoHandler,
    UnsupportedChannel,
    UnsupportedFreq,
    UnsupportedType,
    UnsupportedOperation,
    SeekFail,
    SeekEof,
    ReadFail,
    WriteFail,
    DiskFull,
    MergeTypeMismatch,
    FileIncomplete,
}

/// The status that the number `code` stands for, if any.
pub open spec fn spec_pcm_status(code: i32) -> Option<PcmStatus> {
    if code == 200 { Some(PcmStatus::Success) }
    else if code == 201 { Some(PcmStatus::Fail) }
    else if code == 202 { Some(PcmStatus::Reentry) }
    else if code == 203 { Some(PcmStatus::NotInitialized) }
    else if code == 204 { Some(PcmStatus::BadFormat) }
    else if code == 205 { Some(PcmStatus::BadParameter) }
    else if code == 206 { Some(PcmStatus::BadCommand) }
    else if code == 207 { Some(PcmStatus::NoHandler) }
    else if code == 208 { Some(PcmStatus::UnsupportedChannel) }
    else if code == 209 { Some(PcmStatus::UnsupportedFreq) }
    else if code == 210 { Some(PcmStatus::UnsupportedType) }
    else if code == 211 { Some(PcmStatus::UnsupportedOperation) }
    else if code == 212 { Some(PcmStatus::SeekFail) }
    else if code == 213 { Some(PcmStatus::SeekEof) }
    else if code == 214 { Some(PcmStatus::ReadFail) }
    else if code == 215 { Some(PcmStatus::WriteFail) }
    else if code == 216 { Some(PcmStatus::DiskFull) }
    else if code == 217 { Some(PcmStatus::MergeTypeMismatch) }
    else if code == 218 { Some(PcmStatus::FileIncomplete) }
    else { None }
}

/// The player's status codes are 200 to 218, each with a status of its own:
/// a code outside that range has none, and two different codes in it never
/// give the same status.
pub proof fn lemma_pcm_codes_distinct(a: i32, b: i32)
    ensures
        spec_pcm_status(a) is Some <==> 200 <= a <= 218,
        200 <= a <= 218 && 200 <= b <= 218 && a != b ==> spec_pcm_status(a) != spec_pcm_status(b),
        spec_pcm_status(200) == Some(PcmStatus::Success),
        spec_pcm_status(201) == Some(PcmStatus::Fail),
{
}

impl PcmStatus {
    /// The status for a number the player returned, if it is one.
    pub fn from_code(code: i32) -> (res: Option<PcmStatus>)
        ensures
            res == spec_pcm_status(code),
    {
        if code == 200 { Some(PcmStatus::Success) }
        else if code == 201 { Some(PcmStatus::Fail) }
        else if code == 202 { Some(PcmStatus::Reentry) }
        else if code == 203 { Some(PcmStatus::NotInitialized) }
        else if code == 204 { Some(PcmStatus::BadFormat) }
        else if code == 205 { Some(PcmStatus::BadParameter) }
        else if code == 206 { Some(PcmStatus::BadCommand) }
        else if code == 207 { Some(PcmStatus::NoHandler) }
        else if code == 208 { Some(PcmStatus::UnsupportedChannel) }
        else if code == 209 { Some(PcmStatus::UnsupportedFreq) }
        else if code == 210 { Some(PcmStatus::UnsupportedType) }
        else if code == 211 { Some(PcmStatus::UnsupportedOperation) }
        else if code == 212 { Some(PcmStatus::SeekFail) }
        else if code == 213 { Some(PcmStatus::SeekEof) }
        else if code == 214 { Some(PcmStatus::ReadFail) }
        else if code == 215 { Some(PcmStatus::WriteFail) }
        else if code == 216 { Some(PcmStatus::DiskFull) }
        else if code == 217 { Some(PcmStatus::MergeTypeMismatch) }
        else if code == 218 { Some(PcmStatus::FileIncomplete) }
        else { None }
    }

    /// The number of this status.
    pub fn code(self) -> (res: i32)
        ensures
            spec_pcm_status(res) == Some(self),
    {
        match self {
            PcmStatus::Success => 200,
            PcmStatus::Fail => 201,
            PcmStatus::Reentry => 202,
            PcmStatus::NotInitialized => 203,
            PcmStatus::BadFormat => 204,
            PcmStatus::BadParameter => 205,
            PcmStatus::BadCommand => 206,
            PcmStatus::NoHandler => 207,
            PcmStatus::UnsupportedChannel => 208,
            PcmStatus::UnsupportedFreq => 209,
            PcmStatus::UnsupportedType => 210,
            PcmStatus::UnsupportedOperation => 211,
            PcmStatus::SeekFail => 212,
            PcmStatus::SeekEof => 213,
            PcmStatus::ReadFail => 214,
            PcmStatus::WriteFail => 215,
            PcmStatus::DiskFull => 216,
            PcmStatus::MergeTypeMismatch => 217,
            PcmStatus::FileIncomplete => 218,
        }
    }
}

/// Output channels of the PCM player.
#[derive(Debug, Clone, Copy, PartialEq, Eq, Structural)]
pub enum PcmChannel {
    NoChannel,
    Main,
    Sub,
}

/// How the PCM player counts its buffer threshold.
#[derive(Debug, Clone, Copy, PartialEq, Eq, Structural)]
pub enum PcmBufferMode {
    FreeSpaceMode,
    DataConsumeMode,
}

/// Format of a PCM stream.
#[derive(Debug, Clone, Copy, PartialEq, Eq, Structural)]
pub struct PcmParam {
    pub is_stereo: u8,
    pub bit_per_sample: u8,
    pub sample_freq: u16,
    pub force_voice: u8,
}

/// The byte pattern that starts the platform's PCM open routine.
pub open spec fn pcm_magic() -> Seq<u8> {
    seq![0x70u8, 0xB5u8, 0x06u8, 0x00u8, 0x0Du8, 0x00u8, 0x00u8, 0x22u8, 0x11u8, 0x00u8, 0x1Cu8, 0x20u8]
}

/// True when the pattern starts at `i` in `mem`.
pub open spec fn magic_at(mem: Seq<u8>, i: int) -> bool {
    0 <= i && i + 12 <= mem.len() && mem.subrange(i, i + 12) == pcm_magic()
}

/// The first offset, among multiples of 4 below `limit`, where the PCM open
/// routine's pattern starts in `mem`, a window of memory.
pub fn find_pcm_open(mem: &[u8], limit: usize) -> (res: Option<usize>)
    ensures
        match res {
            Some(i) => i < limit && i % 4 == 0 && magic_at(mem@, i as int)
                && forall|j: int| 0 <= j < i && j % 4 == 0 ==> !magic_at(mem@, j),
            None => forall|j: int| 0 <= j < limit && j % 4 == 0 ==> !magic_at(mem@, j),
        },
{
    let magic: [u8; 12] = [0x70, 0xB5, 0x06, 0x00, 0x0D, 0x00, 0x00, 0x22, 0x11, 0x00, 0x1C, 0x20];
    assert(magic@ =~= pcm_magic());
    let mut i: usize = 0;
    while i < limit
        invariant
            i % 4 == 0,
            magic@ == pcm_magic(),
            forall|j: int| 0 <= j < i && j % 4 == 0 ==> !magic_at(mem@, j),
        decreases limit - i,
    {
        if i <= mem.len() && mem.len() - i >= 12 {
            let mut k: usize = 0;
            while k < 12
                invariant
                    k <= 12,
                    i + 12 <= mem.len(),
                    magic@ == pcm_magic(),
                    forall|m: int| 0 <= m < k ==> mem@[i + m] == magic@[m],
                ensures
                    k <= 12,
                    forall|m: int| 0 <= m < k ==> mem@[i + m] == magic@[m],
                    k < 12 ==> mem@[i + k] != magic@[k as int],
                decreases 12 - k,
            {
                if mem[i + k] != magic[k] {
                    break;
                }
                k = k + 1;
            }
            if k == 12 {
                assert(mem@.subrange(i as int, i + 12) =~= pcm_magic());
                return Some(i);
            }
            assert(!magic_at(mem@, i as int)) by {
                assert(mem@.subrange(i as int, i + 12)[k as int] == mem@[i + k]);
            }
        }
        if limit - i < 4 {
            assert forall|j: int| 0 <= j < limit && j % 4 == 0 implies !magic_at(mem@, j) by {
                if j > i {
                    assert(j >= i + 4);
                }
            }
            return None;
        }
        i = i + 4;
    }
    None
}

} // verus!
