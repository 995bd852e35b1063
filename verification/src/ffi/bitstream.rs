use vstd::prelude::*;

verus! {

/// Audio codecs of the platform's bitstream player.
#[allow(non_camel_case_types)]
#[derive(Debug, Clone, Copy, PartialEq, Eq, Structural)]
pub enum vm_bitstream_codec_type_enum {
    VM_BITSTREAM_CODEC_TYPE_NONE,
    VM_BITSTREAM_CODEC_TYPE_SILENT,
    VM_BITSTREAM_CODEC_TYPE_AMR,
    VM_BITSTREAM_CODEC_TYPE_AMRWB,
    VM_BITSTREAM_CODEC_TYPE_AAC,
    VM_BITSTREAM_CODEC_TYPE_DAF,
    VM_BITSTREAM_CODEC_TYPE_MP4A,
    VM_BITSTREAM_CODEC_TYPE_MP4AG,
    VM_BITSTREAM_CODEC_TYPE_WAV,
    VM_BITSTREAM_CODEC_TYPE_ADPCM,
    VM_BITSTREAM_CODEC_TYPE_PCM,
    VM_BITSTREAM_CODEC_TYPE_TOTAL,
}

/// Sample rates of the platform's bitstream player.
#[allow(non_camel_case_types)]
#[derive(Debug, Clone, Copy, PartialEq, Eq, Structural)]
pub enum vm_bitstream_sample_freq_enum {
    VM_BITSTREAM_SAMPLE_FREQ_8000,
    VM_BITSTREAM_SAMPLE_FREQ_11025,
    VM_BITSTREAM_SAMPLE_FREQ_16000,
    VM_BITSTREAM_SAMPLE_FREQ_22050,
    VM_BITSTREAM_SAMPLE_FREQ_24000,
    VM_BITSTREAM_SAMPLE_FREQ_32000,
    VM_BITSTREAM_SAMPLE_FREQ_44100,
    VM_BITSTREAM_SAMPLE_FREQ_48000,
    VM_BITSTREAM_SAMPLE_FREQ_TOTAL,
}

impl vm_bitstream_sample_freq_enum {
    /// The sample rate in hertz; zero for the end marker.
    pub fn hertz(self) -> (res: u32)
        ensures
            res == match self {
                vm_bitstream_sample_freq_enum::VM_BITSTREAM_SAMPLE_FREQ_8000 => 8000u32,
                vm_bitstream_sample_freq_enum::VM_BITSTREAM_SAMPLE_FREQ_11025 => 11025u32,
                vm_bitstream_sample_freq_enum::VM_BITSTREAM_SAMPLE_FREQ_16000 => 16000u32,
                vm_bitstream_sample_freq_enum::VM_BITSTREAM_SAMPLE_FREQ_22050 => 22050u32,
                vm_bitstream_sample_freq_enum::VM_BITSTREAM_SAMPLE_FREQ_24000 => 24000u32,
                vm_bitstream_sample_freq_enum::VM_BITSTREAM_SAMPLE_FREQ_32000 => 32000u32,
                vm_bitstream_sample_freq_enum::VM_BITSTREAM_SAMPLE_FREQ_44100 => 44100u32,
                vm_bitstream_sample_freq_enum::VM_BITSTREAM_SAMPLE_FREQ_48000 => 48000u32,
                vm_bitstream_sample_freq_enum::VM_BITSTREAM_SAMPLE_FREQ_TOTAL => 0u32,
            },
    {
        match self {
            vm_bitstream_sample_freq_enum::VM_BITSTREAM_SAMPLE_FREQ_8000 => 8000,
            vm_bitstream_sample_freq_enum::VM_BITSTREAM_SAMPLE_FREQ_11025 => 11025,
            vm_bitstream_sample_freq_enum::VM_BITSTREAM_SAMPLE_FREQ_16000 => 16000,
            vm_bitstream_sample_freq_enum::VM_BITSTREAM_SAMPLE_FREQ_22050 => 22050,
            vm_bitstream_sample_freq_enum::VM_BITSTREAM_SAMPLE_FREQ_24000 => 24000,
            vm_bitstream_sample_freq_enum::VM_BITSTREAM_SAMPLE_FREQ_32000 => 32000,
            vm_bitstream_sample_freq_enum::VM_BITSTREAM_SAMPLE_FREQ_44100 => 44100,
            vm_bitstream_sample_freq_enum::VM_BITSTREAM_SAMPLE_FREQ_48000 => 48000,
            vm_bitstream_sample_freq_enum::VM_BITSTREAM_SAMPLE_FREQ_TOTAL => 0,
        }
    }
}

/// Configuration of a compressed audio stream.
#[allow(non_camel_case_types)]
#[derive(Debug, Clone, Copy, PartialEq, Eq, Structural)]
pub struct vm_bitstream_audio_cfg_struct {
    pub vm_codec_type: vm_bitstream_codec_type_enum,
}

/// Configuration of a raw PCM audio stream.
#[allow(non_camel_case_types)]
#[derive(Debug, Clone, Copy, PartialEq, Eq, Structural)]
pub struct vm_bitstream_pcm_audio_cfg_struct {
    pub vm_codec_type: vm_bitstream_codec_type_enum,
    pub is_stereo: i32,
    pub bit_per_sample: u8,
    pub sample_freq: vm_bitstream_sample_freq_enum,
}

/// Fill state of the player's buffer.
#[allow(non_camel_case_types)]
#[derive(Debug, Clone, Copy, PartialEq, Eq, Structural)]
pub struct vm_bitstream_audio_buffer_status {
    pub total_buf_size: u32,
    pub free_buf_size: u32,
}

/// Parameters of starting playback.
#[allow(non_camel_case_types)]
#[derive(Debug, Clone, Copy, PartialEq, Eq, Structural)]
pub struct vm_bitstream_audio_start_param {
    pub start_time: u32,
    pub volume: u8,
    pub audio_path: u8,
}

} // verus!
