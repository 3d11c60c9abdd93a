use vstd::prelude::*;
use vstd::string::StringExecFns;

verus! {

/// A rational value as the probing library reports one: a numerator and
/// a denominator.
#[derive(Debug, Clone, Copy, PartialEq, Eq, Structural)]
pub struct Rational {
    pub num: i32,
    pub den: i32,
}

/// A stream's medium, with the variants the probing library
/// distinguishes.
#[derive(Debug, Clone, Copy, PartialEq, Eq, Structural)]
pub enum Medium {
    Unknown,
    Video,
    Audio,
    Data,
    Subtitle,
    Attachment,
}

/// The printed name of a medium, as the probing library's debug form
/// spells it: the bare variant name.
pub open spec fn medium_name(m: Medium) -> Seq<char> {
    match m {
        Medium::Unknown => "Unknown"@,
        Medium::Video => "Video"@,
        Medium::Audio => "Audio"@,
        Medium::Data => "Data"@,
        Medium::Subtitle => "Subtitle"@,
        Medium::Attachment => "Attachment"@,
    }
}

pub fn medium_label(m: Medium) -> (r: String)
    ensures
        r@ == medium_name(m),
{
    match m {
        Medium::Unknown => String::from_str("Unknown"),
        Medium::Video => String::from_str("Video"),
        Medium::Audio => String::from_str("Audio"),
        Medium::Data => String::from_str("Data"),
        Medium::Subtitle => String::from_str("Subtitle"),
        Medium::Attachment => String::from_str("Attachment"),
    }
}

/// What a successfully opened video decoder reports of its stream.
/// Fields that the probing library prints from its own enumerations
/// (pixel format, colour description, chroma siting) arrive already
/// printed.
#[derive(Debug, Clone, PartialEq)]
pub struct VideoMeta {
    pub bit_rate: usize,
    pub max_bit_rate: usize,
    pub delay: usize,
    pub width: u32,
    pub height: u32,
    pub pixel_format: String,
    pub has_b_frames: bool,
    pub aspect_ratio: Rational,
    pub color_space: String,
    pub color_range: String,
    pub color_primaries: String,
    pub color_transfer: String,
    pub chroma_location: String,
    pub references: usize,
    pub intra_dc_precision: u8,
}

/// What a successfully opened audio decoder reports of its stream.
#[derive(Debug, Clone, PartialEq)]
pub struct AudioMeta {
    pub bit_rate: usize,
    pub max_bit_rate: usize,
    pub delay: usize,
    pub rate: u32,
    pub channels: u16,
    pub sample_format: String,
    pub frames: usize,
    pub align: usize,
    pub channel_layout: String,
}

/// The medium-specific part of a stream's metadata.  A video or audio
/// stream whose decoder could not be opened stays `Bare`: the stream
/// keeps its generic fields and silently omits the specific ones.
#[derive(Debug, Clone, PartialEq)]
pub enum StreamDetail {
    Video(VideoMeta),
    Audio(AudioMeta),
    Bare,
}

/// The generic metadata of one stream, in the container's order.
#[derive(Debug, Clone, PartialEq)]
pub struct StreamMeta {
    pub index: usize,
    pub time_base: Rational,
    pub start_time: i64,
    pub duration: i64,
    pub frames: i64,
    pub disposition: String,
    pub discard: String,
    pub rate: Rational,
    pub medium: Medium,
    pub codec_name: String,
    pub detail: StreamDetail,
}

/// One stream as probing left it: its metadata, or the complaint of a
/// failed codec probe, which aborts the whole file.
#[derive(Debug, Clone, PartialEq)]
pub enum StreamProbe {
    Probed(StreamMeta),
    CodecFailed(String),
}

/// Everything the probing library reports of one container: its
/// metadata tags in native order, its streams in container order, and
/// the index each best-stream heuristic picked.
#[derive(Debug, Clone, PartialEq)]
pub struct ContainerMeta {
    pub tags: Vec<(String, String)>,
    pub streams: Vec<StreamProbe>,
    pub best_video: Option<usize>,
    pub best_audio: Option<usize>,
    pub best_subtitle: Option<usize>,
}

/// What opening a path as a media container came to: not a recognizable
/// media file at all (a deliberate soft failure), or a probed container.
#[derive(Debug, Clone, PartialEq)]
pub enum ProbeOutcome {
    NotMedia,
    Media(ContainerMeta),
}

} // verus!
