//! The Export dialog's state.
//!
//! Animate's Export Image asks three things — how large, with or without a
//! background, and (for a sequence) which frames. What this module states and
//! proves is the state around those answers: opening on a document, ordering
//! a range, and which settings a preset stands for. Keeping the aspect ratio
//! is floating-point arithmetic and is done by the dialog that draws this.

use vstd::prelude::*;

verus! {

/// Nothing sensible comes of a side longer than this, and a GPU will refuse it
/// anyway.
pub const MAX_SIDE: u32 = 16384;

/// Which of Animate's export commands is being set up.
#[derive(Debug, Clone, Copy, PartialEq, Eq, Structural)]
pub enum ExportKind {
    /// One frame, as a PNG.
    Image,
    /// A numbered PNG per frame.
    Sequence,
    /// An MP4 or MOV.
    Video,
    /// An animated GIF.
    Gif,
    /// An animated WebP.
    Webp,
}

impl ExportKind {
    pub open spec fn title_spec(self) -> Seq<char> {
        match self {
            ExportKind::Image => "Export Image"@,
            ExportKind::Sequence => "Export PNG Sequence"@,
            ExportKind::Video => "Export Video"@,
            ExportKind::Gif => "Export GIF"@,
            ExportKind::Webp => "Export WebP"@,
        }
    }

    /// The dialog's window title.
    pub fn title(self) -> (r: &'static str)
        ensures
            r@ == self.title_spec(),
    {
        match self {
            ExportKind::Image => "Export Image",
            ExportKind::Sequence => "Export PNG Sequence",
            ExportKind::Video => "Export Video",
            ExportKind::Gif => "Export GIF",
            ExportKind::Webp => "Export WebP",
        }
    }

    /// Does this export cover a range of frames rather than one?
    pub fn is_range(self) -> (r: bool)
        ensures
            r == !(self is Image),
    {
        match self {
            ExportKind::Image => false,
            _ => true,
        }
    }

    /// Does this format need an ffmpeg to encode?
    pub fn needs_ffmpeg(self) -> (r: bool)
        ensures
            r == (self is Video || self is Gif || self is Webp),
    {
        match self {
            ExportKind::Video | ExportKind::Gif | ExportKind::Webp => true,
            _ => false,
        }
    }
}

/// The video codecs the dialog offers.
#[derive(Debug, Clone, Copy, PartialEq, Eq, Structural)]
pub enum VideoChoice {
    H264,
    Hevc,
    Av1,
    ProRes4444,
}

impl VideoChoice {
    pub open spec fn label_spec(self) -> Seq<char> {
        match self {
            VideoChoice::H264 => "H.264"@,
            VideoChoice::Hevc => "HEVC (H.265)"@,
            VideoChoice::Av1 => "AV1"@,
            VideoChoice::ProRes4444 => "ProRes 4444 (alpha)"@,
        }
    }

    pub fn label(self) -> (r: &'static str)
        ensures
            r@ == self.label_spec(),
    {
        match self {
            VideoChoice::H264 => "H.264",
            VideoChoice::Hevc => "HEVC (H.265)",
            VideoChoice::Av1 => "AV1",
            VideoChoice::ProRes4444 => "ProRes 4444 (alpha)",
        }
    }

    pub open spec fn help_spec(self) -> Seq<char> {
        match self {
            VideoChoice::H264 => "Plays everywhere. Choose this unless you have a reason not to."@,
            VideoChoice::Hevc => "Smaller at the same quality; not every player opens it."@,
            VideoChoice::Av1 => "Smaller again, and needs a recent player."@,
            VideoChoice::ProRes4444 => "Keeps a real alpha channel for compositing. Large .mov files."@,
        }
    }

    /// What this codec is for, in one line.
    pub fn help(self) -> (r: &'static str)
        ensures
            r@ == self.help_spec(),
    {
        match self {
            VideoChoice::H264 => "Plays everywhere. Choose this unless you have a reason not to.",
            VideoChoice::Hevc => "Smaller at the same quality; not every player opens it.",
            VideoChoice::Av1 => "Smaller again, and needs a recent player.",
            VideoChoice::ProRes4444 => "Keeps a real alpha channel for compositing. Large .mov files.",
        }
    }

    /// ProRes carries transparency; the export renders on no background.
    pub fn is_alpha(self) -> (r: bool)
        ensures
            r == (self is ProRes4444),
    {
        match self {
            VideoChoice::ProRes4444 => true,
            _ => false,
        }
    }
}

/// The containers a video can be written in.
#[derive(Debug, Clone, Copy, PartialEq, Eq, Structural)]
pub enum ContainerChoice {
    Mp4,
    Mov,
}

impl ContainerChoice {
    pub fn label(self) -> (r: &'static str)
        ensures
            r@ == (if self is Mp4 {
                "MP4"@
            } else {
                "MOV"@
            }),
    {
        match self {
            ContainerChoice::Mp4 => "MP4",
            ContainerChoice::Mov => "MOV",
        }
    }

    /// The file extension, without the dot.
    pub fn extension(self) -> (r: &'static str)
        ensures
            r@ == (if self is Mp4 {
                "mp4"@
            } else {
                "mov"@
            }),
    {
        match self {
            ContainerChoice::Mp4 => "mp4",
            ContainerChoice::Mov => "mov",
        }
    }
}

/// The video choices the dialog offers.
#[derive(Debug, Clone, Copy, PartialEq, Eq, Structural)]
pub struct VideoOptions {
    pub codec: VideoChoice,
    pub container: ContainerChoice,
    /// ffmpeg's quality number: lower is better.
    pub quality: u32,
    pub hardware: bool,
    pub audio: bool,
}

impl Default for VideoOptions {
    fn default() -> (r: Self)
        ensures
            r == (VideoOptions {
                codec: VideoChoice::H264,
                container: ContainerChoice::Mp4,
                quality: 20,
                hardware: true,
                audio: true,
            }),
    {
        VideoOptions {
            codec: VideoChoice::H264,
            container: ContainerChoice::Mp4,
            quality: 20,
            hardware: true,
            audio: true,
        }
    }
}

impl VideoOptions {
    /// ProRes only lives in a `.mov`, so the container follows the codec.
    pub fn settle_container(&mut self)
        ensures
            final(self).codec == old(self).codec,
            final(self).quality == old(self).quality,
            final(self).hardware == old(self).hardware,
            final(self).audio == old(self).audio,
            final(self).container == (if old(self).codec is ProRes4444 {
                ContainerChoice::Mov
            } else {
                old(self).container
            }),
    {
        if self.codec.is_alpha() {
            self.container = ContainerChoice::Mov;
        }
    }

    /// The quality as the slider shows it: higher is better, the opposite of
    /// ffmpeg's own scale.
    pub fn slider_quality(&self) -> (r: u32)
        ensures
            r == (if self.quality <= 51 {
                51 - self.quality
            } else {
                0
            }),
    {
        51u32.saturating_sub(self.quality)
    }

    /// Take the slider's reading back onto ffmpeg's scale.
    pub fn set_slider_quality(&mut self, slider: u32)
        ensures
            *final(self) == (VideoOptions {
                quality: if slider <= 51 {
                    (51 - slider) as u32
                } else {
                    0
                },
                ..*old(self)
            }),
    {
        self.quality = 51u32.saturating_sub(slider);
    }
}

/// The GIF choices the dialog offers.
#[derive(Debug, Clone, Copy, PartialEq, Eq, Structural)]
pub struct GifOptions {
    pub dither: DitherChoice,
}

impl Default for GifOptions {
    fn default() -> (r: Self)
        ensures
            r.dither == DitherChoice::Bayer,
    {
        GifOptions { dither: DitherChoice::Bayer }
    }
}

/// How a GIF trades pattern for banding.
#[derive(Debug, Clone, Copy, PartialEq, Eq, Structural)]
pub enum DitherChoice {
    NoDither,
    Bayer,
    FloydSteinberg,
}

impl DitherChoice {
    pub fn label(self) -> (r: &'static str)
        ensures
            r@ == (match self {
                DitherChoice::NoDither => "None"@,
                DitherChoice::Bayer => "Ordered (steady)"@,
                DitherChoice::FloydSteinberg => "Diffusion (smoother, shimmers)"@,
            }),
    {
        match self {
            DitherChoice::NoDither => "None",
            DitherChoice::Bayer => "Ordered (steady)",
            DitherChoice::FloydSteinberg => "Diffusion (smoother, shimmers)",
        }
    }
}

/// The animated-WebP choices.
#[derive(Debug, Clone, Copy, PartialEq, Eq, Structural)]
pub struct WebpOptions {
    pub quality: u32,
    pub lossless: bool,
}

impl Default for WebpOptions {
    fn default() -> (r: Self)
        ensures
            r == (WebpOptions { quality: 90, lossless: false }),
    {
        WebpOptions { quality: 90, lossless: false }
    }
}

/// Everything a preset sets, as one comparable value. The frame range is
/// not in it: a preset does not carry one.
pub type Fingerprint = (Option<ExportKind>, u32, u32, bool, VideoOptions, GifOptions, WebpOptions);

/// Everything the dialog remembers.
///
/// View state: an export setting is not part of the artwork, is not saved with
/// it and is not undone.
#[derive(Debug, Clone, PartialEq)]
pub struct ExportState {
    /// Open, and for which command.
    pub open: Option<ExportKind>,
    pub width: u32,
    pub height: u32,
    /// Export with no background.
    pub transparent: bool,
    /// Render only the selection's bounds rather than the whole stage.
    pub region_to_selection: bool,
    /// Keep the stage's proportions when either size is edited.
    pub link_aspect: bool,
    /// First and last frame of a sequence, inclusive.
    pub from_frame: u32,
    pub to_frame: u32,
    /// The stage size the sizes were derived from, so the ratio survives.
    /// Set by [`Self::open`]; read, not written, by everything else.
    pub stage_width: u32,
    pub stage_height: u32,
    /// How long the film is, remembered from the last `open`.
    pub frames: u32,
    /// A run in progress: frames done, frames total.
    pub progress: Option<(u32, u32)>,
    pub video: VideoOptions,
    pub gif: GifOptions,
    pub webp: WebpOptions,
    /// Whether this machine has an ffmpeg to encode with.
    pub ffmpeg: bool,
    /// The name being typed for "save these settings as a preset".
    pub preset_name: String,
    /// Which preset the settings currently came from, by name.
    pub selected_preset: Option<String>,
}

/// The first frame of a range typed as `from` and `to`, either way round.
pub open spec fn first_frame(from: u32, to: u32) -> u32 {
    if from <= to {
        from
    } else {
        to
    }
}

/// The last frame of a range typed as `from` and `to`, either way round.
pub open spec fn last_frame(from: u32, to: u32) -> u32 {
    if from <= to {
        to
    } else {
        from
    }
}

impl Default for ExportState {
    fn default() -> (s: Self)
        ensures
            s.wf(),
            s.open is None,
            s.width == 550 && s.height == 400,
            !s.transparent && !s.region_to_selection && s.link_aspect,
            s.from_frame == 0 && s.to_frame == 0,
            s.stage_width == 550 && s.stage_height == 400,
            s.frames == 1,
            s.progress is None,
            s.video == (VideoOptions {
                codec: VideoChoice::H264,
                container: ContainerChoice::Mp4,
                quality: 20,
                hardware: true,
                audio: true,
            }),
            s.gif == (GifOptions { dither: DitherChoice::Bayer }),
            s.webp == (WebpOptions { quality: 90, lossless: false }),
            s.ffmpeg,
            s.preset_name@ == Seq::<char>::empty(),
            s.selected_preset is None,
    {
        ExportState {
            open: None,
            width: 550,
            height: 400,
            transparent: false,
            region_to_selection: false,
            link_aspect: true,
            from_frame: 0,
            to_frame: 0,
            stage_width: 550,
            stage_height: 400,
            frames: 1,
            progress: None,
            video: VideoOptions::default(),
            gif: GifOptions::default(),
            webp: WebpOptions::default(),
            ffmpeg: true,
            preset_name: String::new(),
            selected_preset: None,
        }
    }
}

impl ExportState {
    /// The stage is never smaller than a point and the film never shorter
    /// than a frame — what `open` and `default` establish.
    pub open spec fn wf(&self) -> bool {
        self.stage_width >= 1 && self.stage_height >= 1 && self.frames >= 1
    }

    /// The stage size the dialog was opened on, for the scale readout.
    pub fn stage(&self) -> (r: (u32, u32))
        ensures
            r == (self.stage_width, self.stage_height),
    {
        (self.stage_width, self.stage_height)
    }

    /// Open the dialog, sized to this document.
    ///
    /// The size is reset to the stage each time rather than remembered: an
    /// export at yesterday's dimensions for a document that has since been
    /// resized is a silent way to produce the wrong file.
    pub fn open(&mut self, kind: ExportKind, stage: (u32, u32), frame_count: u32)
        ensures
            final(self).wf(),
            final(self).open == Some(kind),
            final(self).frames == (if frame_count >= 1 {
                frame_count
            } else {
                1
            }),
            final(self).stage_width == (if stage.0 >= 1 {
                stage.0
            } else {
                1
            }),
            final(self).stage_height == (if stage.1 >= 1 {
                stage.1
            } else {
                1
            }),
            final(self).width == final(self).stage_width,
            final(self).height == final(self).stage_height,
            final(self).from_frame == 0,
            final(self).to_frame == (if frame_count >= 1 {
                frame_count - 1
            } else {
                0
            }),
            final(self).progress is None,
            final(self).selected_preset is None,
            final(self).transparent == old(self).transparent,
            final(self).region_to_selection == old(self).region_to_selection,
            final(self).link_aspect == old(self).link_aspect,
            final(self).video == old(self).video,
            final(self).gif == old(self).gif,
            final(self).webp == old(self).webp,
            final(self).ffmpeg == old(self).ffmpeg,
            final(self).preset_name == old(self).preset_name,
    {
        self.open = Some(kind);
        self.frames = if frame_count >= 1 {
            frame_count
        } else {
            1
        };
        let w = if stage.0 >= 1 {
            stage.0
        } else {
            1
        };
        let h = if stage.1 >= 1 {
            stage.1
        } else {
            1
        };
        self.stage_width = w;
        self.stage_height = h;
        self.width = w;
        self.height = h;
        self.from_frame = 0;
        self.to_frame = frame_count.saturating_sub(1);
        self.progress = None;
        // The size has just been reset to the stage, so whatever preset was
        // showing no longer describes these settings.
        self.selected_preset = None;
    }

    /// The frames this document has, remembered from the last `open`.
    pub fn frame_count(&self) -> (r: u32)
        ensures
            r == self.frames,
    {
        self.frames
    }

    /// Everything a preset sets, as one comparable value.
    pub fn fingerprint(&self) -> (r: Fingerprint)
        ensures
            r == (self.open, self.width, self.height, self.transparent, self.video, self.gif,
                self.webp),
    {
        (self.open, self.width, self.height, self.transparent, self.video, self.gif, self.webp)
    }

    /// **Edit a setting by hand and it is no longer that preset.**
    ///
    /// Called with the fingerprint taken before the settings were drawn.
    pub fn forget_preset_if_edited(&mut self, before: Fingerprint)
        ensures
            final(self).selected_preset == (if before == old(self).fingerprint_spec() {
                old(self).selected_preset
            } else {
                None
            }),
            *final(self) == (ExportState {
                selected_preset: final(self).selected_preset,
                ..*old(self)
            }),
    {
        let now = self.fingerprint();
        if !(before.0 == now.0 && before.1 == now.1 && before.2 == now.2 && before.3 == now.3
            && before.4 == now.4 && before.5 == now.5 && before.6 == now.6) {
            self.selected_preset = None;
        }
    }

    /// Where the preset the settings came from sits in `presets`, the list
    /// on offer. A remembered name that is no longer listed — a preset since
    /// removed — is not shown, so the box offers a choice instead of naming
    /// something that is not there.
    pub fn listed_preset(&self, presets: &[String]) -> (r: Option<usize>)
        ensures
            match self.selected_preset {
                None => r is None,
                Some(name) => match r {
                    Some(i) => i < presets@.len() && presets@[i as int]@ == name@ && forall|j: int|
                        0 <= j < i ==> (#[trigger] presets@[j])@ != name@,
                    None => forall|j: int| 0 <= j < presets@.len() ==> (#[trigger] presets@[j])@ != name@,
                },
            },
    {
        match &self.selected_preset {
            None => None,
            Some(name) => {
                let mut i: usize = 0;
                while i < presets.len()
                    invariant
                        i <= presets@.len(),
                        self.selected_preset == Some(*name),
                        forall|j: int| 0 <= j < i ==> (#[trigger] presets@[j])@ != name@,
                    decreases presets@.len() - i,
                {
                    if presets[i] == *name {
                        return Some(i);
                    }
                    i = i + 1;
                }
                None
            },
        }
    }

    pub open spec fn fingerprint_spec(&self) -> Fingerprint {
        (self.open, self.width, self.height, self.transparent, self.video, self.gif, self.webp)
    }

    /// Close the dialog, dropping any run in progress.
    pub fn close(&mut self)
        ensures
            *final(self) == (ExportState { open: None, progress: None, ..*old(self) }),
    {
        self.open = None;
        self.progress = None;
    }

    /// The frame range, as a half-open range ready for the exporter.
    ///
    /// Ordered, so a range typed backwards exports those frames rather than
    /// nothing at all.
    pub fn range(&self) -> (r: core::ops::Range<u32>)
        requires
            self.from_frame < u32::MAX,
            self.to_frame < u32::MAX,
        ensures
            r.start == first_frame(self.from_frame, self.to_frame),
            r.end == last_frame(self.from_frame, self.to_frame) + 1,
    {
        let first = if self.from_frame <= self.to_frame {
            self.from_frame
        } else {
            self.to_frame
        };
        let last = if self.from_frame <= self.to_frame {
            self.to_frame
        } else {
            self.from_frame
        };
        first..last + 1
    }
}

/// What the user did in the dialog.
#[derive(Debug, Clone, PartialEq)]
pub struct ExportResponse {
    /// Go ahead: pick a destination and export.
    pub confirmed: bool,
    /// Close without exporting.
    pub cancelled: bool,
    /// Apply the preset at this index in the list passed in.
    pub apply_preset: Option<usize>,
    /// Save the current settings as a preset under `preset_name`.
    pub save_preset: bool,
}

impl Default for ExportResponse {
    fn default() -> (r: Self)
        ensures
            !r.confirmed && !r.cancelled && r.apply_preset is None && !r.save_preset,
    {
        ExportResponse { confirmed: false, cancelled: false, apply_preset: None, save_preset: false }
    }
}

/// **A range typed backwards exports the same frames**: swapping the two
/// ends changes nothing, and the range always holds both of them.
pub proof fn a_frame_range_reads_either_way_round(from: u32, to: u32)
    ensures
        first_frame(from, to) == first_frame(to, from),
        last_frame(from, to) == last_frame(to, from),
        first_frame(from, to) <= from <= last_frame(from, to),
        first_frame(from, to) <= to <= last_frame(from, to),
{
}

} // verus!
