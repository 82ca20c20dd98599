//! Image descriptions: what a client says about its pixels, and what the compositor says about
//! an output.

use crate::wire::{
    known_primaries, known_transfer_function, PRIMARIES_BT2020, PRIMARIES_SRGB, TF_GAMMA22,
    TF_SRGB, TF_ST2084_PQ,
};
use vstd::prelude::*;

verus! {

/// Default SDR reference white in cd/m² (BT.2408).
pub const DEFAULT_REFERENCE_LUMINANCE: u32 = 203;

/// Lower end of the PQ primary color volume, in units of 0.0001 cd/m².
pub const PQ_MIN_LUMINANCE: u32 = 50;

/// Upper end of the PQ primary color volume, in cd/m².
pub const PQ_MAX_LUMINANCE: u32 = 10000;

/// Transfer characteristic that is understood. Anything else is rejected at the protocol level.
#[derive(Clone, Copy, Debug, PartialEq, Eq, Structural)]
pub enum ColorTransfer {
    Srgb,
    Gamma22,
    /// SMPTE ST 2084, a.k.a. PQ: the HDR transfer function.
    St2084Pq,
}

/// Color primaries that are understood.
#[derive(Clone, Copy, Debug, PartialEq, Eq, Structural)]
pub enum ColorPrimaries {
    Srgb,
    Bt2020,
}

impl ColorTransfer {
    /// The wire number of the transfer function.
    pub open spec fn number(self) -> u32 {
        match self {
            ColorTransfer::Srgb => TF_SRGB,
            ColorTransfer::Gamma22 => TF_GAMMA22,
            ColorTransfer::St2084Pq => TF_ST2084_PQ,
        }
    }

    /// The transfer function with a given wire number, where it is one that is understood.
    pub open spec fn of_number(tf: u32) -> Option<ColorTransfer> {
        if tf == TF_SRGB {
            Some(ColorTransfer::Srgb)
        } else if tf == TF_GAMMA22 {
            Some(ColorTransfer::Gamma22)
        } else if tf == TF_ST2084_PQ {
            Some(ColorTransfer::St2084Pq)
        } else {
            None
        }
    }

    /// What is made of a named transfer function.
    pub fn from_named(tf: u32) -> (transfer: Option<Self>)
        ensures
            transfer == Self::of_number(tf),
    {
        match tf {
            TF_SRGB => Some(Self::Srgb),
            TF_GAMMA22 => Some(Self::Gamma22),
            TF_ST2084_PQ => Some(Self::St2084Pq),
            _ => None,
        }
    }

    /// What is made of a transfer function argument straight off the wire, which the protocol
    /// need not name at all.
    pub fn from_wire(raw: u32) -> (transfer: Option<Self>)
        ensures
            transfer == Self::of_number(raw),
    {
        match known_transfer_function(raw) {
            Some(tf) => Self::from_named(tf),
            None => None,
        }
    }

    /// The wire number under which the transfer function is announced.
    pub fn to_named(self) -> (tf: u32)
        ensures
            tf == self.number(),
    {
        match self {
            Self::Srgb => TF_SRGB,
            Self::Gamma22 => TF_GAMMA22,
            Self::St2084Pq => TF_ST2084_PQ,
        }
    }

    /// Whether this transfer function denotes HDR content (PQ).
    pub fn is_hdr(self) -> (hdr: bool)
        ensures
            hdr == (self == ColorTransfer::St2084Pq),
    {
        matches!(self, Self::St2084Pq)
    }
}

impl ColorPrimaries {
    /// The wire number of the primaries.
    pub open spec fn number(self) -> u32 {
        match self {
            ColorPrimaries::Srgb => PRIMARIES_SRGB,
            ColorPrimaries::Bt2020 => PRIMARIES_BT2020,
        }
    }

    /// The primaries with a given wire number, where they are ones that are understood.
    pub open spec fn of_number(primaries: u32) -> Option<ColorPrimaries> {
        if primaries == PRIMARIES_SRGB {
            Some(ColorPrimaries::Srgb)
        } else if primaries == PRIMARIES_BT2020 {
            Some(ColorPrimaries::Bt2020)
        } else {
            None
        }
    }

    /// What is made of named primaries.
    pub fn from_named(primaries: u32) -> (known: Option<Self>)
        ensures
            known == Self::of_number(primaries),
    {
        match primaries {
            PRIMARIES_SRGB => Some(Self::Srgb),
            PRIMARIES_BT2020 => Some(Self::Bt2020),
            _ => None,
        }
    }

    /// What is made of a primaries argument straight off the wire, which the protocol need not
    /// name at all.
    pub fn from_wire(raw: u32) -> (known: Option<Self>)
        ensures
            known == Self::of_number(raw),
    {
        match known_primaries(raw) {
            Some(primaries) => Self::from_named(primaries),
            None => None,
        }
    }

    /// The wire number under which the primaries are announced.
    pub fn to_named(self) -> (primaries: u32)
        ensures
            primaries == self.number(),
    {
        match self {
            Self::Srgb => PRIMARIES_SRGB,
            Self::Bt2020 => PRIMARIES_BT2020,
        }
    }
}

/// A CIE 1931 xy chromaticity coordinate, each part multiplied by one million.
#[derive(Clone, Copy, Debug, PartialEq, Eq, Structural)]
pub struct Chromaticity {
    pub x: i32,
    pub y: i32,
}

/// Primaries and white point, by their raw chromaticity coordinates.
#[derive(Clone, Copy, Debug, PartialEq, Eq, Structural)]
pub struct Chromaticities {
    pub red: Chromaticity,
    pub green: Chromaticity,
    pub blue: Chromaticity,
    pub white: Chromaticity,
}

/// The primaries that content is encoded with: a named set, or a client's own.
#[derive(Clone, Copy, Debug, PartialEq, Eq, Structural)]
pub enum ContainerPrimaries {
    Named(ColorPrimaries),
    Custom(Chromaticities),
}

impl ContainerPrimaries {
    /// The named set, if it is one.
    pub fn named(self) -> (named: Option<ColorPrimaries>)
        ensures
            named == (match self {
                ContainerPrimaries::Named(primaries) => Some(primaries),
                ContainerPrimaries::Custom(_) => None,
            }),
    {
        match self {
            Self::Named(primaries) => Some(primaries),
            Self::Custom(_) => None,
        }
    }

    /// The client's own chromaticities, if it gave them.
    pub fn values(self) -> (values: Option<Chromaticities>)
        ensures
            values == (match self {
                ContainerPrimaries::Named(_) => None,
                ContainerPrimaries::Custom(chromaticities) => Some(chromaticities),
            }),
    {
        match self {
            Self::Named(_) => None,
            Self::Custom(chromaticities) => Some(chromaticities),
        }
    }
}

/// A parsed, immutable image description. It is deliberately independent of the wire types so
/// that the protocol layer can be replaced.
#[derive(Clone, Copy, Debug, PartialEq, Eq, Structural)]
pub struct ImageDescription {
    pub transfer: ColorTransfer,
    pub primaries: ContainerPrimaries,
    /// Maximum content light level, cd/m² (if the client provided it).
    pub max_cll: Option<u16>,
    /// Maximum frame-average light level, cd/m² (if provided).
    pub max_fall: Option<u16>,
    /// Mastering display max luminance, cd/m² (if provided).
    pub mastering_max_luminance: Option<u16>,
    /// Mastering display primaries (if provided). They may exceed the container primaries.
    pub mastering_primaries: Option<Chromaticities>,
    /// Whether this is the predefined Windows BT.2100 description.
    pub windows_bt2100: bool,
}

impl ImageDescription {
    /// sRGB primaries and transfer function, with no metadata.
    pub open spec fn plain_srgb() -> ImageDescription {
        ImageDescription {
            transfer: ColorTransfer::Srgb,
            primaries: ContainerPrimaries::Named(ColorPrimaries::Srgb),
            max_cll: None,
            max_fall: None,
            mastering_max_luminance: None,
            mastering_primaries: None,
            windows_bt2100: false,
        }
    }

    /// sRGB / gamma 2.2: the default SDR description handed out for outputs.
    pub fn srgb() -> (desc: Self)
        ensures
            desc == Self::plain_srgb(),
    {
        Self {
            transfer: ColorTransfer::Srgb,
            primaries: ContainerPrimaries::Named(ColorPrimaries::Srgb),
            max_cll: None,
            max_fall: None,
            mastering_max_luminance: None,
            mastering_primaries: None,
            windows_bt2100: false,
        }
    }

    /// BT.2020 primaries and the PQ transfer function, as Windows drives an HDR screen with them.
    pub open spec fn windows_bt2100_encoding() -> ImageDescription {
        ImageDescription {
            transfer: ColorTransfer::St2084Pq,
            primaries: ContainerPrimaries::Named(ColorPrimaries::Bt2020),
            max_cll: None,
            max_fall: None,
            mastering_max_luminance: None,
            mastering_primaries: None,
            windows_bt2100: true,
        }
    }

    /// The predefined Windows BT.2100 description.
    pub fn windows_bt2100_description() -> (desc: Self)
        ensures
            desc == Self::windows_bt2100_encoding(),
    {
        Self {
            transfer: ColorTransfer::St2084Pq,
            primaries: ContainerPrimaries::Named(ColorPrimaries::Bt2020),
            max_cll: None,
            max_fall: None,
            mastering_max_luminance: None,
            mastering_primaries: None,
            windows_bt2100: true,
        }
    }

    /// Whether the description denotes HDR content.
    pub open spec fn denotes_hdr(self) -> bool {
        ||| self.transfer == ColorTransfer::St2084Pq
        ||| self.primaries == ContainerPrimaries::Named(ColorPrimaries::Bt2020)
    }

    /// Whether this description denotes HDR content (PQ transfer or BT.2020 wide gamut).
    pub fn is_hdr(&self) -> (hdr: bool)
        ensures
            hdr == self.denotes_hdr(),
    {
        self.transfer.is_hdr() || matches!(
            self.primaries,
            ContainerPrimaries::Named(ColorPrimaries::Bt2020)
        )
    }
}

/// What is known of an output's display, as its backend probed it.
#[derive(Clone, Copy, Debug, PartialEq, Eq, Structural)]
pub struct OutputHdrCaps {
    /// Whether the display takes a PQ / BT.2020 signal at all.
    pub supported: bool,
    /// Highest luminance, cd/m².
    pub max_luminance: u32,
    /// Lowest luminance, in units of 0.0001 cd/m².
    pub min_luminance: u32,
    /// Highest luminance averaged over a frame, cd/m².
    pub max_frame_avg_luminance: u32,
}

/// The HDR side of an output: what its configuration asks for, and what its display can do.
#[derive(Clone, Copy, Debug, PartialEq, Eq, Structural)]
pub struct OutputHdr {
    /// Whether the configuration keeps the output in HDR at all times.
    pub mode_on: bool,
    /// What the display can do, where the backend probed it.
    pub caps: Option<OutputHdrCaps>,
}

/// The luminances of the display that an image description stands for.
#[derive(Clone, Copy, Debug, PartialEq, Eq, Structural)]
pub struct DisplayLuminance {
    /// Lower end of the primary color volume, in units of 0.0001 cd/m².
    pub volume_min: u32,
    /// Upper end of the primary color volume, cd/m².
    pub volume_max: u32,
    /// Reference white, cd/m².
    pub reference: u32,
    /// Highest luminance that the display reaches, cd/m².
    pub target_max: u32,
    /// Lowest luminance that the display reaches, in units of 0.0001 cd/m².
    pub target_min: u32,
}

/// User data of a `wp_image_description_v1`: the image description that it represents, and the
/// display behind it where it describes one that runs in HDR.
#[derive(Clone, Copy, Debug, PartialEq, Eq, Structural)]
pub struct ImageDescriptionData {
    pub desc: ImageDescription,
    pub display: Option<DisplayLuminance>,
}

impl ImageDescriptionData {
    /// A description with no display behind it.
    pub open spec fn of(desc: ImageDescription) -> ImageDescriptionData {
        ImageDescriptionData { desc, display: None }
    }

    /// Wraps a description that a client put together.
    pub fn new(desc: ImageDescription) -> (data: Self)
        ensures
            data == Self::of(desc),
    {
        Self { desc, display: None }
    }
}

impl OutputHdr {
    /// An output that runs in SDR.
    pub open spec fn off() -> OutputHdr {
        OutputHdr { mode_on: false, caps: None }
    }

    /// Whether the output is kept in HDR: configured so, on a display that can do it.
    pub open spec fn always_hdr(self) -> bool {
        self.mode_on && self.caps is Some && self.caps->0.supported
    }

    /// The image description that stands for an output: PQ / BT.2020 with the display's
    /// luminances where the output is kept in HDR, sRGB everywhere else.
    pub open spec fn described(self) -> ImageDescriptionData {
        if self.always_hdr() {
            ImageDescriptionData {
                desc: ImageDescription {
                    transfer: ColorTransfer::St2084Pq,
                    primaries: ContainerPrimaries::Named(ColorPrimaries::Bt2020),
                    max_cll: None,
                    max_fall: None,
                    mastering_max_luminance: None,
                    mastering_primaries: None,
                    windows_bt2100: false,
                },
                display: Some(
                    DisplayLuminance {
                        volume_min: PQ_MIN_LUMINANCE,
                        volume_max: PQ_MAX_LUMINANCE,
                        reference: DEFAULT_REFERENCE_LUMINANCE,
                        target_max: self.caps->0.max_luminance,
                        target_min: self.caps->0.min_luminance,
                    },
                ),
            }
        } else {
            ImageDescriptionData::of(ImageDescription::plain_srgb())
        }
    }

    /// The HDR side of an output that runs in SDR.
    pub fn sdr() -> (hdr: Self)
        ensures
            hdr == Self::off(),
    {
        Self { mode_on: false, caps: None }
    }

    /// The image description to hand out for the output, and to recommend to surfaces on it.
    pub fn image_description(&self) -> (data: ImageDescriptionData)
        ensures
            data == self.described(),
    {
        if self.mode_on {
            if let Some(caps) = self.caps {
                if caps.supported {
                    return ImageDescriptionData {
                        desc: ImageDescription {
                            transfer: ColorTransfer::St2084Pq,
                            primaries: ContainerPrimaries::Named(ColorPrimaries::Bt2020),
                            max_cll: None,
                            max_fall: None,
                            mastering_max_luminance: None,
                            mastering_primaries: None,
                            windows_bt2100: false,
                        },
                        display: Some(
                            DisplayLuminance {
                                volume_min: PQ_MIN_LUMINANCE,
                                volume_max: PQ_MAX_LUMINANCE,
                                reference: DEFAULT_REFERENCE_LUMINANCE,
                                target_max: caps.max_luminance,
                                target_min: caps.min_luminance,
                            },
                        ),
                    };
                }
            }
        }
        ImageDescriptionData::new(ImageDescription::srgb())
    }
}

/// An event of `wp_image_description_info_v1`.
#[derive(Clone, Copy, Debug, PartialEq, Eq, Structural)]
pub enum InfoEvent {
    Primaries { chromaticities: Chromaticities },
    PrimariesNamed { primaries: u32 },
    TfNamed { tf: u32 },
    Luminances { min_lum: u32, max_lum: u32, reference_lum: u32 },
    TargetLuminance { min_lum: u32, max_lum: u32 },
    /// Destroys the object it is sent on.
    Done,
}

/// The event that tells a client the primaries: by name where they have one.
pub open spec fn primaries_event(primaries: ContainerPrimaries) -> InfoEvent {
    match primaries {
        ContainerPrimaries::Named(named) => InfoEvent::PrimariesNamed {
            primaries: named.number(),
        },
        ContainerPrimaries::Custom(chromaticities) => InfoEvent::Primaries { chromaticities },
    }
}

/// The events that tell a client what an image description holds, the destructor last.
pub open spec fn info_events(data: ImageDescriptionData) -> Seq<InfoEvent> {
    let characteristics = seq![
        primaries_event(data.desc.primaries),
        InfoEvent::TfNamed { tf: data.desc.transfer.number() },
    ];
    let luminances = match data.display {
        Some(display) => seq![
            InfoEvent::Luminances {
                min_lum: display.volume_min,
                max_lum: display.volume_max,
                reference_lum: display.reference,
            },
            InfoEvent::TargetLuminance {
                min_lum: display.target_min,
                max_lum: display.target_max,
            },
        ],
        None => Seq::empty(),
    };
    (characteristics + luminances).push(InfoEvent::Done)
}

/// The information events to send for `data`, terminating with the destructor `done`; none where
/// the client has destroyed the object meanwhile (`alive` is false).
///
/// They must go out only after the request callback that created the object has returned: `done`
/// destroys the object, and the callback's caller still writes to it.
pub fn send_image_description_info(alive: bool, data: &ImageDescriptionData) -> (events: Vec<
    InfoEvent,
>)
    ensures
        alive ==> events@ == info_events(*data),
        !alive ==> events@ == Seq::<InfoEvent>::empty(),
{
    let mut events: Vec<InfoEvent> = Vec::new();
    if !alive {
        return events;
    }
    events.push(
        match data.desc.primaries {
            ContainerPrimaries::Named(named) => InfoEvent::PrimariesNamed {
                primaries: named.to_named(),
            },
            ContainerPrimaries::Custom(chromaticities) => InfoEvent::Primaries { chromaticities },
        },
    );
    events.push(InfoEvent::TfNamed { tf: data.desc.transfer.to_named() });
    if let Some(display) = data.display {
        events.push(
            InfoEvent::Luminances {
                min_lum: display.volume_min,
                max_lum: display.volume_max,
                reference_lum: display.reference,
            },
        );
        events.push(
            InfoEvent::TargetLuminance {
                min_lum: display.target_min,
                max_lum: display.target_max,
            },
        );
    }
    events.push(InfoEvent::Done);
    assert(events@ =~= info_events(*data));
    events
}

} // verus!
