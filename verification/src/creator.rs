//! `wp_image_description_creator_params_v1`: a client puts an image description together, one
//! parameter at a time.

use crate::description::{
    Chromaticities, ColorPrimaries, ColorTransfer, ContainerPrimaries, ImageDescription,
};
use vstd::prelude::*;

verus! {

/// Accumulated parameters of a creator, mutated as the client sets them and validated on
/// `create`.
#[derive(Clone, Copy, Debug, PartialEq, Eq, Structural)]
pub struct ParamsState {
    pub transfer: Option<ColorTransfer>,
    /// Named or custom: there is one set of primaries, whichever way it is given.
    pub primaries: Option<ContainerPrimaries>,
    pub max_cll: Option<u16>,
    pub max_fall: Option<u16>,
    pub mastering_max_luminance: Option<u16>,
    pub mastering_primaries: Option<Chromaticities>,
}

/// A request on a creator. Arguments that have no bearing on the outcome are left out.
#[derive(Clone, Copy, Debug, PartialEq, Eq, Structural)]
pub enum CreatorRequest {
    SetTfNamed { tf: u32 },
    SetPrimariesNamed { primaries: u32 },
    SetMasteringLuminance { min_lum: u32, max_lum: u32 },
    SetMaxCll { max_cll: u32 },
    SetMaxFall { max_fall: u32 },
    SetLuminances,
    SetMasteringDisplayPrimaries { chromaticities: Chromaticities },
    SetTfPower,
    SetPrimaries { chromaticities: Chromaticities },
    Create,
    /// A request of a later protocol version.
    Other,
}

/// Why a creator's request was refused.
#[derive(Clone, Copy, Debug, PartialEq, Eq, Structural)]
pub enum CreatorRejection {
    TransferAlreadySet,
    UnsupportedTransfer,
    PrimariesAlreadySet,
    UnsupportedPrimaries,
    TfPower,
    Incomplete,
}

/// `wp_image_description_creator_params_v1.error`, as far as it is raised.
#[derive(Clone, Copy, Debug, PartialEq, Eq, Structural)]
pub enum CreatorError {
    IncompleteSet,
    AlreadySet,
    UnsupportedFeature,
    InvalidTf,
    InvalidPrimariesNamed,
}

/// What came of a creator's request.
#[derive(Clone, Copy, Debug, PartialEq, Eq, Structural)]
pub enum CreatorOutcome {
    /// There is nothing to answer.
    Accepted,
    /// A protocol error is raised.
    Rejected(CreatorRejection),
    /// The description is complete.
    Created(ImageDescription),
}

impl CreatorRejection {
    /// The protocol error that a refusal is raised as.
    pub open spec fn raises(self) -> CreatorError {
        match self {
            CreatorRejection::TransferAlreadySet => CreatorError::AlreadySet,
            CreatorRejection::UnsupportedTransfer => CreatorError::InvalidTf,
            CreatorRejection::PrimariesAlreadySet => CreatorError::AlreadySet,
            CreatorRejection::UnsupportedPrimaries => CreatorError::InvalidPrimariesNamed,
            CreatorRejection::TfPower => CreatorError::UnsupportedFeature,
            CreatorRejection::Incomplete => CreatorError::IncompleteSet,
        }
    }

    /// The text that goes with a refusal.
    pub open spec fn text(self) -> Seq<char> {
        match self {
            CreatorRejection::TransferAlreadySet => "transfer function already set"@,
            CreatorRejection::UnsupportedTransfer => "unsupported transfer function"@,
            CreatorRejection::PrimariesAlreadySet => "primaries already set"@,
            CreatorRejection::UnsupportedPrimaries => "unsupported primaries"@,
            CreatorRejection::TfPower => "set_tf_power is not supported"@,
            CreatorRejection::Incomplete => "transfer function and primaries are both required"@,
        }
    }

    /// The protocol error to raise.
    pub fn error(self) -> (error: CreatorError)
        ensures
            error == self.raises(),
    {
        match self {
            Self::TransferAlreadySet => CreatorError::AlreadySet,
            Self::UnsupportedTransfer => CreatorError::InvalidTf,
            Self::PrimariesAlreadySet => CreatorError::AlreadySet,
            Self::UnsupportedPrimaries => CreatorError::InvalidPrimariesNamed,
            Self::TfPower => CreatorError::UnsupportedFeature,
            Self::Incomplete => CreatorError::IncompleteSet,
        }
    }

    /// The text to send with the protocol error.
    pub fn message(self) -> (message: &'static str)
        ensures
            message@ == self.text(),
    {
        match self {
            Self::TransferAlreadySet => "transfer function already set",
            Self::UnsupportedTransfer => "unsupported transfer function",
            Self::PrimariesAlreadySet => "primaries already set",
            Self::UnsupportedPrimaries => "unsupported primaries",
            Self::TfPower => "set_tf_power is not supported",
            Self::Incomplete => "transfer function and primaries are both required",
        }
    }
}

/// A luminance in whole cd/m², capped at what is stored of it.
pub open spec fn capped(v: u32) -> u16 {
    if v <= u16::MAX {
        v as u16
    } else {
        u16::MAX
    }
}

/// Caps a luminance at what is stored of it.
pub fn u32_to_u16(v: u32) -> (r: u16)
    ensures
        r == capped(v),
{
    match u16::try_from(v) {
        Ok(n) => n,
        Err(_) => u16::MAX,
    }
}

impl ParamsState {
    /// A creator on which nothing has been set.
    pub open spec fn unset() -> ParamsState {
        ParamsState {
            transfer: None,
            primaries: None,
            max_cll: None,
            max_fall: None,
            mastering_max_luminance: None,
            mastering_primaries: None,
        }
    }

    /// Whether everything that a description cannot do without has been set.
    pub open spec fn complete(self) -> bool {
        self.transfer is Some && self.primaries is Some
    }

    /// The description that the parameters amount to.
    pub open spec fn described(self) -> ImageDescription
        recommends
            self.complete(),
    {
        ImageDescription {
            transfer: self.transfer->0,
            primaries: self.primaries->0,
            max_cll: self.max_cll,
            max_fall: self.max_fall,
            mastering_max_luminance: self.mastering_max_luminance,
            mastering_primaries: self.mastering_primaries,
            windows_bt2100: false,
        }
    }

    /// What a request is answered on a creator with these parameters.
    ///
    /// The transfer function and the primaries are set once: the transfer function to one that is
    /// understood, the primaries to ones that are understood or to a client's own. What describes
    /// the mastering display and the content may be set over again. A power curve for a transfer
    /// function is refused.
    pub open spec fn outcome(self, request: CreatorRequest) -> CreatorOutcome {
        match request {
            CreatorRequest::SetTfNamed { tf } => if self.transfer is Some {
                CreatorOutcome::Rejected(CreatorRejection::TransferAlreadySet)
            } else if ColorTransfer::of_number(tf) is None {
                CreatorOutcome::Rejected(CreatorRejection::UnsupportedTransfer)
            } else {
                CreatorOutcome::Accepted
            },
            CreatorRequest::SetPrimariesNamed { primaries } => if self.primaries is Some {
                CreatorOutcome::Rejected(CreatorRejection::PrimariesAlreadySet)
            } else if ColorPrimaries::of_number(primaries) is None {
                CreatorOutcome::Rejected(CreatorRejection::UnsupportedPrimaries)
            } else {
                CreatorOutcome::Accepted
            },
            CreatorRequest::SetTfPower => CreatorOutcome::Rejected(CreatorRejection::TfPower),
            CreatorRequest::SetPrimaries { .. } => if self.primaries is Some {
                CreatorOutcome::Rejected(CreatorRejection::PrimariesAlreadySet)
            } else {
                CreatorOutcome::Accepted
            },
            CreatorRequest::Create => if self.complete() {
                CreatorOutcome::Created(self.described())
            } else {
                CreatorOutcome::Rejected(CreatorRejection::Incomplete)
            },
            _ => CreatorOutcome::Accepted,
        }
    }

    /// The parameters after a request: an accepted one sets what it names, and nothing else.
    pub open spec fn after(self, request: CreatorRequest) -> ParamsState {
        if self.outcome(request) != CreatorOutcome::Accepted {
            self
        } else {
            match request {
                CreatorRequest::SetTfNamed { tf } => ParamsState {
                    transfer: ColorTransfer::of_number(tf),
                    ..self
                },
                CreatorRequest::SetPrimariesNamed { primaries } => ParamsState {
                    primaries: Some(
                        ContainerPrimaries::Named(ColorPrimaries::of_number(primaries)->0),
                    ),
                    ..self
                },
                CreatorRequest::SetPrimaries { chromaticities } => ParamsState {
                    primaries: Some(ContainerPrimaries::Custom(chromaticities)),
                    ..self
                },
                CreatorRequest::SetMasteringDisplayPrimaries { chromaticities } => ParamsState {
                    mastering_primaries: Some(chromaticities),
                    ..self
                },
                CreatorRequest::SetMasteringLuminance { min_lum: _, max_lum } => ParamsState {
                    mastering_max_luminance: Some(capped(max_lum)),
                    ..self
                },
                CreatorRequest::SetMaxCll { max_cll } => ParamsState {
                    max_cll: Some(capped(max_cll)),
                    ..self
                },
                CreatorRequest::SetMaxFall { max_fall } => ParamsState {
                    max_fall: Some(capped(max_fall)),
                    ..self
                },
                _ => self,
            }
        }
    }

    /// Handles a request on the creator.
    pub fn request(&mut self, request: CreatorRequest) -> (outcome: CreatorOutcome)
        ensures
            outcome == old(self).outcome(request),
            *final(self) == old(self).after(request),
    {
        match request {
            CreatorRequest::SetTfNamed { tf } => {
                if self.transfer.is_some() {
                    return CreatorOutcome::Rejected(CreatorRejection::TransferAlreadySet);
                }
                match ColorTransfer::from_wire(tf) {
                    Some(tf) => {
                        self.transfer = Some(tf);
                        CreatorOutcome::Accepted
                    },
                    None => CreatorOutcome::Rejected(CreatorRejection::UnsupportedTransfer),
                }
            },
            CreatorRequest::SetPrimariesNamed { primaries } => {
                if self.primaries.is_some() {
                    return CreatorOutcome::Rejected(CreatorRejection::PrimariesAlreadySet);
                }
                match ColorPrimaries::from_wire(primaries) {
                    Some(p) => {
                        self.primaries = Some(ContainerPrimaries::Named(p));
                        CreatorOutcome::Accepted
                    },
                    None => CreatorOutcome::Rejected(CreatorRejection::UnsupportedPrimaries),
                }
            },
            CreatorRequest::SetPrimaries { chromaticities } => {
                if self.primaries.is_some() {
                    return CreatorOutcome::Rejected(CreatorRejection::PrimariesAlreadySet);
                }
                self.primaries = Some(ContainerPrimaries::Custom(chromaticities));
                CreatorOutcome::Accepted
            },
            CreatorRequest::SetMasteringDisplayPrimaries { chromaticities } => {
                self.mastering_primaries = Some(chromaticities);
                CreatorOutcome::Accepted
            },
            CreatorRequest::SetMasteringLuminance { min_lum: _, max_lum } => {
                self.mastering_max_luminance = Some(u32_to_u16(max_lum));
                CreatorOutcome::Accepted
            },
            CreatorRequest::SetMaxCll { max_cll } => {
                self.max_cll = Some(u32_to_u16(max_cll));
                CreatorOutcome::Accepted
            },
            CreatorRequest::SetMaxFall { max_fall } => {
                self.max_fall = Some(u32_to_u16(max_fall));
                CreatorOutcome::Accepted
            },
            // Advertised so that clients may call it; the values are not used yet.
            CreatorRequest::SetLuminances => CreatorOutcome::Accepted,
            // Not advertised: refused, as the protocol asks.
            CreatorRequest::SetTfPower => CreatorOutcome::Rejected(CreatorRejection::TfPower),
            CreatorRequest::Create => {
                match (self.transfer, self.primaries) {
                    (Some(transfer), Some(primaries)) => CreatorOutcome::Created(
                        ImageDescription {
                            transfer,
                            primaries,
                            max_cll: self.max_cll,
                            max_fall: self.max_fall,
                            mastering_max_luminance: self.mastering_max_luminance,
                            mastering_primaries: self.mastering_primaries,
                            windows_bt2100: false,
                        },
                    ),
                    _ => CreatorOutcome::Rejected(CreatorRejection::Incomplete),
                }
            },
            CreatorRequest::Other => CreatorOutcome::Accepted,
        }
    }
}

impl Default for ParamsState {
    fn default() -> (params: Self)
        ensures
            params == ParamsState::unset(),
    {
        ParamsState {
            transfer: None,
            primaries: None,
            max_cll: None,
            max_fall: None,
            mastering_max_luminance: None,
            mastering_primaries: None,
        }
    }
}

} // verus!
