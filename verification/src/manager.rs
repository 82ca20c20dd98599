//! `wp_color_manager_v1` and the objects that it hands out: outputs, surface feedback and image
//! descriptions.

use crate::creator::{CreatorOutcome, CreatorRejection, CreatorRequest, ParamsState};
use crate::description::{ImageDescription, ImageDescriptionData, OutputHdr};
use crate::wire::{PRIMARIES_BT2020, PRIMARIES_SRGB, TF_GAMMA22, TF_SRGB, TF_ST2084_PQ};
use vstd::prelude::*;

verus! {

/// Version of the global that is advertised.
pub const VERSION: u32 = 1;

/// `wp_color_manager_v1.feature`.
#[derive(Clone, Copy, Debug, PartialEq, Eq, Structural)]
pub enum Feature {
    IccV2V4,
    Parametric,
    SetPrimaries,
    SetTfPower,
    SetLuminances,
    SetMasteringDisplayPrimaries,
    ExtendedTargetVolume,
    WindowsScrgb,
    WindowsBt2100,
}

/// An event of `wp_color_manager_v1`.
#[derive(Clone, Copy, Debug, PartialEq, Eq, Structural)]
pub enum ManagerEvent {
    SupportedIntentPerceptual,
    SupportedFeature(Feature),
    SupportedTfNamed { tf: u32 },
    SupportedPrimariesNamed { primaries: u32 },
    Done,
}

/// A request on the manager. The objects it names are the caller's.
#[derive(Clone, Copy, Debug, PartialEq, Eq, Structural)]
pub enum ManagerRequest {
    GetOutput,
    GetSurface,
    GetSurfaceFeedback,
    CreateParametricCreator,
    CreateIccCreator,
    CreateWindowsScrgb,
    CreateWindowsBt2100,
    Destroy,
    /// A request of a later protocol version.
    Other,
}

/// Why a request on the manager was refused.
#[derive(Clone, Copy, Debug, PartialEq, Eq, Structural)]
pub enum ManagerRejection {
    IccCreator,
    WindowsScrgb,
}

/// `wp_color_manager_v1.error`, as far as it is raised.
#[derive(Clone, Copy, Debug, PartialEq, Eq, Structural)]
pub enum ManagerError {
    UnsupportedFeature,
}

/// What to do about a request on the manager.
#[derive(Clone, Copy, Debug, PartialEq, Eq, Structural)]
pub enum ManagerAction {
    /// Initialize the color management output object, for the output of the request.
    InitOutput,
    /// Initialize the color management surface object, for the surface of the request.
    InitSurface,
    /// Initialize the surface feedback object, for the surface of the request.
    InitSurfaceFeedback,
    /// Initialize the creator object, with these parameters.
    InitCreator(ParamsState),
    /// Initialize the image description object of the request.
    Ready(ReadyDescription),
    /// Raise a protocol error.
    Reject(ManagerRejection),
    Nothing,
}

impl ManagerRejection {
    /// The text that goes with a refusal.
    pub open spec fn text(self) -> Seq<char> {
        match self {
            ManagerRejection::IccCreator => "ICC image descriptions are not supported"@,
            ManagerRejection::WindowsScrgb =>
                "Windows scRGB image descriptions are not supported"@,
        }
    }

    /// The protocol error to raise.
    pub fn error(self) -> (error: ManagerError)
        ensures
            error == ManagerError::UnsupportedFeature,
    {
        ManagerError::UnsupportedFeature
    }

    /// The text to send with the protocol error.
    pub fn message(self) -> (message: &'static str)
        ensures
            message@ == self.text(),
    {
        match self {
            Self::IccCreator => "ICC image descriptions are not supported",
            Self::WindowsScrgb => "Windows scRGB image descriptions are not supported",
        }
    }
}

impl ManagerRequest {
    /// What is done about the request, with these identities in use.
    pub open spec fn action(self, identities: IdentityView) -> ManagerAction {
        match self {
            ManagerRequest::GetOutput => ManagerAction::InitOutput,
            ManagerRequest::GetSurface => ManagerAction::InitSurface,
            ManagerRequest::GetSurfaceFeedback => ManagerAction::InitSurfaceFeedback,
            ManagerRequest::CreateParametricCreator => ManagerAction::InitCreator(
                ParamsState::unset(),
            ),
            ManagerRequest::CreateIccCreator => ManagerAction::Reject(
                ManagerRejection::IccCreator,
            ),
            ManagerRequest::CreateWindowsScrgb => ManagerAction::Reject(
                ManagerRejection::WindowsScrgb,
            ),
            ManagerRequest::CreateWindowsBt2100 => ManagerAction::Ready(
                ReadyDescription {
                    data: ImageDescriptionData::of(ImageDescription::windows_bt2100_encoding()),
                    identity: identities.next,
                },
            ),
            ManagerRequest::Destroy => ManagerAction::Nothing,
            ManagerRequest::Other => ManagerAction::Nothing,
        }
    }
}

/// Global data for `wp_color_manager_v1`, carrying the visibility filter. The global is only
/// shown to clients for which the filter returns true.
pub struct ColorManagementGlobalData<F> {
    pub filter: F,
}

/// Whether a client gets to see the global.
pub fn can_view<C, F: Fn(&C) -> bool>(
    client: C,
    global_data: &ColorManagementGlobalData<F>,
) -> (visible: bool)
    requires
        call_requires(global_data.filter, (&client,)),
    ensures
        call_ensures(global_data.filter, (&client,), visible),
{
    (global_data.filter)(&client)
}

/// The supported subset, in the order in which it is advertised; `done` terminates it.
pub open spec fn advertised() -> Seq<ManagerEvent> {
    seq![
        ManagerEvent::SupportedIntentPerceptual,
        ManagerEvent::SupportedFeature(Feature::Parametric),
        ManagerEvent::SupportedFeature(Feature::SetMasteringDisplayPrimaries),
        ManagerEvent::SupportedFeature(Feature::SetLuminances),
        ManagerEvent::SupportedTfNamed { tf: TF_SRGB },
        ManagerEvent::SupportedTfNamed { tf: TF_GAMMA22 },
        ManagerEvent::SupportedTfNamed { tf: TF_ST2084_PQ },
        ManagerEvent::SupportedPrimariesNamed { primaries: PRIMARIES_SRGB },
        ManagerEvent::SupportedPrimariesNamed { primaries: PRIMARIES_BT2020 },
        ManagerEvent::Done,
    ]
}

/// The events to send to a client that has just bound the global.
pub fn bind() -> (events: Vec<ManagerEvent>)
    ensures
        events@ == advertised(),
{
    let mut events: Vec<ManagerEvent> = Vec::new();
    events.push(ManagerEvent::SupportedIntentPerceptual);
    events.push(ManagerEvent::SupportedFeature(Feature::Parametric));
    // So that HDR clients can convey mastering metadata without an error.
    events.push(ManagerEvent::SupportedFeature(Feature::SetMasteringDisplayPrimaries));
    events.push(ManagerEvent::SupportedFeature(Feature::SetLuminances));
    events.push(ManagerEvent::SupportedTfNamed { tf: TF_SRGB });
    events.push(ManagerEvent::SupportedTfNamed { tf: TF_GAMMA22 });
    events.push(ManagerEvent::SupportedTfNamed { tf: TF_ST2084_PQ });
    events.push(ManagerEvent::SupportedPrimariesNamed { primaries: PRIMARIES_SRGB });
    events.push(ManagerEvent::SupportedPrimariesNamed { primaries: PRIMARIES_BT2020 });
    events.push(ManagerEvent::Done);
    assert(events@ =~= advertised());
    events
}

/// A request on an image description.
#[derive(Clone, Copy, Debug, PartialEq, Eq, Structural)]
pub enum DescriptionRequest {
    GetInformation,
    Destroy,
    /// A request of a later protocol version.
    Other,
}

/// Handles a request on an image description. Returns the data whose information events are to
/// be scheduled, where the client asks for them.
///
/// The events are not sent here: the last of them destroys the object that the request creates,
/// so they have to wait until the request has been dealt with. The named characteristics are
/// reported even of a description that a client made itself.
pub fn description_request(request: DescriptionRequest, data: &ImageDescriptionData) -> (schedule:
    Option<ImageDescriptionData>)
    ensures
        schedule == (if request == DescriptionRequest::GetInformation {
            Some(*data)
        } else {
            None
        }),
{
    match request {
        DescriptionRequest::GetInformation => Some(*data),
        DescriptionRequest::Destroy | DescriptionRequest::Other => None,
    }
}

/// A request on a color management output.
#[derive(Clone, Copy, Debug, PartialEq, Eq, Structural)]
pub enum OutputRequest {
    GetImageDescription,
    Destroy,
    /// A request of a later protocol version.
    Other,
}

/// A request on a surface feedback object.
#[derive(Clone, Copy, Debug, PartialEq, Eq, Structural)]
pub enum FeedbackRequest {
    GetPreferred,
    GetPreferredParametric,
    Destroy,
    /// A request of a later protocol version.
    Other,
}

/// An image description object to initialize with `data` and mark ready under `identity` at once.
#[derive(Clone, Copy, Debug, PartialEq, Eq, Structural)]
pub struct ReadyDescription {
    pub data: ImageDescriptionData,
    pub identity: u32,
}

/// What to do about a request on a creator.
#[derive(Clone, Copy, Debug, PartialEq, Eq, Structural)]
pub enum CreatorAction {
    Nothing,
    Reject(CreatorRejection),
    Ready(ReadyDescription),
}

/// What a compositor's color management state amounts to.
pub struct IdentityView {
    /// The identity that the next new image description gets.
    pub next: u32,
    /// The preferred descriptions handed out so far, with their identities.
    pub preferred: Map<ImageDescriptionData, u32>,
}

/// The state that all image descriptions of a compositor share.
pub struct ColorManagementState {
    next_identity: u32,
    preferred: Vec<(ImageDescriptionData, u32)>,
}

/// The identity after `identity`: identities count up through all of `u32` but 0, and start over
/// at 1.
pub open spec fn following(identity: u32) -> u32 {
    if identity == u32::MAX {
        1
    } else {
        (identity + 1) as u32
    }
}

/// The map that a list of entries amounts to; a later entry wins.
spec fn entries_map(entries: Seq<(ImageDescriptionData, u32)>) -> Map<ImageDescriptionData, u32>
    decreases entries.len(),
{
    if entries.len() == 0 {
        Map::empty()
    } else {
        entries_map(entries.drop_last()).insert(entries.last().0, entries.last().1)
    }
}

impl View for ColorManagementState {
    type V = IdentityView;

    closed spec fn view(&self) -> IdentityView {
        IdentityView { next: self.next_identity, preferred: entries_map(self.preferred@) }
    }
}

impl IdentityView {
    /// No identity is 0.
    pub open spec fn valid(self) -> bool {
        &&& self.next != 0
        &&& forall|data: ImageDescriptionData| #[trigger]
            self.preferred.contains_key(data) ==> self.preferred[data] != 0
    }

    /// The identity of a preferred description: the one it has, or else a new one.
    pub open spec fn preferred_identity(self, data: ImageDescriptionData) -> u32 {
        if self.preferred.contains_key(data) {
            self.preferred[data]
        } else {
            self.next
        }
    }

    /// The state after a new description was handed out.
    pub open spec fn after_new(self) -> IdentityView {
        IdentityView { next: following(self.next), preferred: self.preferred }
    }

    /// The state after a preferred description was handed out.
    pub open spec fn after_preferred(self, data: ImageDescriptionData) -> IdentityView {
        if self.preferred.contains_key(data) {
            self
        } else {
            IdentityView {
                next: following(self.next),
                preferred: self.preferred.insert(data, self.next),
            }
        }
    }
}

impl ColorManagementState {
    #[verifier::type_invariant]
    spec fn inv(self) -> bool {
        self@.valid()
    }

    /// The state of a compositor that has handed out no description yet.
    pub fn new() -> (state: Self)
        ensures
            state@.next == 1,
            state@.preferred == Map::<ImageDescriptionData, u32>::empty(),
    {
        Self { next_identity: 1, preferred: Vec::new() }
    }

    /// Takes the next identity.
    pub fn next_identity(&mut self) -> (id: u32)
        ensures
            id == old(self)@.next,
            id != 0,
            final(self)@ == old(self)@.after_new(),
            final(self)@.valid(),
    {
        proof {
            use_type_invariant(&*self);
        }
        let id = self.next_identity;
        let next: u32 = id.wrapping_add(1).max(1);
        assert(next == following(id));
        assert((Self { next_identity: next, ..*self })@ == self@.after_new());
        self.next_identity = next;
        id
    }

    /// An image description object that holds `data`, ready under an identity of its own.
    pub fn make_ready_description(&mut self, data: ImageDescriptionData) -> (ready:
        ReadyDescription)
        ensures
            ready == (ReadyDescription { data, identity: old(self)@.next }),
            ready.identity != 0,
            final(self)@ == old(self)@.after_new(),
            final(self)@.valid(),
    {
        let identity = self.next_identity();
        ReadyDescription { data, identity }
    }

    /// The identity that `data` was last handed out under as a preferred description, if it was.
    fn known_identity(&self, data: ImageDescriptionData) -> (identity: Option<u32>)
        ensures
            identity == (if self@.preferred.contains_key(data) {
                Some(self@.preferred[data])
            } else {
                None
            }),
    {
        let mut i: usize = self.preferred.len();
        assert(self.preferred@.take(i as int) =~= self.preferred@);
        while i > 0
            invariant
                i <= self.preferred@.len(),
                self@.preferred.contains_key(data) == entries_map(
                    self.preferred@.take(i as int),
                ).contains_key(data),
                self@.preferred.contains_key(data) ==> self@.preferred[data] == entries_map(
                    self.preferred@.take(i as int),
                )[data],
            decreases i,
        {
            assert(self.preferred@.take(i as int).drop_last() =~= self.preferred@.take(i - 1));
            let entry = self.preferred[i - 1];
            if entry.0 == data {
                return Some(entry.1);
            }
            i = i - 1;
        }
        None
    }

    /// An image description object that holds the preferred description `data`, ready. One and
    /// the same preferred description keeps its identity, however often it is asked for.
    pub fn make_preferred_description(&mut self, data: ImageDescriptionData) -> (ready:
        ReadyDescription)
        ensures
            ready == (ReadyDescription { data, identity: old(self)@.preferred_identity(data) }),
            ready.identity != 0,
            final(self)@ == old(self)@.after_preferred(data),
            final(self)@.valid(),
    {
        proof {
            use_type_invariant(&*self);
        }
        let identity = match self.known_identity(data) {
            Some(identity) => identity,
            None => {
                let identity = self.next_identity();
                let mut entries: Vec<(ImageDescriptionData, u32)> = Vec::new();
                std::mem::swap(&mut entries, &mut self.preferred);
                let ghost before = entries@;
                entries.push((data, identity));
                assert(entries@.drop_last() =~= before);
                self.preferred = entries;
                identity
            },
        };
        ReadyDescription { data, identity }
    }

    /// Handles a request on the manager.
    pub fn manager_request(&mut self, request: ManagerRequest) -> (action: ManagerAction)
        ensures
            action == request.action(old(self)@),
            action is Ready ==> action->Ready_0.identity != 0,
            final(self)@ == (if request == ManagerRequest::CreateWindowsBt2100 {
                old(self)@.after_new()
            } else {
                old(self)@
            }),
    {
        match request {
            ManagerRequest::GetOutput => ManagerAction::InitOutput,
            ManagerRequest::GetSurface => ManagerAction::InitSurface,
            ManagerRequest::GetSurfaceFeedback => ManagerAction::InitSurfaceFeedback,
            ManagerRequest::CreateParametricCreator => {
                ManagerAction::InitCreator(ParamsState::default())
            },
            ManagerRequest::CreateIccCreator => {
                ManagerAction::Reject(ManagerRejection::IccCreator)
            },
            ManagerRequest::CreateWindowsScrgb => {
                ManagerAction::Reject(ManagerRejection::WindowsScrgb)
            },
            ManagerRequest::CreateWindowsBt2100 => {
                let data = ImageDescriptionData::new(ImageDescription::windows_bt2100_description());
                ManagerAction::Ready(self.make_ready_description(data))
            },
            ManagerRequest::Destroy | ManagerRequest::Other => ManagerAction::Nothing,
        }
    }

    /// Handles a request on a color management output, on which `hdr` is known. Returns the image
    /// description object to initialize, where the client asks for one.
    pub fn output_request(&mut self, request: OutputRequest, hdr: &OutputHdr) -> (ready: Option<
        ReadyDescription,
    >)
        ensures
            request == OutputRequest::GetImageDescription ==> {
                &&& ready == Some(
                    ReadyDescription { data: hdr.described(), identity: old(self)@.next },
                )
                &&& final(self)@ == old(self)@.after_new()
            },
            request != OutputRequest::GetImageDescription ==> {
                &&& ready is None
                &&& final(self)@ == old(self)@
            },
            ready is Some ==> ready->0.identity != 0,
    {
        match request {
            OutputRequest::GetImageDescription => {
                Some(self.make_ready_description(hdr.image_description()))
            },
            OutputRequest::Destroy | OutputRequest::Other => None,
        }
    }

    /// Handles a request on a surface feedback object, for a surface on an output of which `hdr`
    /// is known. Returns the image description object to initialize, where the client asks for
    /// one.
    pub fn feedback_request(&mut self, request: FeedbackRequest, hdr: &OutputHdr) -> (ready:
        Option<ReadyDescription>)
        ensures
            request.asks_preferred() ==> {
                &&& ready == Some(
                    ReadyDescription {
                        data: hdr.described(),
                        identity: old(self)@.preferred_identity(hdr.described()),
                    },
                )
                &&& final(self)@ == old(self)@.after_preferred(hdr.described())
            },
            !request.asks_preferred() ==> {
                &&& ready is None
                &&& final(self)@ == old(self)@
            },
            ready is Some ==> ready->0.identity != 0,
    {
        match request {
            FeedbackRequest::GetPreferred | FeedbackRequest::GetPreferredParametric => {
                Some(self.make_preferred_description(hdr.image_description()))
            },
            FeedbackRequest::Destroy | FeedbackRequest::Other => None,
        }
    }

    /// Handles a request on a creator with parameters `params`.
    pub fn params_request(&mut self, params: &mut ParamsState, request: CreatorRequest) -> (action:
        CreatorAction)
        ensures
            *final(params) == old(params).after(request),
            match old(params).outcome(request) {
                CreatorOutcome::Accepted => {
                    &&& action == CreatorAction::Nothing
                    &&& final(self)@ == old(self)@
                },
                CreatorOutcome::Rejected(rejection) => {
                    &&& action == CreatorAction::Reject(rejection)
                    &&& final(self)@ == old(self)@
                },
                CreatorOutcome::Created(desc) => {
                    &&& action == CreatorAction::Ready(
                        ReadyDescription {
                            data: ImageDescriptionData::of(desc),
                            identity: old(self)@.next,
                        },
                    )
                    &&& old(self)@.next != 0
                    &&& final(self)@ == old(self)@.after_new()
                },
            },
    {
        match params.request(request) {
            CreatorOutcome::Accepted => CreatorAction::Nothing,
            CreatorOutcome::Rejected(rejection) => CreatorAction::Reject(rejection),
            CreatorOutcome::Created(desc) => CreatorAction::Ready(
                self.make_ready_description(ImageDescriptionData::new(desc)),
            ),
        }
    }
}

impl FeedbackRequest {
    /// Whether the request is for the preferred description.
    pub open spec fn asks_preferred(self) -> bool {
        self == FeedbackRequest::GetPreferred || self == FeedbackRequest::GetPreferredParametric
    }
}

} // verus!
