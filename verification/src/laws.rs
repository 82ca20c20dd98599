//! What holds of the library as a whole.

use crate::blend::{
    adjust_tex_program_for_content, hdr_override, override_view, restore_tex_program, restored,
    set_frame_blend, BlendUniform, CommittedDescription, ContentColor, FrameBlendState,
    FrameRenderer, OverrideView, TexProgramOverride,
};
use crate::creator::{
    capped, u32_to_u16, CreatorError, CreatorOutcome, CreatorRejection, CreatorRequest,
    ParamsState,
};
use crate::description::{
    info_events, Chromaticities, ColorPrimaries, ColorTransfer, ContainerPrimaries,
    ImageDescription, ImageDescriptionData, InfoEvent, OutputHdr, DEFAULT_REFERENCE_LUMINANCE,
};
use crate::manager::{
    advertised, following, ColorManagementState, CreatorAction, Feature, FeedbackRequest,
    IdentityView, ManagerAction, ManagerEvent, ManagerRequest, OutputRequest, ReadyDescription,
};
use crate::surface::{
    surface_image_description, surface_request, SurfaceColorData, SurfaceRequest,
};
use crate::wire::{
    names_primaries, names_transfer_function, PRIMARIES_BT2020, PRIMARIES_SRGB, TF_GAMMA22,
    TF_SRGB, TF_ST2084_PQ,
};
use vstd::prelude::*;

verus! {

/// A transfer function and its wire number determine each other.
pub proof fn transfer_number_round_trip(transfer: ColorTransfer, tf: u32)
    ensures
        ColorTransfer::of_number(transfer.number()) == Some(transfer),
        ColorTransfer::of_number(tf) == Some(transfer) <==> tf == transfer.number(),
{
}

/// Primaries and their wire number determine each other.
pub proof fn primaries_number_round_trip(known: ColorPrimaries, primaries: u32)
    ensures
        ColorPrimaries::of_number(known.number()) == Some(known),
        ColorPrimaries::of_number(primaries) == Some(known) <==> primaries == known.number(),
{
}

/// The names that are understood are the protocol's: of the transfer functions number 9 (`srgb`),
/// 2 (`gamma22`) and 11 (`st2084_pq`), of the primaries 1 (`srgb`) and 6 (`bt2020`), and no other.
pub proof fn understood_names_are_the_protocols(number: u32)
    ensures
        ColorTransfer::of_number(number) == Some(ColorTransfer::Srgb) <==> number == 9,
        ColorTransfer::of_number(number) == Some(ColorTransfer::Gamma22) <==> number == 2,
        ColorTransfer::of_number(number) == Some(ColorTransfer::St2084Pq) <==> number == 11,
        ColorPrimaries::of_number(number) == Some(ColorPrimaries::Srgb) <==> number == 1,
        ColorPrimaries::of_number(number) == Some(ColorPrimaries::Bt2020) <==> number == 6,
        ColorTransfer::of_number(number) is Some ==> names_transfer_function(number),
        ColorPrimaries::of_number(number) is Some ==> names_primaries(number),
{
}

/// The events of the advertisement, each with a place where it stands.
proof fn advertised_contains(event: ManagerEvent)
    ensures
        advertised().contains(event) <==> {
            ||| event == ManagerEvent::SupportedIntentPerceptual
            ||| event == ManagerEvent::SupportedFeature(Feature::Parametric)
            ||| event == ManagerEvent::SupportedFeature(Feature::SetMasteringDisplayPrimaries)
            ||| event == ManagerEvent::SupportedFeature(Feature::SetLuminances)
            ||| event == (ManagerEvent::SupportedTfNamed { tf: TF_SRGB })
            ||| event == (ManagerEvent::SupportedTfNamed { tf: TF_GAMMA22 })
            ||| event == (ManagerEvent::SupportedTfNamed { tf: TF_ST2084_PQ })
            ||| event == (ManagerEvent::SupportedPrimariesNamed { primaries: PRIMARIES_SRGB })
            ||| event == (ManagerEvent::SupportedPrimariesNamed { primaries: PRIMARIES_BT2020 })
            ||| event == ManagerEvent::Done
        },
{
    let events = advertised();
    assert(events.len() == 10);
    assert(events.contains(events[0]));
    assert(events.contains(events[1]));
    assert(events.contains(events[2]));
    assert(events.contains(events[3]));
    assert(events.contains(events[4]));
    assert(events.contains(events[5]));
    assert(events.contains(events[6]));
    assert(events.contains(events[7]));
    assert(events.contains(events[8]));
    assert(events.contains(events[9]));
}

/// A creator on which no transfer function was set takes exactly the transfer functions that are
/// advertised. Any other one is an invalid transfer function.
pub proof fn advertised_transfers_are_accepted(params: ParamsState, tf: u32)
    requires
        params.transfer is None,
    ensures
        advertised().contains(ManagerEvent::SupportedTfNamed { tf }) <==> params.outcome(
            CreatorRequest::SetTfNamed { tf },
        ) == CreatorOutcome::Accepted,
        !advertised().contains(ManagerEvent::SupportedTfNamed { tf }) ==> {
            let outcome = params.outcome(CreatorRequest::SetTfNamed { tf });
            outcome is Rejected && outcome->Rejected_0.raises() == CreatorError::InvalidTf
        },
{
    advertised_contains(ManagerEvent::SupportedTfNamed { tf });
}

/// A creator on which no primaries were set takes exactly the named primaries that are
/// advertised. Any others are invalid named primaries.
pub proof fn advertised_primaries_are_accepted(params: ParamsState, primaries: u32)
    requires
        params.primaries is None,
    ensures
        advertised().contains(ManagerEvent::SupportedPrimariesNamed { primaries })
            <==> params.outcome(CreatorRequest::SetPrimariesNamed { primaries })
            == CreatorOutcome::Accepted,
        !advertised().contains(ManagerEvent::SupportedPrimariesNamed { primaries }) ==> {
            let outcome = params.outcome(CreatorRequest::SetPrimariesNamed { primaries });
            outcome is Rejected && outcome->Rejected_0.raises()
                == CreatorError::InvalidPrimariesNamed
        },
{
    advertised_contains(ManagerEvent::SupportedPrimariesNamed { primaries });
}

/// The feature that a client has to look out for before it makes a request on a creator.
pub open spec fn creator_feature(request: CreatorRequest) -> Option<Feature> {
    match request {
        CreatorRequest::SetTfPower => Some(Feature::SetTfPower),
        CreatorRequest::SetPrimaries { .. } => Some(Feature::SetPrimaries),
        CreatorRequest::SetLuminances => Some(Feature::SetLuminances),
        CreatorRequest::SetMasteringDisplayPrimaries { .. } => Some(
            Feature::SetMasteringDisplayPrimaries,
        ),
        CreatorRequest::SetMasteringLuminance { .. } => Some(
            Feature::SetMasteringDisplayPrimaries,
        ),
        _ => None,
    }
}

/// No request on a creator is an unsupported feature unless it needs a feature that is not
/// advertised, whatever has been set before. Any that does need one is, save for a client's own
/// primaries, which are taken though nothing invites them.
pub proof fn unadvertised_creator_features_are_refused(
    params: ParamsState,
    request: CreatorRequest,
)
    ensures
        ({
            let outcome = params.outcome(request);
            outcome is Rejected && outcome->Rejected_0.raises() == CreatorError::UnsupportedFeature
        }) <==> {
            &&& creator_feature(request) is Some
            &&& !advertised().contains(
                ManagerEvent::SupportedFeature(creator_feature(request)->0),
            )
            &&& !(request is SetPrimaries)
        },
{
    if creator_feature(request) is Some {
        advertised_contains(ManagerEvent::SupportedFeature(creator_feature(request)->0));
    }
}

/// The feature that a client has to look out for before it makes a request on the manager.
pub open spec fn manager_feature(request: ManagerRequest) -> Option<Feature> {
    match request {
        ManagerRequest::CreateParametricCreator => Some(Feature::Parametric),
        ManagerRequest::CreateIccCreator => Some(Feature::IccV2V4),
        ManagerRequest::CreateWindowsScrgb => Some(Feature::WindowsScrgb),
        ManagerRequest::CreateWindowsBt2100 => Some(Feature::WindowsBt2100),
        _ => None,
    }
}

/// No request on the manager is refused unless it needs a feature that is not advertised. Any that
/// does need one is, save for the Windows BT.2100 description, which is handed out though nothing
/// invites the request.
pub proof fn unadvertised_manager_features_are_refused(
    request: ManagerRequest,
    identities: IdentityView,
)
    ensures
        request.action(identities) is Reject <==> {
            &&& manager_feature(request) is Some
            &&& !advertised().contains(
                ManagerEvent::SupportedFeature(manager_feature(request)->0),
            )
            &&& request != ManagerRequest::CreateWindowsBt2100
        },
{
    if manager_feature(request) is Some {
        advertised_contains(ManagerEvent::SupportedFeature(manager_feature(request)->0));
    }
}

/// What is done about a request on the manager depends on the request alone, but for the identity
/// of a description that is handed out: that is always the next one. The description handed out is
/// the Windows BT.2100 one, in PQ / BT.2020, and there is one for no other request.
pub proof fn manager_hands_out_bt2100_under_the_next_identity(
    request: ManagerRequest,
    a: IdentityView,
    b: IdentityView,
)
    ensures
        request.action(a) is Ready <==> request == ManagerRequest::CreateWindowsBt2100,
        request.action(a) matches ManagerAction::Ready(ready) ==> {
            &&& ready.identity == a.next
            &&& ready.data.display is None
            &&& ready.data.desc.windows_bt2100
            &&& ready.data.desc.transfer == ColorTransfer::St2084Pq
            &&& ready.data.desc.primaries == ContainerPrimaries::Named(ColorPrimaries::Bt2020)
            &&& ready.data.desc.max_cll is None
            &&& ready.data.desc.max_fall is None
            &&& ready.data.desc.mastering_max_luminance is None
            &&& ready.data.desc.mastering_primaries is None
        },
        a.next == b.next || !(request.action(a) is Ready) ==> request.action(a)
            == request.action(b),
        request.action(a) matches ManagerAction::InitCreator(params) ==> params.transfer is None
            && params.primaries is None && params.max_cll is None && params.max_fall is None
            && params.mastering_max_luminance is None && params.mastering_primaries is None,
{
}

/// The advertisement ends with `done`, which stands nowhere else in it.
pub proof fn advertisement_ends_with_done(i: int)
    requires
        0 <= i < advertised().len(),
    ensures
        advertised()[i] == ManagerEvent::Done <==> i == advertised().len() - 1,
{
    assert(advertised().len() == 10);
}

/// Whether a request sets the transfer function or the primaries, which are set only once.
pub open spec fn sets_once(request: CreatorRequest) -> bool {
    request is SetTfNamed || request is SetPrimariesNamed || request is SetPrimaries
}

/// Whatever has been set before, a request goes through that needs no feature or one that is
/// advertised, unless it sets what is set only once or completes the description. Luminances,
/// mastering metadata and light levels can always be given.
pub proof fn advertised_metadata_is_always_accepted(params: ParamsState, request: CreatorRequest)
    requires
        !sets_once(request),
        request != CreatorRequest::Create,
        creator_feature(request) is Some ==> advertised().contains(
            ManagerEvent::SupportedFeature(creator_feature(request)->0),
        ),
    ensures
        params.outcome(request) == CreatorOutcome::Accepted,
{
    if creator_feature(request) is Some {
        advertised_contains(ManagerEvent::SupportedFeature(creator_feature(request)->0));
    }
}

/// Luminances, the mastering display's primaries and luminance, light levels and requests of a
/// later protocol version are accepted with any parameters set.
pub proof fn metadata_requests_never_fail(
    params: ParamsState,
    luminance: u32,
    min_lum: u32,
    chromaticities: Chromaticities,
)
    ensures
        params.outcome(CreatorRequest::SetLuminances) == CreatorOutcome::Accepted,
        params.outcome(CreatorRequest::SetMasteringDisplayPrimaries { chromaticities })
            == CreatorOutcome::Accepted,
        params.outcome(CreatorRequest::SetMasteringLuminance { min_lum, max_lum: luminance })
            == CreatorOutcome::Accepted,
        params.outcome(CreatorRequest::SetMaxCll { max_cll: luminance })
            == CreatorOutcome::Accepted,
        params.outcome(CreatorRequest::SetMaxFall { max_fall: luminance })
            == CreatorOutcome::Accepted,
        params.outcome(CreatorRequest::Other) == CreatorOutcome::Accepted,
{
}

/// A refusal names its cause, and a description is created by `create` alone, out of all that was
/// set and nothing else.
pub proof fn refusals_name_their_cause(params: ParamsState, request: CreatorRequest)
    ensures
        match params.outcome(request) {
            CreatorOutcome::Accepted => request != CreatorRequest::Create && !(
            request is SetTfPower),
            CreatorOutcome::Rejected(rejection) => match rejection {
                CreatorRejection::TransferAlreadySet => request is SetTfNamed
                    && params.transfer is Some,
                CreatorRejection::UnsupportedTransfer => {
                    &&& params.transfer is None
                    &&& request matches CreatorRequest::SetTfNamed { tf }
                    &&& tf != 9 && tf != 2 && tf != 11
                },
                CreatorRejection::PrimariesAlreadySet => (request is SetPrimariesNamed
                    || request is SetPrimaries) && params.primaries is Some,
                CreatorRejection::UnsupportedPrimaries => {
                    &&& params.primaries is None
                    &&& request matches CreatorRequest::SetPrimariesNamed { primaries }
                    &&& primaries != 1 && primaries != 6
                },
                CreatorRejection::TfPower => request == CreatorRequest::SetTfPower,
                CreatorRejection::Incomplete => request == CreatorRequest::Create && (
                params.transfer is None || params.primaries is None),
            },
            CreatorOutcome::Created(desc) => {
                &&& request == CreatorRequest::Create
                &&& params.transfer == Some(desc.transfer)
                &&& params.primaries == Some(desc.primaries)
                &&& desc.max_cll == params.max_cll
                &&& desc.max_fall == params.max_fall
                &&& desc.mastering_max_luminance == params.mastering_max_luminance
                &&& desc.mastering_primaries == params.mastering_primaries
                &&& !desc.windows_bt2100
            },
        },
        params.transfer is Some && params.primaries is Some ==> params.outcome(
            CreatorRequest::Create,
        ) is Created,
{
}

/// A request touches the one parameter that it is about and leaves the others alone.
pub proof fn requests_touch_one_parameter(params: ParamsState, request: CreatorRequest)
    ensures
        ({
            let after = params.after(request);
            &&& !(request is SetTfNamed) ==> after.transfer == params.transfer
            &&& !(request is SetPrimariesNamed || request is SetPrimaries) ==> after.primaries
                == params.primaries
            &&& !(request is SetMaxCll) ==> after.max_cll == params.max_cll
            &&& !(request is SetMaxFall) ==> after.max_fall == params.max_fall
            &&& !(request is SetMasteringLuminance) ==> after.mastering_max_luminance
                == params.mastering_max_luminance
            &&& !(request is SetMasteringDisplayPrimaries) ==> after.mastering_primaries
                == params.mastering_primaries
        }),
{
}

/// What is kept of a luminance is the nearest value that fits: no kept value lies between it and
/// the luminance that was given.
pub proof fn capping_keeps_the_nearest_value(given: u32, kept: u16)
    ensures
        kept <= capped(given) <==> kept <= given,
        given <= 65535 ==> capped(given) == given,
        given > 65535 ==> capped(given) == 65535,
{
}

/// Only an accepted request changes a creator's parameters: a refused one leaves them as they
/// were, and so does creating the description.
pub proof fn refused_requests_change_nothing(params: ParamsState, request: CreatorRequest)
    ensures
        params.outcome(request) != CreatorOutcome::Accepted ==> params.after(request) == params,
{
}

/// The parameters of a creator after a run of requests.
pub open spec fn run(params: ParamsState, requests: Seq<CreatorRequest>) -> ParamsState
    decreases requests.len(),
{
    if requests.len() == 0 {
        params
    } else {
        run(params, requests.drop_last()).after(requests.last())
    }
}

/// What a request says of the transfer function.
pub open spec fn gives_transfer(request: CreatorRequest) -> Option<ColorTransfer> {
    match request {
        CreatorRequest::SetTfNamed { tf } => ColorTransfer::of_number(tf),
        _ => None,
    }
}

/// What a request says of the primaries.
pub open spec fn gives_primaries(request: CreatorRequest) -> Option<ContainerPrimaries> {
    match request {
        CreatorRequest::SetPrimariesNamed { primaries } => match ColorPrimaries::of_number(
            primaries,
        ) {
            Some(named) => Some(ContainerPrimaries::Named(named)),
            None => None,
        },
        CreatorRequest::SetPrimaries { chromaticities } => Some(
            ContainerPrimaries::Custom(chromaticities),
        ),
        _ => None,
    }
}

/// What a request says of the maximum content light level.
pub open spec fn gives_max_cll(request: CreatorRequest) -> Option<u16> {
    match request {
        CreatorRequest::SetMaxCll { max_cll } => Some(capped(max_cll)),
        _ => None,
    }
}

/// What a request says of the maximum frame-average light level.
pub open spec fn gives_max_fall(request: CreatorRequest) -> Option<u16> {
    match request {
        CreatorRequest::SetMaxFall { max_fall } => Some(capped(max_fall)),
        _ => None,
    }
}

/// What a request says of the mastering display's maximum luminance.
pub open spec fn gives_mastering_max(request: CreatorRequest) -> Option<u16> {
    match request {
        CreatorRequest::SetMasteringLuminance { min_lum: _, max_lum } => Some(capped(max_lum)),
        _ => None,
    }
}

/// What a request says of the mastering display's primaries.
pub open spec fn gives_mastering_primaries(request: CreatorRequest) -> Option<Chromaticities> {
    match request {
        CreatorRequest::SetMasteringDisplayPrimaries { chromaticities } => Some(chromaticities),
        _ => None,
    }
}

/// The first value that a run of requests gives.
pub open spec fn first_given<V>(
    requests: Seq<CreatorRequest>,
    says: spec_fn(CreatorRequest) -> Option<V>,
) -> Option<V>
    decreases requests.len(),
{
    if requests.len() == 0 {
        None
    } else if first_given(requests.drop_last(), says) is Some {
        first_given(requests.drop_last(), says)
    } else {
        says(requests.last())
    }
}

/// The last value that a run of requests gives.
pub open spec fn last_given<V>(
    requests: Seq<CreatorRequest>,
    says: spec_fn(CreatorRequest) -> Option<V>,
) -> Option<V>
    decreases requests.len(),
{
    if requests.len() == 0 {
        None
    } else if says(requests.last()) is Some {
        says(requests.last())
    } else {
        last_given(requests.drop_last(), says)
    }
}

/// A creator holds what the client set on it: the first transfer function and the first primaries
/// that are understood (a client's own always are), and of each luminance and of the mastering
/// display's primaries the last. Whatever else the client asked for, in
/// whatever order, makes no difference.
pub proof fn creator_holds_what_was_set(requests: Seq<CreatorRequest>)
    ensures
        run(ParamsState::unset(), requests) == (ParamsState {
            transfer: first_given(requests, |r: CreatorRequest| gives_transfer(r)),
            primaries: first_given(requests, |r: CreatorRequest| gives_primaries(r)),
            max_cll: last_given(requests, |r: CreatorRequest| gives_max_cll(r)),
            max_fall: last_given(requests, |r: CreatorRequest| gives_max_fall(r)),
            mastering_max_luminance: last_given(
                requests,
                |r: CreatorRequest| gives_mastering_max(r),
            ),
            mastering_primaries: last_given(
                requests,
                |r: CreatorRequest| gives_mastering_primaries(r),
            ),
        }),
    decreases requests.len(),
{
    if requests.len() > 0 {
        creator_holds_what_was_set(requests.drop_last());
    }
}

/// `create` succeeds exactly where the client has named a transfer function that is understood,
/// and primaries that are understood or its own, and gives a description of just what was set; it is an incomplete set
/// everywhere else.
pub proof fn create_gives_what_was_set(requests: Seq<CreatorRequest>)
    ensures
        ({
            let transfer = first_given(requests, |r: CreatorRequest| gives_transfer(r));
            let primaries = first_given(requests, |r: CreatorRequest| gives_primaries(r));
            let outcome = run(ParamsState::unset(), requests).outcome(CreatorRequest::Create);
            if transfer is Some && primaries is Some {
                outcome == CreatorOutcome::Created(
                    ImageDescription {
                        transfer: transfer->0,
                        primaries: primaries->0,
                        max_cll: last_given(requests, |r: CreatorRequest| gives_max_cll(r)),
                        max_fall: last_given(requests, |r: CreatorRequest| gives_max_fall(r)),
                        mastering_max_luminance: last_given(
                            requests,
                            |r: CreatorRequest| gives_mastering_max(r),
                        ),
                        mastering_primaries: last_given(
                            requests,
                            |r: CreatorRequest| gives_mastering_primaries(r),
                        ),
                        windows_bt2100: false,
                    },
                )
            } else {
                outcome == CreatorOutcome::Rejected(CreatorRejection::Incomplete)
            }
        }),
{
    creator_holds_what_was_set(requests);
}

/// Once a transfer function or primaries are set they stay, through any run of requests, and
/// setting them again, by name or otherwise, is refused for that reason.
pub proof fn named_parameters_are_set_once(
    params: ParamsState,
    requests: Seq<CreatorRequest>,
    number: u32,
    chromaticities: Chromaticities,
)
    ensures
        params.transfer is Some ==> {
            &&& run(params, requests).transfer == params.transfer
            &&& run(params, requests).outcome(CreatorRequest::SetTfNamed { tf: number })
                == CreatorOutcome::Rejected(CreatorRejection::TransferAlreadySet)
        },
        params.primaries is Some ==> {
            &&& run(params, requests).primaries == params.primaries
            &&& run(params, requests).outcome(
                CreatorRequest::SetPrimariesNamed { primaries: number },
            ) == CreatorOutcome::Rejected(CreatorRejection::PrimariesAlreadySet)
            &&& run(params, requests).outcome(CreatorRequest::SetPrimaries { chromaticities })
                == CreatorOutcome::Rejected(CreatorRejection::PrimariesAlreadySet)
        },
    decreases requests.len(),
{
    if requests.len() > 0 {
        named_parameters_are_set_once(params, requests.drop_last(), number, chromaticities);
    }
}

/// What a surface has attached after a run of requests.
pub open spec fn attached(
    current: Option<ImageDescription>,
    requests: Seq<SurfaceRequest>,
) -> Option<ImageDescription>
    decreases requests.len(),
{
    if requests.len() == 0 {
        current
    } else {
        requests.last().attaches(attached(current, requests.drop_last()))
    }
}

/// Whether a request attaches a description or takes it off.
pub open spec fn settles(request: SurfaceRequest) -> bool {
    ||| request == SurfaceRequest::UnsetImageDescription
    ||| request matches SurfaceRequest::SetImageDescription { image_description }
        && image_description is Some
}

/// What a client attached to a surface is what is read back, until the client attaches another
/// description or takes it off: other requests in between make no difference.
pub proof fn attached_description_is_read_back(
    current: Option<ImageDescription>,
    data: ImageDescriptionData,
    since: Seq<SurfaceRequest>,
)
    requires
        forall|i: int| 0 <= i < since.len() ==> !settles(#[trigger] since[i]),
    ensures
        ({
            let set = SurfaceRequest::SetImageDescription { image_description: Some(data) };
            attached(set.attaches(current), since) == Some(data.desc)
        }),
        attached(SurfaceRequest::UnsetImageDescription.attaches(current), since)
            == None::<ImageDescription>,
    decreases since.len(),
{
    if since.len() > 0 {
        assert(!settles(since[since.len() - 1]));
        assert forall|i: int| 0 <= i < since.drop_last().len() implies !settles(
            #[trigger] since.drop_last()[i],
        ) by {
            assert(since.drop_last()[i] == since[i]);
        }
        attached_description_is_read_back(current, data, since.drop_last());
    }
}

/// A request that is repeated changes nothing the second time: a client that attaches one and the
/// same description frame after frame causes a single change.
pub proof fn repeated_attachment_changes_nothing(
    request: SurfaceRequest,
    current: Option<ImageDescription>,
)
    ensures
        request.attaches(request.attaches(current)) == request.attaches(current),
{
}

/// The identity `k` places after `first`.
pub open spec fn nth_identity(first: u32, k: nat) -> u32
    decreases k,
{
    if k == 0 {
        first
    } else {
        following(nth_identity(first, (k - 1) as nat))
    }
}

/// Identities run through 1 to `u32::MAX` in a circle. None is ever 0.
pub proof fn identities_run_in_a_circle(first: u32, k: nat)
    requires
        first != 0,
    ensures
        nth_identity(first, k) == (first - 1 + k) % (u32::MAX as int) + 1,
        nth_identity(first, k) != 0,
    decreases k,
{
    if k > 0 {
        identities_run_in_a_circle(first, (k - 1) as nat);
    }
}

/// Two identities are different unless a whole circle, of `u32::MAX` identities, lies between
/// them.
pub proof fn identities_do_not_repeat_within_a_circle(first: u32, i: nat, j: nat)
    requires
        first != 0,
        i < j,
        j - i < u32::MAX,
    ensures
        nth_identity(first, i) != nth_identity(first, j),
{
    identities_run_in_a_circle(first, i);
    identities_run_in_a_circle(first, j);
}

/// An image description that is handed out.
pub enum Handout {
    /// One of an output, or one that a client created.
    New,
    /// The preferred one of a surface.
    Preferred(ImageDescriptionData),
}

/// The identities after a run of descriptions was handed out.
pub open spec fn hand_out(identities: IdentityView, handouts: Seq<Handout>) -> IdentityView
    decreases handouts.len(),
{
    if handouts.len() == 0 {
        identities
    } else {
        match handouts.last() {
            Handout::New => hand_out(identities, handouts.drop_last()).after_new(),
            Handout::Preferred(data) => hand_out(
                identities,
                handouts.drop_last(),
            ).after_preferred(data),
        }
    }
}

/// A new description moves the next identity on by one, from the last one back to 1, and leaves
/// those of the preferred descriptions alone. So does a preferred description the first time, and
/// it gets the identity that was next; after that it changes nothing.
pub proof fn handing_out_moves_the_identity_on(
    identities: IdentityView,
    data: ImageDescriptionData,
    other: ImageDescriptionData,
)
    ensures
        identities.next < u32::MAX ==> identities.after_new().next == identities.next + 1,
        identities.next == u32::MAX ==> identities.after_new().next == 1,
        identities.after_new().preferred == identities.preferred,
        identities.preferred.contains_key(data) ==> {
            &&& identities.preferred_identity(data) == identities.preferred[data]
            &&& identities.after_preferred(data) == identities
        },
        !identities.preferred.contains_key(data) ==> {
            let after = identities.after_preferred(data);
            &&& identities.preferred_identity(data) == identities.next
            &&& identities.next < u32::MAX ==> after.next == identities.next + 1
            &&& identities.next == u32::MAX ==> after.next == 1
            &&& after.preferred.contains_key(data)
            &&& after.preferred[data] == identities.next
            &&& other != data ==> {
                &&& after.preferred.contains_key(other) <==> identities.preferred.contains_key(
                    other,
                )
                &&& identities.preferred.contains_key(other) ==> after.preferred[other]
                    == identities.preferred[other]
            }
        },
{
}

/// The identity under which the description at place `i` of a run is handed out, when nothing was
/// handed out before the run.
pub open spec fn given_identity(handouts: Seq<Handout>, i: int) -> u32 {
    let start = IdentityView { next: 1, preferred: Map::empty() };
    let before = hand_out(start, handouts.take(i));
    match handouts[i] {
        Handout::New => before.next,
        Handout::Preferred(data) => before.preferred_identity(data),
    }
}

/// How the identities given up to place `j` relate to the state there.
proof fn given_identities_lie_below_the_next(handouts: Seq<Handout>, i: int, j: int)
    requires
        0 <= i < j <= handouts.len(),
        handouts.len() < u32::MAX,
    ensures
        ({
            let start = IdentityView { next: 1, preferred: Map::empty() };
            let now = hand_out(start, handouts.take(j));
            &&& 1 <= given_identity(handouts, i) < now.next <= j + 1
            &&& match handouts[i] {
                Handout::Preferred(data) => now.preferred.contains_key(data)
                    && now.preferred[data] == given_identity(handouts, i),
                Handout::New => forall|data: ImageDescriptionData| #[trigger]
                    now.preferred.contains_key(data) ==> now.preferred[data] != given_identity(
                        handouts,
                        i,
                    ),
            }
        }),
    decreases j,
{
    let start = IdentityView { next: 1, preferred: Map::empty() };
    let last = handouts.take(j - 1);
    assert(handouts.take(j).drop_last() =~= last);
    assert(handouts.take(j).last() == handouts[j - 1]);
    let before = hand_out(start, last);
    assert forall|data: ImageDescriptionData| #[trigger]
        before.preferred.contains_key(data) implies 1 <= before.preferred[data] < before.next by {
        preferred_identities_are_distinct(last, data, data);
    }
    if let Handout::Preferred(data) = handouts[j - 1] {
        preferred_identities_are_distinct(last, data, data);
    } else {
        let any = arbitrary::<ImageDescriptionData>();
        preferred_identities_are_distinct(last, any, any);
    }
    if i < j - 1 {
        given_identities_lie_below_the_next(handouts, i, j - 1);
    }
}

/// As long as the identities have not come full circle, two descriptions are handed out under one
/// identity exactly where both are one and the same preferred description. Two new descriptions
/// never share one, nor do a new and a preferred one.
pub proof fn handouts_share_an_identity_only_if_preferred_and_equal(
    handouts: Seq<Handout>,
    i: int,
    j: int,
)
    requires
        0 <= i < j < handouts.len(),
        handouts.len() < u32::MAX,
    ensures
        given_identity(handouts, i) == given_identity(handouts, j) <==> handouts[i] is Preferred
            && handouts[i] == handouts[j],
        given_identity(handouts, i) != 0,
{
    let start = IdentityView { next: 1, preferred: Map::empty() };
    given_identities_lie_below_the_next(handouts, i, j);
    if handouts[i] is Preferred && handouts[j] is Preferred {
        preferred_identities_are_distinct(
            handouts.take(j),
            handouts[i]->Preferred_0,
            handouts[j]->Preferred_0,
        );
    }
}

/// New descriptions alone are numbered 1, 2, 3 and on.
pub proof fn new_descriptions_are_numbered_from_one(handouts: Seq<Handout>, i: int)
    requires
        0 <= i < handouts.len() < u32::MAX,
        forall|k: int| 0 <= k < i ==> handouts[k] is New,
        handouts[i] is New,
    ensures
        given_identity(handouts, i) == i + 1,
    decreases i,
{
    if i > 0 {
        new_descriptions_are_numbered_from_one(handouts, i - 1);
        assert(handouts.take(i).drop_last() =~= handouts.take(i - 1));
        assert(handouts.take(i).last() == handouts[i - 1]);
    }
}

/// One and the same preferred description keeps its identity, whatever is handed out in between.
pub proof fn preferred_identity_is_stable(
    identities: IdentityView,
    data: ImageDescriptionData,
    between: Seq<Handout>,
)
    ensures
        hand_out(identities.after_preferred(data), between).preferred_identity(data)
            == identities.preferred_identity(data),
        hand_out(identities.after_preferred(data), between).preferred.contains_key(data),
    decreases between.len(),
{
    if between.len() > 0 {
        preferred_identity_is_stable(identities, data, between.drop_last());
    }
}

/// As long as the identities have not come full circle, an identity belongs to one preferred
/// description only, and none of them is given to the next new description.
pub proof fn preferred_identities_are_distinct(
    handouts: Seq<Handout>,
    a: ImageDescriptionData,
    b: ImageDescriptionData,
)
    requires
        handouts.len() < u32::MAX,
    ensures
        ({
            let start = IdentityView { next: 1, preferred: Map::empty() };
            let now = hand_out(start, handouts);
            &&& 1 <= now.next <= handouts.len() + 1
            &&& now.preferred.contains_key(a) ==> 1 <= now.preferred[a] < now.next
            &&& now.preferred.contains_key(a) && now.preferred.contains_key(b)
                && now.preferred[a] == now.preferred[b] ==> a == b
        }),
    decreases handouts.len(),
{
    if handouts.len() > 0 {
        preferred_identities_are_distinct(handouts.drop_last(), a, b);
        preferred_identities_are_distinct(handouts.drop_last(), b, a);
    }
}

/// A description is HDR exactly where its transfer function is PQ or its primaries are the named
/// BT.2020 ones. Nothing else that it holds has a say.
pub proof fn hdr_is_pq_or_named_bt2020(desc: ImageDescription)
    ensures
        desc.transfer == ColorTransfer::St2084Pq ==> desc.denotes_hdr(),
        desc.primaries == ContainerPrimaries::Named(ColorPrimaries::Bt2020) ==> desc.denotes_hdr(),
        (desc.transfer == ColorTransfer::Srgb || desc.transfer == ColorTransfer::Gamma22)
            && desc.primaries != ContainerPrimaries::Named(ColorPrimaries::Bt2020)
            ==> !desc.denotes_hdr(),
{
}

/// An output is described in PQ / BT.2020 exactly where it is configured to stay in HDR and its
/// display was probed and supports it, and then with that display's luminances around the
/// reference white of 203 cd/m². Everywhere else it is plain sRGB with no display, whatever the
/// display could do. No description of an output holds a client's metadata.
pub proof fn outputs_are_described_as_they_run(hdr: OutputHdr)
    ensures
        ({
            let kept_in_hdr = hdr.mode_on && hdr.caps is Some && hdr.caps->0.supported;
            let data = hdr.described();
            &&& kept_in_hdr ==> {
                &&& data.desc.transfer == ColorTransfer::St2084Pq
                &&& data.desc.primaries == ContainerPrimaries::Named(ColorPrimaries::Bt2020)
                &&& data.display is Some
                &&& data.display->0.target_max == hdr.caps->0.max_luminance
                &&& data.display->0.target_min == hdr.caps->0.min_luminance
                &&& data.display->0.reference == 203
                &&& data.display->0.volume_min == 50
                &&& data.display->0.volume_max == 10000
            }
            &&& !kept_in_hdr ==> {
                &&& data.desc.transfer == ColorTransfer::Srgb
                &&& data.desc.primaries == ContainerPrimaries::Named(ColorPrimaries::Srgb)
                &&& data.display is None
            }
            &&& data.desc.denotes_hdr() == kept_in_hdr
            &&& data.desc.max_cll is None
            &&& data.desc.max_fall is None
            &&& data.desc.mastering_max_luminance is None
            &&& data.desc.mastering_primaries is None
            &&& !data.desc.windows_bt2100
        }),
{
}

/// An output that is not configured to stay in HDR is described like one whose display was never
/// probed.
pub proof fn displays_do_not_switch_outputs_to_hdr(a: OutputHdr, b: OutputHdr)
    requires
        !a.mode_on,
        b.caps is None,
    ensures
        a.described() == b.described(),
{
}

/// A client's description comes with no display, and is otherwise what the client made.
pub proof fn client_descriptions_have_no_display(desc: ImageDescription)
    ensures
        ImageDescriptionData::of(desc).desc == desc,
        ImageDescriptionData::of(desc).display is None,
{
}

/// The information on a description ends with the destructor event, which stands nowhere else.
pub proof fn information_ends_with_done(data: ImageDescriptionData, i: int)
    requires
        0 <= i < info_events(data).len(),
    ensures
        info_events(data)[i] == InfoEvent::Done <==> i == info_events(data).len() - 1,
{
}

/// From the information on a description a client learns its transfer function and its primaries.
/// What comes by name is among what is advertised; a client's own primaries come back as they were
/// given.
pub proof fn information_names_what_the_description_holds(data: ImageDescriptionData)
    ensures
        ({
            let events = info_events(data);
            &&& match data.desc.primaries {
                ContainerPrimaries::Named(named) => {
                    &&& events[0] matches InfoEvent::PrimariesNamed { primaries }
                    &&& ColorPrimaries::of_number(primaries) == Some(named)
                    &&& advertised().contains(ManagerEvent::SupportedPrimariesNamed { primaries })
                },
                ContainerPrimaries::Custom(chromaticities) => events[0] == InfoEvent::Primaries {
                    chromaticities,
                },
            }
            &&& events[1] matches InfoEvent::TfNamed { tf } && ColorTransfer::of_number(tf)
                == Some(data.desc.transfer) && advertised().contains(
                ManagerEvent::SupportedTfNamed { tf },
            )
        }),
{
    if let ContainerPrimaries::Named(named) = data.desc.primaries {
        advertised_contains(ManagerEvent::SupportedPrimariesNamed { primaries: named.number() });
    }
    advertised_contains(ManagerEvent::SupportedTfNamed { tf: data.desc.transfer.number() });
}

/// Luminances are told exactly where there is a display behind the description, and they are that
/// display's. Nothing but these and the two characteristics comes before the destructor event.
pub proof fn information_gives_the_displays_luminances(data: ImageDescriptionData)
    ensures
        data.display is None ==> info_events(data).len() == 3,
        data.display matches Some(display) ==> {
            &&& info_events(data).len() == 5
            &&& info_events(data)[2] == (InfoEvent::Luminances {
                min_lum: display.volume_min,
                max_lum: display.volume_max,
                reference_lum: display.reference,
            })
            &&& info_events(data)[3] == (InfoEvent::TargetLuminance {
                min_lum: display.target_min,
                max_lum: display.target_max,
            })
        },
{
}

/// The information on an output that is kept in HDR gives the reference white and the display's
/// own highest luminance, so that a client can tell the headroom above white: there is some
/// exactly where the display goes above 203 cd/m².
pub proof fn hdr_outputs_announce_their_headroom(hdr: OutputHdr)
    requires
        hdr.mode_on,
        hdr.caps is Some,
        hdr.caps->0.supported,
    ensures
        ({
            let events = info_events(hdr.described());
            &&& events[2] is Luminances
            &&& events[3] is TargetLuminance
            &&& events[2]->reference_lum == DEFAULT_REFERENCE_LUMINANCE
            &&& events[3]->TargetLuminance_max_lum == hdr.caps->0.max_luminance
            &&& events[3]->TargetLuminance_max_lum > events[2]->reference_lum
                <==> hdr.caps->0.max_luminance > 203
        }),
{
}

/// The Windows scRGB description makes scRGB content, whatever else it is; any other description
/// passes through numerically exactly where it is HDR; everything else is SDR content, and so is a
/// surface with no description.
pub proof fn content_color_follows_the_description(windows_scrgb: bool, hdr: bool)
    ensures
        ({
            let content = ContentColor::of(Some(CommittedDescription { windows_scrgb, hdr }));
            &&& content == ContentColor::Scrgb <==> windows_scrgb
            &&& content == ContentColor::BlendSpace <==> hdr && !windows_scrgb
            &&& content == ContentColor::Sdr <==> !hdr && !windows_scrgb
        }),
        ContentColor::of(None) == ContentColor::Sdr,
{
}

/// A surface passes through numerically exactly where the description attached to it has the PQ
/// transfer function or the named BT.2020 primaries; with any other description, or with none, it
/// is SDR content.
pub proof fn content_follows_the_attached_description(desc: Option<ImageDescription>)
    ensures
        ({
            let committed = match desc {
                Some(desc) => Some(CommittedDescription::of(desc)),
                None => None,
            };
            let hdr = desc is Some && (desc->0.transfer == ColorTransfer::St2084Pq
                || desc->0.primaries == ContainerPrimaries::Named(ColorPrimaries::Bt2020));
            &&& hdr ==> ContentColor::of(committed) == ContentColor::BlendSpace
            &&& !hdr ==> ContentColor::of(committed) == ContentColor::Sdr
            &&& committed is Some ==> !committed->0.windows_scrgb && committed->0.hdr == hdr
        }),
{
}

/// The values of the uniforms after a run of them was set, on top of `before`: the later wins.
pub open spec fn uniform_values(
    before: (bool, u32, bool),
    uniforms: Seq<BlendUniform>,
) -> (bool, u32, bool)
    decreases uniforms.len(),
{
    if uniforms.len() == 0 {
        before
    } else {
        let (hdr_pq, scale, scrgb) = uniform_values(before, uniforms.drop_last());
        match uniforms.last() {
            BlendUniform::HdrPq(on) => (on, scale, scrgb),
            BlendUniform::RefLumScale(bits) => (hdr_pq, bits, scrgb),
            BlendUniform::Scrgb(on) => (hdr_pq, scale, on),
        }
    }
}

/// Every draw sets all the blend uniforms: what a program held before makes no difference.
pub proof fn every_draw_sets_all_uniforms(
    state: FrameBlendState,
    content: ContentColor,
    before: (bool, u32, bool),
)
    ensures
        uniform_values(before, state.blend_uniforms(content)) == if state.hdr_pq {
            (
                content != ContentColor::BlendSpace,
                state.ref_lum_scale,
                content == ContentColor::Scrgb,
            )
        } else {
            (false, 0u32, false)
        },
{
    reveal_with_fuel(uniform_values, 4);
    let uniforms = state.blend_uniforms(content);
    assert(uniforms.drop_last().drop_last().last() == uniforms[0]);
    assert(uniforms.drop_last().last() == uniforms[1]);
}

/// Once the renderer is back in SDR every draw sets all the blend uniforms back to zero, whatever
/// was rendered before.
pub proof fn sdr_frames_encode_nothing(
    state: FrameBlendState,
    content: ContentColor,
    before: (bool, u32, bool),
)
    ensures
        uniform_values(before, state.marked(None).blend_uniforms(content)) == (
            false,
            0u32,
            false,
        ),
{
    every_draw_sets_all_uniforms(state.marked(None), content, before);
}

/// The reference luminance that is asked for is the one that is drawn with, for every scale: a
/// texture drawn with the override and a draw with the blend state's uniforms both end up with
/// `niri_ref_lum_scale` at just that scale, whatever a program held before. Both encode SDR
/// content, and neither takes it for scRGB.
pub proof fn reference_luminance_reaches_every_draw(
    state: FrameBlendState,
    scale: u32,
    program: u32,
    content: ContentColor,
    before: (bool, u32, bool),
)
    ensures
        state.marked(Some(scale)).hdr_pq,
        state.marked(Some(scale)).ref_lum_scale == scale,
        uniform_values(before, state.marked(Some(scale)).blend_uniforms(content)).1 == scale,
        uniform_values(before, hdr_override(program, scale).uniforms) == (true, scale, false),
        uniform_values(before, state.marked(Some(scale)).blend_uniforms(ContentColor::Sdr)) == (
            true,
            scale,
            false,
        ),
        hdr_override(program, scale).program == program,
        ({
            let adjusted = content.adjusted(Some(hdr_override(program, scale)));
            content != ContentColor::BlendSpace ==> adjusted is Some && uniform_values(
                before,
                adjusted->0.uniforms,
            ).1 == scale
        }),
{
    override_agrees_with_blend_state(state, program, scale, ContentColor::Sdr, before);
    override_agrees_with_blend_state(state, program, scale, content, before);
    every_draw_sets_all_uniforms(state.marked(Some(scale)), content, before);
    every_draw_sets_all_uniforms(state.marked(Some(scale)), ContentColor::Sdr, before);
}

/// Two reference luminances draw alike only if they are the same.
pub proof fn reference_luminances_are_told_apart(
    state: FrameBlendState,
    program: u32,
    a: u32,
    b: u32,
)
    ensures
        state.marked(Some(a)).blend_uniforms(ContentColor::Sdr) == state.marked(
            Some(b),
        ).blend_uniforms(ContentColor::Sdr) ==> a == b,
        hdr_override(program, a) == hdr_override(program, b) ==> a == b,
{
    let before = (false, 0u32, false);
    reference_luminance_reaches_every_draw(state, a, program, ContentColor::Sdr, before);
    reference_luminance_reaches_every_draw(state, b, program, ContentColor::Sdr, before);
}

/// Marking frames as SDR switches the encode off and does nothing else; what the frames before
/// were marked as makes no difference to frames that are marked anew.
pub proof fn the_last_mark_counts(
    state: FrameBlendState,
    earlier: Option<u32>,
    scale: u32,
)
    ensures
        !state.marked(None).hdr_pq,
        state.marked(None).ref_lum_scale == state.ref_lum_scale,
        state.marked(earlier).marked(Some(scale)) == state.marked(Some(scale)),
{
}

/// Whatever override a frame has, SDR content is drawn with it and blend-space content with none.
/// scRGB content is drawn with the same program and the same values but for the scRGB flag, which
/// is raised. Where there is no override there is none for any content.
pub proof fn content_decides_on_the_override(
    content: ContentColor,
    frame: OverrideView,
    before: (bool, u32, bool),
)
    ensures
        ContentColor::Sdr.adjusted(Some(frame)) == Some(frame),
        ContentColor::BlendSpace.adjusted(Some(frame)) is None,
        ({
            let adjusted = ContentColor::Scrgb.adjusted(Some(frame));
            let values = uniform_values(before, frame.uniforms);
            &&& adjusted is Some
            &&& adjusted->0.program == frame.program
            &&& uniform_values(before, adjusted->0.uniforms) == (values.0, values.1, true)
        }),
        content.adjusted(None) is None,
{
    assert(frame.uniforms.push(BlendUniform::Scrgb(true)).drop_last() =~= frame.uniforms);
}

/// A uniform has one name, whatever its value, and no two uniforms share one.
pub proof fn uniform_names_are_fixed_and_distinct(a: bool, b: bool, c: u32, d: u32)
    ensures
        BlendUniform::HdrPq(a).shader_name() == BlendUniform::HdrPq(b).shader_name(),
        BlendUniform::RefLumScale(c).shader_name() == BlendUniform::RefLumScale(d).shader_name(),
        BlendUniform::Scrgb(a).shader_name() == BlendUniform::Scrgb(b).shader_name(),
        BlendUniform::HdrPq(a).shader_name() != BlendUniform::RefLumScale(c).shader_name(),
        BlendUniform::HdrPq(a).shader_name() != BlendUniform::Scrgb(b).shader_name(),
        BlendUniform::RefLumScale(c).shader_name() != BlendUniform::Scrgb(b).shader_name(),
{
    reveal_strlit("niri_hdr_pq");
    reveal_strlit("niri_ref_lum_scale");
    reveal_strlit("niri_scrgb");
    assert("niri_hdr_pq"@.len() == 11);
    assert("niri_ref_lum_scale"@.len() == 18);
    assert("niri_scrgb"@.len() == 10);
}

/// On an HDR frame the texture program's override and the frame blend state say the same: a
/// surface drawn with the adjusted override gets the uniform values that the blend state gives for
/// its content. Content already in the blend space is drawn without the program instead, and the
/// blend state gives it no encode.
pub proof fn override_agrees_with_blend_state(
    state: FrameBlendState,
    program: u32,
    scale: u32,
    content: ContentColor,
    before: (bool, u32, bool),
)
    ensures
        ({
            let frame = Some(hdr_override(program, scale));
            let values = uniform_values(
                before,
                state.marked(Some(scale)).blend_uniforms(content),
            );
            if content == ContentColor::BlendSpace {
                &&& content.adjusted(frame) == None::<OverrideView>
                &&& values.0 == false
            } else {
                &&& content.adjusted(frame) is Some
                &&& content.adjusted(frame)->0.program == program
                &&& uniform_values(before, content.adjusted(frame)->0.uniforms) == values
                &&& values.0 == true
            }
        }),
{
    let hdr = state.marked(Some(scale));
    every_draw_sets_all_uniforms(hdr, content, before);
    every_draw_sets_all_uniforms(hdr, ContentColor::Sdr, before);
    assert(hdr_override(program, scale).uniforms =~= hdr.blend_uniforms(ContentColor::Sdr));
    let raised = hdr_override(program, scale).uniforms.push(BlendUniform::Scrgb(true));
    assert(raised.drop_last() =~= hdr_override(program, scale).uniforms);
}

/// A draw leaves the frame's override as it was. Where the override was adjusted it comes back
/// whatever the draw did to it; where it was not, the draw had the frame's own, and need only
/// leave it alone.
pub proof fn draws_leave_the_override_as_it_was(
    content: ContentColor,
    frame: Option<TexProgramOverride>,
    left: Option<TexProgramOverride>,
)
    ensures
        content.adjusts(frame) ==> restored(left, content.saves(frame)) == frame,
        !content.adjusts(frame) ==> {
            &&& content.adjusted(override_view(frame)) == override_view(frame)
            &&& restored(frame, content.saves(frame)) == frame
            &&& restored(left, content.saves(frame)) == left
        },
        content.saves(frame) is Some <==> content != ContentColor::Sdr && frame is Some,
        content.adjusts(frame) <==> content.saves(frame) is Some,
        frame matches Some(tex_program) ==> override_view(frame) == Some(
            OverrideView { program: tex_program.program, uniforms: tex_program.uniforms@ },
        ),
        frame is None ==> override_view(frame) is None,
{
}

/// After a call of [`set_frame_blend`] with a scale and a shader, all three ways to draw use that
/// very scale: textures by the override, the other shaders by the blend state, and solid colors.
pub proof fn set_frame_blend_uses_the_scale_it_is_given(
    renderer: &mut FrameRenderer,
    scale: u32,
    program: u32,
    missing: bool,
    uniforms: [BlendUniform; 3],
    before: (bool, u32, bool),
)
    requires
        call_ensures(set_frame_blend, (renderer, Some(scale), Some(program)), missing),
        call_ensures(FrameBlendState::uniforms, (&final(renderer).blend,), uniforms),
    ensures
        !missing,
        final(renderer).tex_program is Some,
        final(renderer).tex_program->0.program == program,
        uniform_values(before, final(renderer).tex_program->0.uniforms@) == (true, scale, false),
        uniform_values(before, uniforms@) == (true, scale, false),
        final(renderer).blend.ref_lum_scale == scale,
        final(renderer).solid_color_scale == Some(scale),
{
    reference_luminance_reaches_every_draw(
        old(renderer).blend,
        scale,
        program,
        ContentColor::Sdr,
        before,
    );
}

/// After a call of [`set_frame_blend`] for SDR nothing is encoded: there is no override, solid
/// colors stay as they are, and every draw has all blend uniforms at zero, whatever its content.
pub proof fn set_frame_blend_goes_back_to_sdr(
    renderer: &mut FrameRenderer,
    texture_hdr: Option<u32>,
    missing: bool,
    content: ContentColor,
    uniforms: [BlendUniform; 3],
    before: (bool, u32, bool),
)
    requires
        call_ensures(set_frame_blend, (renderer, None, texture_hdr), missing),
        call_ensures(
            FrameBlendState::uniforms_for_content,
            (&final(renderer).blend, content),
            uniforms,
        ),
    ensures
        !missing,
        final(renderer).tex_program is None,
        final(renderer).solid_color_scale is None,
        uniform_values(before, uniforms@) == (false, 0u32, false),
{
    sdr_frames_encode_nothing(old(renderer).blend, content, before);
}

/// A draw of [`FrameBlendState::uniforms_for_content`] encodes everything but blend-space content
/// on HDR frames, with the frame's scale, and raises the scRGB flag for scRGB content alone.
pub proof fn uniforms_for_content_follow_frame_and_content(
    state: FrameBlendState,
    content: ContentColor,
    uniforms: [BlendUniform; 3],
    before: (bool, u32, bool),
)
    requires
        call_ensures(FrameBlendState::uniforms_for_content, (&state, content), uniforms),
    ensures
        ({
            let (hdr_pq, scale, scrgb) = uniform_values(before, uniforms@);
            &&& hdr_pq <==> state.hdr_pq && content != ContentColor::BlendSpace
            &&& scrgb <==> state.hdr_pq && content == ContentColor::Scrgb
            &&& scale == if state.hdr_pq { state.ref_lum_scale } else { 0 }
        }),
{
    every_draw_sets_all_uniforms(state, content, before);
}

/// A call of [`ParamsState::request`] that gives metadata is accepted whatever has been set before,
/// and sets that metadata alone.
pub proof fn metadata_calls_are_accepted(
    params: &mut ParamsState,
    request: CreatorRequest,
    outcome: CreatorOutcome,
)
    requires
        call_ensures(ParamsState::request, (params, request), outcome),
        request is SetLuminances || request is SetMasteringDisplayPrimaries
            || request is SetMasteringLuminance || request is SetMaxCll || request is SetMaxFall
            || request is Other,
    ensures
        outcome == CreatorOutcome::Accepted,
        final(params).transfer == old(params).transfer,
        final(params).primaries == old(params).primaries,
        request is SetLuminances || request is Other ==> *final(params) == *old(params),
        request matches CreatorRequest::SetMasteringDisplayPrimaries { chromaticities }
            ==> *final(params) == (ParamsState {
            mastering_primaries: Some(chromaticities),
            ..*old(params)
        }),
        request matches CreatorRequest::SetMaxCll { max_cll } ==> {
            &&& *final(params) == (ParamsState { max_cll: final(params).max_cll, ..*old(params) })
            &&& final(params).max_cll is Some
            &&& max_cll <= 65535 ==> final(params).max_cll->0 == max_cll
            &&& max_cll > 65535 ==> final(params).max_cll->0 == 65535
        },
        request matches CreatorRequest::SetMaxFall { max_fall } ==> {
            &&& *final(params) == (ParamsState { max_fall: final(params).max_fall, ..*old(params) })
            &&& final(params).max_fall is Some
            &&& max_fall <= 65535 ==> final(params).max_fall->0 == max_fall
            &&& max_fall > 65535 ==> final(params).max_fall->0 == 65535
        },
        request matches CreatorRequest::SetMasteringLuminance { min_lum: _, max_lum } ==> {
            &&& *final(params) == (ParamsState {
                mastering_max_luminance: final(params).mastering_max_luminance,
                ..*old(params)
            })
            &&& final(params).mastering_max_luminance is Some
            &&& max_lum <= 65535 ==> final(params).mastering_max_luminance->0 == max_lum
            &&& max_lum > 65535 ==> final(params).mastering_max_luminance->0 == 65535
        },
{
}

/// A call of [`ParamsState::request`] that sets the transfer function or the primaries goes through
/// exactly where they are not set yet and the name, if it is one, is understood. It then sets just
/// them; otherwise it sets nothing.
pub proof fn naming_calls_set_what_is_not_set_yet(
    params: &mut ParamsState,
    request: CreatorRequest,
    outcome: CreatorOutcome,
)
    requires
        call_ensures(ParamsState::request, (params, request), outcome),
        sets_once(request),
    ensures
        request matches CreatorRequest::SetTfNamed { tf } ==> {
            &&& outcome == CreatorOutcome::Accepted <==> old(params).transfer is None && (tf == 9
                || tf == 2 || tf == 11)
            &&& *final(params) == (ParamsState {
                transfer: final(params).transfer,
                ..*old(params)
            })
            &&& outcome == CreatorOutcome::Accepted ==> {
                &&& final(params).transfer == Some(ColorTransfer::Srgb) <==> tf == 9
                &&& final(params).transfer == Some(ColorTransfer::Gamma22) <==> tf == 2
                &&& final(params).transfer == Some(ColorTransfer::St2084Pq) <==> tf == 11
            }
        },
        request matches CreatorRequest::SetPrimariesNamed { primaries } ==> {
            &&& outcome == CreatorOutcome::Accepted <==> old(params).primaries is None && (
            primaries == 1 || primaries == 6)
            &&& *final(params) == (ParamsState {
                primaries: final(params).primaries,
                ..*old(params)
            })
            &&& outcome == CreatorOutcome::Accepted ==> {
                &&& final(params).primaries == Some(
                    ContainerPrimaries::Named(ColorPrimaries::Srgb),
                ) <==> primaries == 1
                &&& final(params).primaries == Some(
                    ContainerPrimaries::Named(ColorPrimaries::Bt2020),
                ) <==> primaries == 6
            }
        },
        request matches CreatorRequest::SetPrimaries { chromaticities } ==> {
            &&& outcome == CreatorOutcome::Accepted <==> old(params).primaries is None
            &&& outcome == CreatorOutcome::Accepted ==> *final(params) == (ParamsState {
                primaries: Some(ContainerPrimaries::Custom(chromaticities)),
                ..*old(params)
            })
        },
        outcome != CreatorOutcome::Accepted ==> outcome is Rejected && *final(params) == *old(
            params,
        ),
{
}

/// What [`ImageDescription::is_hdr`] answers: true for PQ and for the named BT.2020 primaries, false
/// for everything else.
pub proof fn is_hdr_answers_for_pq_and_named_bt2020(desc: ImageDescription, answer: bool)
    requires
        call_ensures(ImageDescription::is_hdr, (&desc,), answer),
    ensures
        answer <==> desc.transfer == ColorTransfer::St2084Pq || desc.primaries
            == ContainerPrimaries::Named(ColorPrimaries::Bt2020),
{
}

/// What [`ContentColor::from_description`] makes of a parametric description: content that passes
/// through for PQ and for the named BT.2020 primaries, SDR content for everything else.
pub proof fn parametric_content_passes_through_only_if_hdr(
    desc: ImageDescription,
    committed: CommittedDescription,
    content: ContentColor,
)
    requires
        call_ensures(CommittedDescription::parametric, (&desc,), committed),
        call_ensures(ContentColor::from_description, (Some(committed),), content),
    ensures
        content == ContentColor::BlendSpace <==> desc.transfer == ColorTransfer::St2084Pq
            || desc.primaries == ContainerPrimaries::Named(ColorPrimaries::Bt2020),
        content != ContentColor::BlendSpace ==> content == ContentColor::Sdr,
{
    hdr_is_pq_or_named_bt2020(desc);
}

/// What [`OutputHdr::image_description`] hands out: PQ / BT.2020 and the display's luminances where
/// the output is configured to stay in HDR and its display was probed and supports it, sRGB and no
/// display everywhere else.
pub proof fn image_description_is_hdr_only_where_the_output_is(
    hdr: OutputHdr,
    data: ImageDescriptionData,
)
    requires
        call_ensures(OutputHdr::image_description, (&hdr,), data),
    ensures
        data.desc.transfer == ColorTransfer::St2084Pq <==> hdr.mode_on && hdr.caps is Some
            && hdr.caps->0.supported,
        data.desc.transfer != ColorTransfer::St2084Pq ==> data.desc.transfer
            == ColorTransfer::Srgb,
        data.desc.primaries == ContainerPrimaries::Named(ColorPrimaries::Bt2020) <==> hdr.mode_on
            && hdr.caps is Some && hdr.caps->0.supported,
        data.desc.primaries != ContainerPrimaries::Named(ColorPrimaries::Bt2020)
            ==> data.desc.primaries == ContainerPrimaries::Named(ColorPrimaries::Srgb),
        data.display is Some <==> hdr.mode_on && hdr.caps is Some && hdr.caps->0.supported,
        data.display matches Some(display) ==> display.target_max == hdr.caps->0.max_luminance
            && display.target_min == hdr.caps->0.min_luminance && display.reference == 203,
{
    outputs_are_described_as_they_run(hdr);
}

/// A client that asks for the description of an output, or for the preferred one of a surface on
/// it, gets one in PQ exactly where the output is kept in HDR, and both are the same description.
pub proof fn outputs_and_surfaces_are_told_the_same(
    a: &mut ColorManagementState,
    b: &mut ColorManagementState,
    request: FeedbackRequest,
    hdr: OutputHdr,
    output: Option<ReadyDescription>,
    preferred: Option<ReadyDescription>,
)
    requires
        call_ensures(
            ColorManagementState::output_request,
            (a, OutputRequest::GetImageDescription, &hdr),
            output,
        ),
        request == FeedbackRequest::GetPreferred || request
            == FeedbackRequest::GetPreferredParametric,
        call_ensures(ColorManagementState::feedback_request, (b, request, &hdr), preferred),
    ensures
        output is Some,
        preferred is Some,
        output->0.data == preferred->0.data,
        output->0.data.desc.transfer == ColorTransfer::St2084Pq <==> hdr.mode_on
            && hdr.caps is Some && hdr.caps->0.supported,
        output->0.data.display is Some <==> hdr.mode_on && hdr.caps is Some
            && hdr.caps->0.supported,
        output->0.identity == old(a)@.next,
{
    outputs_are_described_as_they_run(hdr);
}

/// Asking for the preferred description twice in a row gives the same object twice, and the second
/// time changes nothing.
pub proof fn preferred_description_is_the_same_twice(
    first: &mut ColorManagementState,
    second: &mut ColorManagementState,
    hdr: OutputHdr,
    a: Option<ReadyDescription>,
    b: Option<ReadyDescription>,
)
    requires
        call_ensures(
            ColorManagementState::feedback_request,
            (first, FeedbackRequest::GetPreferred, &hdr),
            a,
        ),
        old(second)@ == final(first)@,
        call_ensures(
            ColorManagementState::feedback_request,
            (second, FeedbackRequest::GetPreferred, &hdr),
            b,
        ),
    ensures
        a == b,
        final(second)@ == old(second)@,
{
}

/// A call of [`ColorManagementState::next_identity`] takes the next identity and moves on by one,
/// from the last one back to 1. Two calls in a row never give the same.
pub proof fn next_identity_counts_up(
    first: &mut ColorManagementState,
    second: &mut ColorManagementState,
    a: u32,
    b: u32,
)
    requires
        call_ensures(ColorManagementState::next_identity, (first,), a),
        old(second)@ == final(first)@,
        call_ensures(ColorManagementState::next_identity, (second,), b),
    ensures
        a != 0,
        b != 0,
        a < u32::MAX ==> b == a + 1,
        a == u32::MAX ==> b == 1,
        final(second)@.preferred == old(first)@.preferred,
{
}

/// Two descriptions that clients create one after the other become ready under identities that
/// follow each other, and hold what the clients set.
pub proof fn created_descriptions_are_numbered_in_order(
    first: &mut ColorManagementState,
    second: &mut ColorManagementState,
    p: &mut ParamsState,
    q: &mut ParamsState,
    a: ReadyDescription,
    b: ReadyDescription,
)
    requires
        call_ensures(
            ColorManagementState::params_request,
            (first, p, CreatorRequest::Create),
            CreatorAction::Ready(a),
        ),
        old(second)@ == final(first)@,
        call_ensures(
            ColorManagementState::params_request,
            (second, q, CreatorRequest::Create),
            CreatorAction::Ready(b),
        ),
    ensures
        a.identity == old(first)@.next,
        a.identity < u32::MAX ==> b.identity == a.identity + 1,
        a.identity == u32::MAX ==> b.identity == 1,
        old(p).transfer == Some(a.data.desc.transfer),
        old(p).primaries == Some(a.data.desc.primaries),
        a.data.desc.max_cll == old(p).max_cll,
        a.data.desc.max_fall == old(p).max_fall,
        a.data.desc.mastering_max_luminance == old(p).mastering_max_luminance,
        a.data.desc.mastering_primaries == old(p).mastering_primaries,
        a.data.display is None,
{
    refusals_name_their_cause(*old(p), CreatorRequest::Create);
    refusals_name_their_cause(*old(q), CreatorRequest::Create);
}

/// What is announced of a description is understood when it comes back: a number from `to_named` is
/// one that `from_wire` takes for the same thing.
pub proof fn announced_names_come_back(
    transfer: ColorTransfer,
    primaries: ColorPrimaries,
    tf: u32,
    number: u32,
    transfer_back: Option<ColorTransfer>,
    primaries_back: Option<ColorPrimaries>,
)
    requires
        call_ensures(ColorTransfer::to_named, (transfer,), tf),
        call_ensures(ColorTransfer::from_wire, (tf,), transfer_back),
        call_ensures(ColorPrimaries::to_named, (primaries,), number),
        call_ensures(ColorPrimaries::from_wire, (number,), primaries_back),
    ensures
        transfer_back == Some(transfer),
        primaries_back == Some(primaries),
{
    transfer_number_round_trip(transfer, tf);
    primaries_number_round_trip(primaries, number);
}

/// A luminance that fits is kept as it is, and a brighter one is kept as the brightest that fits.
pub proof fn kept_luminances_do_not_wrap(given: u32, kept: u16)
    requires
        call_ensures(u32_to_u16, (given,), kept),
    ensures
        kept <= given,
        kept == given || kept == 65535 && given > 65535,
{
}

/// A client that attaches a description reads as having attached it, it counts as a change exactly
/// where something else was attached before, and attaching it once more is no change.
pub proof fn attaching_twice_changes_once(
    first: &mut SurfaceColorData,
    second: &mut SurfaceColorData,
    data: ImageDescriptionData,
    changed: bool,
    changed_again: bool,
    read: Option<ImageDescription>,
)
    requires
        call_ensures(
            surface_request,
            (first, SurfaceRequest::SetImageDescription { image_description: Some(data) }),
            changed,
        ),
        *old(second) == *final(first),
        call_ensures(
            surface_request,
            (second, SurfaceRequest::SetImageDescription { image_description: Some(data) }),
            changed_again,
        ),
        call_ensures(surface_image_description, (Some(&*final(second)),), read),
    ensures
        changed <==> old(first).current != Some(data.desc),
        !changed_again,
        read == Some(data.desc),
{
}

/// Whatever a draw does to a frame's override, it is back in place afterwards if it was put aside
/// for the draw; and if it was not, the draw was given the frame's own.
pub proof fn adjusting_and_restoring_is_undone(
    adjusted: &mut Option<TexProgramOverride>,
    left: &mut Option<TexProgramOverride>,
    content: ContentColor,
    saved: Option<Option<TexProgramOverride>>,
)
    requires
        call_ensures(adjust_tex_program_for_content, (adjusted, content), saved),
        call_ensures(restore_tex_program, (left, saved), ()),
    ensures
        content != ContentColor::Sdr && *old(adjusted) is Some ==> *final(left) == *old(adjusted),
        content == ContentColor::Sdr || *old(adjusted) is None ==> {
            &&& *final(adjusted) == *old(adjusted)
            &&& *final(left) == *old(left)
        },
        content == ContentColor::BlendSpace ==> *final(adjusted) is None,
        content == ContentColor::Scrgb && *old(adjusted) is Some ==> {
            &&& *final(adjusted) is Some
            &&& (*final(adjusted))->0.program == (*old(adjusted))->0.program
            &&& (*final(adjusted))->0.uniforms@.last() == BlendUniform::Scrgb(true)
            &&& (*final(adjusted))->0.uniforms@.drop_last() == (*old(adjusted))->0.uniforms@
        },
{
    if content == ContentColor::Scrgb && *old(adjusted) is Some {
        let uniforms = (*old(adjusted))->0.uniforms@;
        assert(uniforms.push(BlendUniform::Scrgb(true)).drop_last() =~= uniforms);
    }
}

} // verus!
