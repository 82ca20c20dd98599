use niri_color::creator::{
    u32_to_u16, CreatorError, CreatorOutcome, CreatorRejection, CreatorRequest, ParamsState,
};
use niri_color::description::{
    send_image_description_info, Chromaticities, Chromaticity, ColorPrimaries, ColorTransfer,
    ContainerPrimaries, ImageDescription, ImageDescriptionData,
};
use niri_color::manager::{
    bind, ColorManagementState, CreatorAction, Feature, ManagerAction,
    ManagerError, ManagerEvent, ManagerRejection, ManagerRequest, VERSION,
};
use niri_color::surface::{
    store_surface_image_description, surface_image_description, surface_request,
    SurfaceColorData, SurfaceRequest,
};
use niri_color::wire::{
    PRIMARIES_BT2020, PRIMARIES_SRGB, TF_GAMMA22, TF_SRGB, TF_ST2084_PQ,
};
use wayland_protocols::wp::color_management::v1::server::wp_color_manager_v1::{
    Primaries, TransferFunction,
};

fn rejected(rejection: CreatorRejection) -> CreatorOutcome {
    CreatorOutcome::Rejected(rejection)
}

fn hdr10() -> ImageDescription {
    ImageDescription {
        transfer: ColorTransfer::St2084Pq,
        primaries: ContainerPrimaries::Named(ColorPrimaries::Bt2020),
        max_cll: None,
        max_fall: None,
        mastering_max_luminance: None,
        mastering_primaries: None,
        windows_bt2100: false,
    }
}

/// Chromaticities that differ by `n`.
fn chromaticities(n: i32) -> Chromaticities {
    let at = |x, y| Chromaticity { x: x + n, y };
    Chromaticities { red: at(1, 2), green: at(3, 4), blue: at(5, 6), white: at(7, 8) }
}

fn manager_request(request: ManagerRequest) -> ManagerAction {
    ColorManagementState::new().manager_request(request)
}

#[test]
fn wire_numbers_are_the_protocols() {
    assert_eq!(TF_SRGB, u32::from(TransferFunction::Srgb));
    assert_eq!(TF_GAMMA22, u32::from(TransferFunction::Gamma22));
    assert_eq!(TF_ST2084_PQ, u32::from(TransferFunction::St2084Pq));
    assert_eq!(PRIMARIES_SRGB, u32::from(Primaries::Srgb));
    assert_eq!(PRIMARIES_BT2020, u32::from(Primaries::Bt2020));
}

#[test]
fn protocol_names_are_numbered_without_gaps() {
    for raw in 0..40 {
        assert_eq!(TransferFunction::try_from(raw).is_ok(), (1..=14).contains(&raw));
        assert_eq!(Primaries::try_from(raw).is_ok(), (1..=10).contains(&raw));
    }
}

#[test]
fn named_round_trip() {
    for transfer in [ColorTransfer::Srgb, ColorTransfer::Gamma22, ColorTransfer::St2084Pq] {
        assert_eq!(ColorTransfer::from_named(transfer.to_named()), Some(transfer));
        assert_eq!(ColorTransfer::from_wire(transfer.to_named()), Some(transfer));
    }
    for primaries in [ColorPrimaries::Srgb, ColorPrimaries::Bt2020] {
        assert_eq!(ColorPrimaries::from_named(primaries.to_named()), Some(primaries));
        assert_eq!(ColorPrimaries::from_wire(primaries.to_named()), Some(primaries));
    }
}

#[test]
fn names_that_are_not_understood() {
    for raw in 0..40 {
        let understood = [TF_SRGB, TF_GAMMA22, TF_ST2084_PQ].contains(&raw);
        assert_eq!(ColorTransfer::from_wire(raw).is_some(), understood);
        let understood = [PRIMARIES_SRGB, PRIMARIES_BT2020].contains(&raw);
        assert_eq!(ColorPrimaries::from_wire(raw).is_some(), understood);
    }
    assert_eq!(ColorTransfer::from_wire(u32::MAX), None);
    assert_eq!(ColorPrimaries::from_wire(u32::MAX), None);
    assert_eq!(ColorTransfer::from_named(u32::from(TransferFunction::Hlg)), None);
    assert_eq!(ColorPrimaries::from_named(u32::from(Primaries::DisplayP3)), None);
}

#[test]
fn hdr_is_pq_or_wide_gamut() {
    assert!(ColorTransfer::St2084Pq.is_hdr());
    assert!(!ColorTransfer::Srgb.is_hdr());
    assert!(!ColorTransfer::Gamma22.is_hdr());
    assert!(!ImageDescription::srgb().is_hdr());
    assert!(hdr10().is_hdr());
    assert!(ImageDescription { primaries: ContainerPrimaries::Named(ColorPrimaries::Srgb), ..hdr10() }.is_hdr());
    assert!(ImageDescription { transfer: ColorTransfer::Gamma22, ..hdr10() }.is_hdr());
}

#[test]
fn luminances_are_capped() {
    assert_eq!(u32_to_u16(0), 0);
    assert_eq!(u32_to_u16(1000), 1000);
    assert_eq!(u32_to_u16(65535), 65535);
    assert_eq!(u32_to_u16(65536), 65535);
    assert_eq!(u32_to_u16(u32::MAX), 65535);
}

#[test]
fn advertisement() {
    assert_eq!(VERSION, 1);
    assert_eq!(
        bind(),
        vec![
            ManagerEvent::SupportedIntentPerceptual,
            ManagerEvent::SupportedFeature(Feature::Parametric),
            ManagerEvent::SupportedFeature(Feature::SetMasteringDisplayPrimaries),
            ManagerEvent::SupportedFeature(Feature::SetLuminances),
            ManagerEvent::SupportedTfNamed { tf: 9 },
            ManagerEvent::SupportedTfNamed { tf: 2 },
            ManagerEvent::SupportedTfNamed { tf: 11 },
            ManagerEvent::SupportedPrimariesNamed { primaries: 1 },
            ManagerEvent::SupportedPrimariesNamed { primaries: 6 },
            ManagerEvent::Done,
        ]
    );
}

#[test]
fn what_is_advertised_is_what_is_accepted() {
    let events = bind();
    for number in 0..40 {
        let outcome = ParamsState::default().request(CreatorRequest::SetTfNamed { tf: number });
        assert_eq!(
            outcome == CreatorOutcome::Accepted,
            events.contains(&ManagerEvent::SupportedTfNamed { tf: number })
        );
        let outcome = ParamsState::default()
            .request(CreatorRequest::SetPrimariesNamed { primaries: number });
        assert_eq!(
            outcome == CreatorOutcome::Accepted,
            events.contains(&ManagerEvent::SupportedPrimariesNamed { primaries: number })
        );
    }
}

#[test]
fn manager_requests() {
    assert_eq!(manager_request(ManagerRequest::GetSurface), ManagerAction::InitSurface);
    assert_eq!(manager_request(ManagerRequest::Destroy), ManagerAction::Nothing);
    assert_eq!(manager_request(ManagerRequest::Other), ManagerAction::Nothing);
    assert_eq!(
        manager_request(ManagerRequest::CreateParametricCreator),
        ManagerAction::InitCreator(ParamsState::default())
    );
}

#[test]
fn icc_and_scrgb_are_not_supported() {
    let icc = ManagerRejection::IccCreator;
    assert_eq!(manager_request(ManagerRequest::CreateIccCreator), ManagerAction::Reject(icc));
    assert_eq!(icc.error(), ManagerError::UnsupportedFeature);
    assert_eq!(icc.message(), "ICC image descriptions are not supported");
    let scrgb = ManagerRejection::WindowsScrgb;
    assert_eq!(manager_request(ManagerRequest::CreateWindowsScrgb), ManagerAction::Reject(scrgb));
    assert_eq!(scrgb.error(), ManagerError::UnsupportedFeature);
    assert_eq!(scrgb.message(), "Windows scRGB image descriptions are not supported");
}

#[test]
fn transfer_function_is_set_once() {
    let mut params = ParamsState::default();
    assert_eq!(
        params.request(CreatorRequest::SetTfNamed { tf: TF_GAMMA22 }),
        CreatorOutcome::Accepted
    );
    let before = params;
    // Already set comes first, even for a transfer function that is not understood.
    for tf in [TF_GAMMA22, TF_SRGB, 0, 99] {
        let rejection = CreatorRejection::TransferAlreadySet;
        assert_eq!(params.request(CreatorRequest::SetTfNamed { tf }), rejected(rejection));
        assert_eq!(rejection.error(), CreatorError::AlreadySet);
        assert_eq!(rejection.message(), "transfer function already set");
    }
    assert_eq!(params, before);
}

#[test]
fn primaries_are_set_once() {
    let mut params = ParamsState::default();
    assert_eq!(
        params.request(CreatorRequest::SetPrimariesNamed { primaries: PRIMARIES_SRGB }),
        CreatorOutcome::Accepted
    );
    let rejection = CreatorRejection::PrimariesAlreadySet;
    assert_eq!(
        params.request(CreatorRequest::SetPrimariesNamed { primaries: PRIMARIES_BT2020 }),
        rejected(rejection)
    );
    assert_eq!(
        params.request(CreatorRequest::SetPrimaries { chromaticities: chromaticities(0) }),
        rejected(rejection)
    );
    assert_eq!(params.primaries, Some(ContainerPrimaries::Named(ColorPrimaries::Srgb)));
    assert_eq!(rejection.error(), CreatorError::AlreadySet);
    assert_eq!(rejection.message(), "primaries already set");

    // The same the other way round.
    let mut params = ParamsState::default();
    assert_eq!(
        params.request(CreatorRequest::SetPrimaries { chromaticities: chromaticities(0) }),
        CreatorOutcome::Accepted
    );
    for request in [
        CreatorRequest::SetPrimaries { chromaticities: chromaticities(1) },
        CreatorRequest::SetPrimariesNamed { primaries: PRIMARIES_BT2020 },
        CreatorRequest::SetPrimariesNamed { primaries: 0 },
    ] {
        assert_eq!(params.request(request), rejected(rejection));
    }
    assert_eq!(params.primaries, Some(ContainerPrimaries::Custom(chromaticities(0))));
}

#[test]
fn unsupported_names_are_refused() {
    let mut params = ParamsState::default();
    let rejection = CreatorRejection::UnsupportedTransfer;
    for tf in [u32::from(TransferFunction::Hlg), 0, 15] {
        assert_eq!(params.request(CreatorRequest::SetTfNamed { tf }), rejected(rejection));
    }
    assert_eq!(rejection.error(), CreatorError::InvalidTf);
    assert_eq!(rejection.message(), "unsupported transfer function");
    let rejection = CreatorRejection::UnsupportedPrimaries;
    for primaries in [u32::from(Primaries::DisplayP3), 0, 11] {
        assert_eq!(
            params.request(CreatorRequest::SetPrimariesNamed { primaries }),
            rejected(rejection)
        );
    }
    assert_eq!(rejection.error(), CreatorError::InvalidPrimariesNamed);
    assert_eq!(rejection.message(), "unsupported primaries");
    assert_eq!(params, ParamsState::default());
}

#[test]
fn unadvertised_features_are_refused() {
    let mut params = ParamsState::default();
    let power = CreatorRejection::TfPower;
    assert_eq!(params.request(CreatorRequest::SetTfPower), rejected(power));
    assert_eq!(power.error(), CreatorError::UnsupportedFeature);
    assert_eq!(power.message(), "set_tf_power is not supported");
    for request in [
        CreatorRequest::SetLuminances,
        CreatorRequest::Other,
    ] {
        assert_eq!(params.request(request), CreatorOutcome::Accepted);
    }
    assert_eq!(params, ParamsState::default());
}

#[test]
fn create_needs_both_names() {
    let incomplete = CreatorRejection::Incomplete;
    assert_eq!(incomplete.error(), CreatorError::IncompleteSet);
    assert_eq!(
        incomplete.message(),
        "transfer function and primaries are both required"
    );
    let tf = CreatorRequest::SetTfNamed { tf: TF_SRGB };
    let primaries = CreatorRequest::SetPrimariesNamed { primaries: PRIMARIES_SRGB };
    for request in [tf, primaries, CreatorRequest::SetMaxCll { max_cll: 1 }] {
        let mut params = ParamsState::default();
        assert_eq!(params.request(CreatorRequest::Create), rejected(incomplete));
        assert_eq!(params.request(request), CreatorOutcome::Accepted);
        assert_eq!(params.request(CreatorRequest::Create), rejected(incomplete));
    }
    // In either order.
    for requests in [[tf, primaries], [primaries, tf]] {
        let mut params = ParamsState::default();
        for request in requests {
            params.request(request);
        }
        assert_eq!(
            params.request(CreatorRequest::Create),
            CreatorOutcome::Created(ImageDescription::srgb())
        );
    }
}

#[test]
fn metadata_may_be_set_again() {
    let mut params = ParamsState::default();
    for request in [
        CreatorRequest::SetTfNamed { tf: TF_ST2084_PQ },
        CreatorRequest::SetMaxCll { max_cll: 1 },
        CreatorRequest::SetMaxCll { max_cll: 70000 },
        CreatorRequest::SetMaxFall { max_fall: 2 },
        CreatorRequest::SetMaxFall { max_fall: 300 },
        CreatorRequest::SetMasteringLuminance { min_lum: 1, max_lum: 4 },
        CreatorRequest::SetMasteringLuminance { min_lum: 9, max_lum: 4000 },
        CreatorRequest::SetMasteringDisplayPrimaries { chromaticities: chromaticities(1) },
        CreatorRequest::SetMasteringDisplayPrimaries { chromaticities: chromaticities(2) },
        CreatorRequest::SetPrimariesNamed { primaries: PRIMARIES_BT2020 },
    ] {
        assert_eq!(params.request(request), CreatorOutcome::Accepted);
    }
    let before = params;
    assert_eq!(
        params.request(CreatorRequest::Create),
        CreatorOutcome::Created(ImageDescription {
            max_cll: Some(65535),
            max_fall: Some(300),
            mastering_max_luminance: Some(4000),
            mastering_primaries: Some(chromaticities(2)),
            ..hdr10()
        })
    );
    assert_eq!(params, before);
}

#[test]
fn refusals_reach_the_client() {
    let mut state = ColorManagementState::new();
    let mut params = ParamsState::default();
    assert_eq!(
        state.params_request(&mut params, CreatorRequest::Create),
        CreatorAction::Reject(CreatorRejection::Incomplete)
    );
    assert_eq!(state.next_identity(), 1);
}

#[test]
fn dead_objects_get_no_information() {
    let data = ImageDescriptionData::new(ImageDescription::srgb());
    assert_eq!(send_image_description_info(false, &data), vec![]);
    assert_eq!(send_image_description_info(true, &data).len(), 3);
}

#[test]
fn surface_storage() {
    assert_eq!(surface_image_description(None), None);
    let mut surface = SurfaceColorData::default();
    assert_eq!(surface_image_description(Some(&surface)), None);
    assert!(!store_surface_image_description(&mut surface, None));
    assert!(store_surface_image_description(&mut surface, Some(hdr10())));
    assert!(!store_surface_image_description(&mut surface, Some(hdr10())));
    assert_eq!(surface_image_description(Some(&surface)), Some(hdr10()));
    assert!(store_surface_image_description(&mut surface, Some(ImageDescription::srgb())));
    assert!(store_surface_image_description(&mut surface, None));
    assert_eq!(surface_image_description(Some(&surface)), None);
}

#[test]
fn surface_requests() {
    let mut surface = SurfaceColorData::default();
    let set = SurfaceRequest::SetImageDescription {
        image_description: Some(ImageDescriptionData::new(hdr10())),
    };
    assert!(surface_request(&mut surface, set));
    for request in [
        set,
        SurfaceRequest::SetImageDescription { image_description: None },
        SurfaceRequest::Destroy,
        SurfaceRequest::Other,
    ] {
        assert!(!surface_request(&mut surface, request));
        assert_eq!(surface_image_description(Some(&surface)), Some(hdr10()));
    }
    assert!(surface_request(&mut surface, SurfaceRequest::UnsetImageDescription));
    assert!(!surface_request(&mut surface, SurfaceRequest::UnsetImageDescription));
    assert_eq!(surface_image_description(Some(&surface)), None);
}
