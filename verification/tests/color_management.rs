//! Drives the same requests that real clients (wayland-info, mpv gpu-next, SDL3, wine) send.

use niri_color::creator::{CreatorRequest, ParamsState};
use niri_color::description::{
    send_image_description_info, Chromaticities, Chromaticity, ColorPrimaries, ColorTransfer,
    ContainerPrimaries, ImageDescription, ImageDescriptionData, InfoEvent, OutputHdr,
    OutputHdrCaps,
};
use niri_color::manager::{
    bind, can_view, description_request, ColorManagementGlobalData, ColorManagementState,
    CreatorAction, DescriptionRequest, FeedbackRequest, ManagerAction,
    ManagerEvent, ManagerRequest, OutputRequest, ReadyDescription,
};
use niri_color::surface::{
    surface_image_description, surface_request, SurfaceColorData, SurfaceRequest,
};
use wayland_protocols::wp::color_management::v1::server::wp_color_manager_v1::{
    Primaries, TransferFunction,
};

/// The HDR configuration of an output, as far as the visibility of the global depends on it.
struct OutputConfig {
    hdr: bool,
}

struct Client;

fn advertises(outputs: Vec<OutputConfig>) -> bool {
    let global = ColorManagementGlobalData {
        filter: move |_: &Client| outputs.iter().any(|output| output.hdr),
    };
    can_view(Client, &global)
}

/// An output that is kept in HDR, on a display that can do it.
fn hdr_mode_on() -> OutputHdr {
    OutputHdr {
        mode_on: true,
        caps: Some(OutputHdrCaps {
            supported: true,
            max_luminance: 800,
            min_luminance: 100,
            max_frame_avg_luminance: 600,
        }),
    }
}

/// Chromaticity coordinates in protocol wire units (xy * 1e6): red, green, blue, white.
fn chromaticities(xy: [(i32, i32); 4]) -> Chromaticities {
    let [red, green, blue, white] = xy.map(|(x, y)| Chromaticity { x, y });
    Chromaticities { red, green, blue, white }
}

/// The BT.2020 primaries.
fn bt2020() -> Chromaticities {
    chromaticities([(708_000, 292_000), (170_000, 797_000), (131_000, 46_000), (312_700, 329_000)])
}

/// Makes a description of the given requests, attaches it to a surface and reads it back.
fn create_and_attach(requests: &[CreatorRequest]) -> Option<ImageDescription> {
    let mut state = ColorManagementState::new();
    let mut params = ParamsState::default();
    for request in requests {
        assert_eq!(state.params_request(&mut params, *request), CreatorAction::Nothing);
    }
    let ready = match state.params_request(&mut params, CreatorRequest::Create) {
        CreatorAction::Ready(ready) => ready,
        other => panic!("unexpected {other:?}"),
    };
    attach(&ready)
}

/// Attaches a description to a surface and reads it back.
fn attach(ready: &ReadyDescription) -> Option<ImageDescription> {
    let mut surface = SurfaceColorData::default();
    let image_description = Some(ready.data);
    assert!(surface_request(
        &mut surface,
        SurfaceRequest::SetImageDescription { image_description }
    ));
    surface_image_description(Some(&surface))
}

/// The information events that a client gets for an image description.
fn information(ready: &ReadyDescription) -> Vec<InfoEvent> {
    let scheduled = description_request(DescriptionRequest::GetInformation, &ready.data)
        .expect("the information must be scheduled");
    send_image_description_info(true, &scheduled)
}

fn info_tf(events: &[InfoEvent]) -> Option<u32> {
    events.iter().find_map(|event| match event {
        InfoEvent::TfNamed { tf } => Some(*tf),
        _ => None,
    })
}

fn info_primaries(events: &[InfoEvent]) -> Option<u32> {
    events.iter().find_map(|event| match event {
        InfoEvent::PrimariesNamed { primaries } => Some(*primaries),
        _ => None,
    })
}

#[test]
fn global_is_advertised_and_bound() {
    assert!(
        advertises(vec![OutputConfig { hdr: true }]),
        "wp_color_manager_v1 was not advertised/bound"
    );
    assert_eq!(bind().last(), Some(&ManagerEvent::Done));
}

#[test]
fn global_not_advertised_without_hdr_config() {
    assert!(
        !advertises(vec![OutputConfig { hdr: false }]),
        "wp_color_manager_v1 must not be advertised without an HDR-enabled output"
    );
    assert!(!advertises(vec![]));
}

#[test]
fn probe_output_image_description_like_wayland_info() {
    // get_output -> get_image_description -> get_information, as wayland-info does.
    let mut state = ColorManagementState::new();
    assert_eq!(state.manager_request(ManagerRequest::GetOutput), ManagerAction::InitOutput);
    let ready = state
        .output_request(OutputRequest::GetImageDescription, &OutputHdr::sdr())
        .unwrap();
    assert_eq!(ready.identity, 1);
    assert_eq!(
        information(&ready),
        vec![
            InfoEvent::PrimariesNamed { primaries: u32::from(Primaries::Srgb) },
            InfoEvent::TfNamed { tf: u32::from(TransferFunction::Srgb) },
            InfoEvent::Done,
        ]
    );
}

#[test]
fn create_parametric_hdr_description_like_mpv() {
    // create_parametric_creator -> set BT.2020 + PQ + mastering metadata -> create -> attach to the
    // surface, as mpv --vo=gpu-next does for HDR content.
    let mut state = ColorManagementState::new();
    let mut params = match state.manager_request(ManagerRequest::CreateParametricCreator) {
        ManagerAction::InitCreator(params) => params,
        other => panic!("unexpected {other:?}"),
    };
    for request in [
        CreatorRequest::SetTfNamed { tf: u32::from(TransferFunction::St2084Pq) },
        CreatorRequest::SetPrimariesNamed { primaries: u32::from(Primaries::Bt2020) },
        CreatorRequest::SetMasteringDisplayPrimaries { chromaticities: bt2020() },
        CreatorRequest::SetMasteringLuminance { min_lum: 50, max_lum: 1000 },
        CreatorRequest::SetMaxCll { max_cll: 900 },
        CreatorRequest::SetMaxFall { max_fall: 400 },
    ] {
        assert_eq!(state.params_request(&mut params, request), CreatorAction::Nothing);
    }
    let ready = match state.params_request(&mut params, CreatorRequest::Create) {
        CreatorAction::Ready(ready) => ready,
        other => panic!("unexpected {other:?}"),
    };
    assert_eq!(
        ready.data.desc,
        ImageDescription {
            transfer: ColorTransfer::St2084Pq,
            primaries: ContainerPrimaries::Named(ColorPrimaries::Bt2020),
            max_cll: Some(900),
            max_fall: Some(400),
            mastering_max_luminance: Some(1000),
            mastering_primaries: Some(bt2020()),
            windows_bt2100: false,
        }
    );
    assert_eq!(ready.data.display, None);

    let mut surface = SurfaceColorData::default();
    let attach = SurfaceRequest::SetImageDescription { image_description: Some(ready.data) };
    assert!(surface_request(&mut surface, attach));
    // mpv attaches it again on every frame.
    assert!(!surface_request(&mut surface, attach));
    let attached = surface_image_description(Some(&surface)).unwrap();
    assert_eq!(attached, ready.data.desc);
    assert!(attached.is_hdr());
}

#[test]
fn feedback_preferred_defaults_to_srgb() {
    let mut state = ColorManagementState::new();
    assert_eq!(
        state.manager_request(ManagerRequest::GetSurfaceFeedback),
        ManagerAction::InitSurfaceFeedback
    );
    let ready = state
        .feedback_request(FeedbackRequest::GetPreferred, &OutputHdr::sdr())
        .unwrap();
    let events = information(&ready);
    assert_eq!(info_tf(&events), Some(u32::from(TransferFunction::Srgb)));
    assert_eq!(info_primaries(&events), Some(u32::from(Primaries::Srgb)));
}

#[test]
fn feedback_preferred_is_pq_with_mode_on() {
    // An SDL3-style client probes the preferred description once at startup, before going
    // fullscreen. With mode "on" it must see PQ/BT.2020 right away.
    let mut state = ColorManagementState::new();
    let ready = state
        .feedback_request(FeedbackRequest::GetPreferred, &hdr_mode_on())
        .unwrap();
    let events = information(&ready);
    assert_eq!(info_tf(&events), Some(u32::from(TransferFunction::St2084Pq)));
    assert_eq!(info_primaries(&events), Some(u32::from(Primaries::Bt2020)));
}

#[test]
fn preferred_identities_are_stable() {
    let mut state = ColorManagementState::new();
    let mut identities = Vec::new();
    for _ in 0..2 {
        let ready = state
            .feedback_request(FeedbackRequest::GetPreferred, &hdr_mode_on())
            .unwrap();
        identities.push(ready.identity);
    }
    assert!(
        identities.len() >= 2,
        "expected two ready events, got {identities:?}"
    );
    let last_two = &identities[identities.len() - 2..];
    assert_eq!(
        last_two[0], last_two[1],
        "the same preferred description must keep the same identity"
    );
}

#[test]
fn output_description_luminances_satisfy_wine_hdr_check() {
    // winewayland only reports an HDR display to Windows when the output image description's max
    // target luminance exceeds its reference white, both read from the info events.
    let mut state = ColorManagementState::new();
    let ready = state
        .output_request(OutputRequest::GetImageDescription, &hdr_mode_on())
        .unwrap();
    let events = information(&ready);
    let reference_lum = events
        .iter()
        .find_map(|event| match event {
            InfoEvent::Luminances { reference_lum, .. } => Some(*reference_lum),
            _ => None,
        })
        .expect("the luminances info event must be sent");
    let max_target_lum = events
        .iter()
        .find_map(|event| match event {
            InfoEvent::TargetLuminance { max_lum, .. } => Some(*max_lum),
            _ => None,
        })
        .expect("the target_luminance info event must be sent");
    // Reference white 203 cd/m² (default), max target = the display's max of 800 cd/m².
    assert_eq!(reference_lum, 203);
    assert_eq!(max_target_lum, 800);
    assert!(
        max_target_lum > reference_lum,
        "wine's HDR display detection requires max target luminance > reference white"
    );
}

#[test]
fn windows_bt2100_engages_hdr() {
    // winewayland maps VK_COLOR_SPACE_HDR10_ST2084_EXT swapchains through the v3
    // create_windows_bt2100 request; the description must become ready, attach, and engage HDR
    // like other PQ content.
    let mut state = ColorManagementState::new();
    let ready = match state.manager_request(ManagerRequest::CreateWindowsBt2100) {
        ManagerAction::Ready(ready) => ready,
        other => panic!("the BT.2100 image description must deliver ready, got {other:?}"),
    };
    assert_eq!(ready.identity, 1);
    assert_eq!(state.next_identity(), 2);
    let desc = attach(&ready);
    assert!(
        desc.is_some_and(|d| d.windows_bt2100),
        "a fullscreen BT.2100 description must engage HDR with the flag intact, got {desc:?}"
    );
    assert!(desc.is_some_and(|d| d.is_hdr()));
}

#[test]
fn extended_target_volume_roundtrip() {
    // A target color volume (BT.2020 mastering primaries) exceeding the container primaries
    // (sRGB). The mastering primaries must round-trip into the attached description.
    let desc = create_and_attach(&[
        CreatorRequest::SetTfNamed { tf: u32::from(TransferFunction::St2084Pq) },
        CreatorRequest::SetPrimariesNamed { primaries: u32::from(Primaries::Srgb) },
        CreatorRequest::SetMasteringDisplayPrimaries { chromaticities: bt2020() },
    ])
    .expect("PQ description must engage HDR");
    assert!(desc.is_hdr());
    assert_eq!(
        desc.mastering_primaries,
        Some(bt2020()),
        "client mastering display primaries must be preserved"
    );
    assert_eq!(desc.primaries.named(), Some(ColorPrimaries::Srgb));
}

#[test]
fn custom_primaries_description() {
    // A set_primaries client provides raw chromaticity coordinates instead of a named set; the
    // description must be created and the raw values must be visible, with no named primaries
    // attached.
    // Display P3 coordinates, in protocol wire units (xy * 1e6).
    let p3 = [
        (680_000, 320_000),
        (265_000, 690_000),
        (150_000, 60_000),
        (312_700, 329_000),
    ];
    let desc = create_and_attach(&[
        CreatorRequest::SetTfNamed { tf: u32::from(TransferFunction::St2084Pq) },
        CreatorRequest::SetPrimaries { chromaticities: chromaticities(p3) },
    ])
    .expect("PQ description must engage HDR");
    assert!(desc.is_hdr());
    assert_eq!(desc.primaries.named(), None);
    assert_eq!(
        desc.primaries.values(),
        Some(Chromaticities {
            red: Chromaticity { x: p3[0].0, y: p3[0].1 },
            green: Chromaticity { x: p3[1].0, y: p3[1].1 },
            blue: Chromaticity { x: p3[2].0, y: p3[2].1 },
            white: Chromaticity { x: p3[3].0, y: p3[3].1 },
        })
    );
}

#[test]
fn custom_primaries_are_told_raw() {
    let desc = ImageDescription {
        primaries: ContainerPrimaries::Custom(bt2020()),
        ..ImageDescription::srgb()
    };
    // Only the named wide gamut counts as HDR.
    assert!(!desc.is_hdr());
    assert_eq!(
        send_image_description_info(true, &ImageDescriptionData::new(desc)),
        vec![
            InfoEvent::Primaries { chromaticities: bt2020() },
            InfoEvent::TfNamed { tf: u32::from(TransferFunction::Srgb) },
            InfoEvent::Done,
        ]
    );
}

#[test]
fn identities_survive_what_is_handed_out_in_between() {
    let mut state = ColorManagementState::new();
    let preferred = FeedbackRequest::GetPreferred;
    let sdr = state.feedback_request(preferred, &OutputHdr::sdr()).unwrap();
    let hdr = state.feedback_request(preferred, &hdr_mode_on()).unwrap();
    let output = state
        .output_request(OutputRequest::GetImageDescription, &hdr_mode_on())
        .unwrap();
    let again = state
        .feedback_request(FeedbackRequest::GetPreferredParametric, &OutputHdr::sdr())
        .unwrap();
    assert_eq!((sdr.identity, hdr.identity, output.identity), (1, 2, 3));
    assert_eq!(again, sdr);
    assert_eq!(state.feedback_request(preferred, &hdr_mode_on()), Some(hdr));
    // A new description each time, for everything else.
    assert_eq!(state.next_identity(), 4);
    let made = state.make_ready_description(ImageDescriptionData::new(ImageDescription::srgb()));
    assert_eq!(made.identity, 5);
    assert_eq!(state.next_identity(), 6);
}

#[test]
fn other_requests_hand_out_nothing() {
    let mut state = ColorManagementState::new();
    for request in [OutputRequest::Destroy, OutputRequest::Other] {
        assert_eq!(state.output_request(request, &hdr_mode_on()), None);
    }
    for request in [FeedbackRequest::Destroy, FeedbackRequest::Other] {
        assert_eq!(state.feedback_request(request, &hdr_mode_on()), None);
    }
    let data = ImageDescriptionData::new(ImageDescription::srgb());
    for request in [DescriptionRequest::Destroy, DescriptionRequest::Other] {
        assert_eq!(description_request(request, &data), None);
    }
    let mut params = ParamsState::default();
    assert_eq!(
        state.params_request(&mut params, CreatorRequest::Other),
        CreatorAction::Nothing
    );
    assert_eq!(state.next_identity(), 1);
}

#[test]
fn mode_on_needs_a_capable_display() {
    let mut unsupported = hdr_mode_on();
    unsupported.caps.as_mut().unwrap().supported = false;
    let unprobed = OutputHdr { mode_on: true, caps: None };
    let mut auto = hdr_mode_on();
    auto.mode_on = false;
    for hdr in [unsupported, unprobed, auto] {
        assert_eq!(hdr.image_description().desc, ImageDescription::srgb());
        assert_eq!(hdr.image_description().display, None);
    }
    assert!(hdr_mode_on().image_description().desc.is_hdr());
}
