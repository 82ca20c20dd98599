//! `wp_color_management_surface_v1`: the image description that a client attached to a surface.

use crate::description::{ImageDescription, ImageDescriptionData};
use vstd::prelude::*;

verus! {

/// Per-surface storage for the attached image description.
#[derive(Clone, Copy, Debug, PartialEq, Eq, Structural)]
pub struct SurfaceColorData {
    pub current: Option<ImageDescription>,
}

impl Default for SurfaceColorData {
    fn default() -> (data: Self)
        ensures
            data.current is None,
    {
        SurfaceColorData { current: None }
    }
}

/// A request on a color management surface.
#[derive(Clone, Copy, Debug, PartialEq, Eq, Structural)]
pub enum SurfaceRequest {
    /// Attach a description; there is none where the object that the client passed was not
    /// created by this compositor. The rendering intent is always the perceptual one.
    SetImageDescription { image_description: Option<ImageDescriptionData> },
    UnsetImageDescription,
    Destroy,
    /// A request of a later protocol version.
    Other,
}

impl SurfaceRequest {
    /// What the surface has attached after the request, with `current` attached before.
    pub open spec fn attaches(self, current: Option<ImageDescription>) -> Option<
        ImageDescription,
    > {
        match self {
            SurfaceRequest::SetImageDescription { image_description: Some(data) } => Some(
                data.desc,
            ),
            SurfaceRequest::UnsetImageDescription => None,
            _ => current,
        }
    }
}

/// Stores the image description that a client attached to a surface (or clears it with `None`).
/// Returns whether the value actually changed: clients re-attach the same description every
/// frame, and only real changes matter.
pub fn store_surface_image_description(
    surface: &mut SurfaceColorData,
    desc: Option<ImageDescription>,
) -> (changed: bool)
    ensures
        final(surface).current == desc,
        changed == (old(surface).current != desc),
{
    if surface.current == desc {
        false
    } else {
        surface.current = desc;
        true
    }
}

/// Reads the image description that a client attached to a surface, if any. A surface on which
/// nothing was ever stored has no storage.
pub fn surface_image_description(surface: Option<&SurfaceColorData>) -> (desc: Option<
    ImageDescription,
>)
    ensures
        desc == (match surface {
            Some(data) => data.current,
            None => None,
        }),
{
    match surface {
        Some(data) => data.current,
        None => None,
    }
}

/// Handles a request on a color management surface. Returns whether the surface's description
/// changed, in which case HDR is to be re-evaluated for the surface's output.
pub fn surface_request(surface: &mut SurfaceColorData, request: SurfaceRequest) -> (changed: bool)
    ensures
        final(surface).current == request.attaches(old(surface).current),
        changed == (final(surface).current != old(surface).current),
{
    match request {
        SurfaceRequest::SetImageDescription { image_description } => {
            match image_description {
                Some(data) => store_surface_image_description(surface, Some(data.desc)),
                None => false,
            }
        },
        SurfaceRequest::UnsetImageDescription => store_surface_image_description(surface, None),
        SurfaceRequest::Destroy | SurfaceRequest::Other => false,
    }
}

} // verus!
