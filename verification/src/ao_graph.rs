//! How ambient occlusion is wired into the render graph: the images it
//! creates and the passes it adds, in order.
use vstd::prelude::*;
use crate::vulkan::{FORMAT_R16G16_SFLOAT, FORMAT_R16G16B16A16_SFLOAT};

verus! {

/// An image that ambient occlusion creates in the render graph.
#[derive(Clone, Copy, Debug)]
pub struct AoImage {
    pub name: &'static str,
    /// Vulkan format value.
    pub format: i32,
    /// Used as a storage image.
    pub storage: bool,
    /// Sized as the full render extent.
    pub render_full_size: bool,
}

/// A pass that ambient occlusion adds; the fields are indices into the
/// plan's images.
#[derive(Clone, Copy, Debug)]
pub enum AoStep {
    /// Ray-traced occlusion into the raw image.
    RayTracedAo { target: usize },
    /// Screen-space occlusion into the raw image.
    ScreenSpaceAo { target: usize },
    /// The denoiser's guide, written into both guide images.
    DenoiseGuide { guide_a: usize, guide_b: usize },
    /// Temporal denoising of the raw occlusion into the history images.
    TemporalDenoise {
        signal: usize,
        guide_a: usize,
        guide_b: usize,
        history_a: usize,
        history_b: usize,
        /// The denoiser treats the signal as ray traced.
        rt_mode: bool,
    },
}

/// The images and passes of ambient occlusion, and which images are the
/// raw occlusion, the guide pair and the history pair.
#[derive(Debug)]
pub struct AoPlan {
    pub images: Vec<AoImage>,
    pub steps: Vec<AoStep>,
    pub raw: usize,
    pub guide: (usize, usize),
    pub history: (usize, usize),
}

/// A full-size storage image.
pub open spec fn ao_image(name: &'static str, format: i32) -> AoImage {
    AoImage { name, format, storage: true, render_full_size: true }
}

/// The images, in creation order: the raw occlusion as two half floats,
/// then the two guide images and the two history images as four half
/// floats.
pub open spec fn ao_images_spec() -> Seq<AoImage> {
    seq![
        ao_image("gtao", FORMAT_R16G16_SFLOAT),
        ao_image("denoise_guide_a", FORMAT_R16G16B16A16_SFLOAT),
        ao_image("denoise_guide_b", FORMAT_R16G16B16A16_SFLOAT),
        ao_image("gtao_history_a", FORMAT_R16G16B16A16_SFLOAT),
        ao_image("gtao_history_b", FORMAT_R16G16B16A16_SFLOAT),
    ]
}

/// The passes, in order: ray-traced occlusion when it is asked for and an
/// acceleration structure exists, else screen-space occlusion; then the
/// guide; then temporal denoising, in ray-traced mode under the same
/// condition.
pub open spec fn ao_steps_spec(rt_ao: bool, has_tlas: bool) -> Seq<AoStep> {
    let traced = rt_ao && has_tlas;
    seq![
        if traced { AoStep::RayTracedAo { target: 0 } } else { AoStep::ScreenSpaceAo { target: 0 } },
        AoStep::DenoiseGuide { guide_a: 1, guide_b: 2 },
        AoStep::TemporalDenoise { signal: 0, guide_a: 1, guide_b: 2, history_a: 3, history_b: 4, rt_mode: traced },
    ]
}

/// Ambient occlusion's images and passes for a frame.
pub fn ao_plan(rt_ao: bool, has_tlas: bool) -> (p: AoPlan)
    ensures
        p.images@ == ao_images_spec(),
        p.steps@ == ao_steps_spec(rt_ao, has_tlas),
        p.raw == 0,
        p.guide == (1usize, 2usize),
        p.history == (3usize, 4usize),
{
    let mut images: Vec<AoImage> = Vec::new();
    images.push(AoImage { name: "gtao", format: FORMAT_R16G16_SFLOAT, storage: true, render_full_size: true });
    images.push(AoImage {
        name: "denoise_guide_a",
        format: FORMAT_R16G16B16A16_SFLOAT,
        storage: true,
        render_full_size: true,
    });
    images.push(AoImage {
        name: "denoise_guide_b",
        format: FORMAT_R16G16B16A16_SFLOAT,
        storage: true,
        render_full_size: true,
    });
    images.push(AoImage {
        name: "gtao_history_a",
        format: FORMAT_R16G16B16A16_SFLOAT,
        storage: true,
        render_full_size: true,
    });
    images.push(AoImage {
        name: "gtao_history_b",
        format: FORMAT_R16G16B16A16_SFLOAT,
        storage: true,
        render_full_size: true,
    });
    let traced = rt_ao && has_tlas;
    let mut steps: Vec<AoStep> = Vec::new();
    if traced {
        steps.push(AoStep::RayTracedAo { target: 0 });
    } else {
        steps.push(AoStep::ScreenSpaceAo { target: 0 });
    }
    steps.push(AoStep::DenoiseGuide { guide_a: 1, guide_b: 2 });
    steps.push(AoStep::TemporalDenoise { signal: 0, guide_a: 1, guide_b: 2, history_a: 3, history_b: 4, rt_mode: traced });
    assert(images@ =~= ao_images_spec());
    assert(steps@ =~= ao_steps_spec(rt_ao, has_tlas));
    AoPlan { images, steps, raw: 0, guide: (1, 2), history: (3, 4) }
}

/// The temporal denoiser runs in ray-traced mode exactly when the
/// occlusion it denoises was ray traced.
pub proof fn lemma_ao_denoise_mode_matches_technique(rt_ao: bool, has_tlas: bool)
    ensures
        ao_steps_spec(rt_ao, has_tlas)[0] is RayTracedAo <==> ao_steps_spec(rt_ao, has_tlas)[2]->rt_mode,
{
}

/// The passes are wired to the images by name: the occlusion pass writes
/// "gtao", the guide pass writes "denoise_guide_a" and "denoise_guide_b",
/// and the temporal denoiser reads "gtao" and both guides and writes
/// "gtao_history_a" and "gtao_history_b"; the occlusion is ray traced
/// exactly when it is asked for and an acceleration structure exists; the
/// raw occlusion has two half-float channels, the guides and histories
/// four; every image is a full-size storage image.
pub proof fn lemma_ao_plan_wiring(rt_ao: bool, has_tlas: bool)
    ensures
        ({
            let images = ao_images_spec();
            let steps = ao_steps_spec(rt_ao, has_tlas);
            &&& steps.len() == 3
            &&& (steps[0] is RayTracedAo <==> rt_ao && has_tlas)
            &&& (steps[0] is ScreenSpaceAo <==> !(rt_ao && has_tlas))
            &&& (steps[0] matches AoStep::RayTracedAo { target } ==> images[target as int].name@ == "gtao"@)
            &&& (steps[0] matches AoStep::ScreenSpaceAo { target } ==> images[target as int].name@ == "gtao"@)
            &&& (steps[1] matches AoStep::DenoiseGuide { guide_a, guide_b } && images[guide_a as int].name@
                == "denoise_guide_a"@ && images[guide_b as int].name@ == "denoise_guide_b"@)
            &&& (steps[2] matches AoStep::TemporalDenoise { signal, guide_a, guide_b, history_a, history_b, rt_mode }
                && images[signal as int].name@ == "gtao"@ && images[guide_a as int].name@ == "denoise_guide_a"@
                && images[guide_b as int].name@ == "denoise_guide_b"@ && images[history_a as int].name@
                == "gtao_history_a"@ && images[history_b as int].name@ == "gtao_history_b"@ && rt_mode == (rt_ao
                && has_tlas))
            &&& images[0].format == FORMAT_R16G16_SFLOAT
            &&& forall|i: int| 1 <= i < 5 ==> #[trigger] images[i].format == FORMAT_R16G16B16A16_SFLOAT
            &&& forall|i: int| 0 <= i < 5 ==> #[trigger] images[i].storage && images[i].render_full_size
        }),
{
}

} // verus!
