//! The BRDF lookup-table pass bakes its table once: it runs until it has
//! recorded the bake, and never after.
use vstd::prelude::*;
use crate::recording::{Command, CommandView, commands_view};
use crate::vulkan::BIND_POINT_GRAPHICS;

verus! {

/// Whether the lookup table has been baked. Only recording the bake changes
/// it, and only from not baked to baked.
#[derive(Debug)]
pub struct BrdfLutBake {
    baked: bool,
}

impl BrdfLutBake {
    /// The table has been baked.
    pub closed spec fn is_baked(&self) -> bool {
        self.baked
    }

    /// A table not baked yet.
    pub fn new() -> (b: Self)
        ensures
            !b.is_baked(),
    {
        BrdfLutBake { baked: false }
    }

    /// The pass runs while the table is not baked.
    pub fn is_enabled(&self) -> (enabled: bool)
        ensures
            enabled == !self.is_baked(),
    {
        !self.baked
    }

    /// Recording the bake binds the graphics pipeline and draws the
    /// fullscreen triangle, then marks the table baked.
    pub fn record(&mut self) -> (c: Vec<Command<(), ()>>)
        ensures
            final(self).is_baked(),
            commands_view(c@) == seq![CommandView::<(), ()>::BindPipeline(BIND_POINT_GRAPHICS), CommandView::Draw(3)],
    {
        let mut c: Vec<Command<(), ()>> = Vec::new();
        c.push(Command::BindPipeline(BIND_POINT_GRAPHICS));
        c.push(Command::Draw(3));
        self.baked = true;
        assert(commands_view(c@) =~= seq![CommandView::<(), ()>::BindPipeline(BIND_POINT_GRAPHICS), CommandView::Draw(3)]);
        c
    }
}

/// A built lookup-table pass: the pipeline its configuration gave, the
/// image it bakes into, and its bake state, not baked yet when built. `P`
/// is the pipeline handle, `I` the render graph's image handle.
#[derive(Debug)]
pub struct BrdfLutPass<P, I> {
    pub pipeline: P,
    pub brdf_lut_image: I,
    pub bake: BrdfLutBake,
}

impl<P, I> BrdfLutPass<P, I> {
    /// The pass over the pipeline its configuration gave; it runs until
    /// it has baked.
    pub fn new(pipeline: P, brdf_lut_image: I) -> (pass: Self)
        ensures
            pass.pipeline == pipeline,
            pass.brdf_lut_image == brdf_lut_image,
            !pass.bake.is_baked(),
    {
        BrdfLutPass { pipeline, brdf_lut_image, bake: BrdfLutBake::new() }
    }
}

} // verus!
