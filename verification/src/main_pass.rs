//! The main (forward shading) pass: its push constants, the entity-picking
//! record, and how a frame's settings and history select what the pass reads.
use vstd::prelude::*;
use crate::layout::{MAX_PUSH_CONSTANTS_SIZE, DeviceAddress, lo_word, hi_word, join_words, zeros, words_to_bytes, bytes_to_words, lemma_words_to_bytes, lemma_split_join, push_u64, push_zeros, words_to_le_bytes};

verus! {

use crate::history::history_roles;

/// Push constants of the main pass.
#[derive(Clone, Copy, Debug)]
pub struct MainPushConstants {
    pub scene_buffer_device_address: DeviceAddress,
    pub draw_data_buffer_device_address: DeviceAddress,
    pub vertex_buffer_device_address: DeviceAddress,
    pub entity_buffer_device_address: DeviceAddress,
    pub submesh_buffer_device_address: DeviceAddress,
    pub material_buffer_device_address: DeviceAddress,
    pub bone_transform_buffer_device_address: DeviceAddress,
    pub picked_entity_buffer_device_address: DeviceAddress,
    pub shadow_factor_descriptor_id: u32,
    pub shadow_enabled: u32,
    pub shadow_colored: u32,
    pub gtao_descriptor_id: u32,
    pub ao_enabled: u32,
    pub sh_descriptor_id: u32,
    pub brdf_lut_descriptor_id: u32,
    pub pick_x: u32,
    pub pick_y: u32,
}

impl MainPushConstants {
    /// Size of the block in bytes: eight addresses, nine words and one padding word.
    pub const SIZE: usize = 104;

    /// The block holding the given values.
    pub fn create(
        scene_buffer_device_address: DeviceAddress,
        draw_data_buffer_device_address: DeviceAddress,
        vertex_buffer_device_address: DeviceAddress,
        entity_buffer_device_address: DeviceAddress,
        submesh_buffer_device_address: DeviceAddress,
        material_buffer_device_address: DeviceAddress,
        bone_transform_buffer_device_address: DeviceAddress,
        picked_entity_buffer_device_address: DeviceAddress,
        shadow_factor_descriptor_id: u32,
        shadow_enabled: u32,
        shadow_colored: u32,
        gtao_descriptor_id: u32,
        ao_enabled: u32,
        sh_descriptor_id: u32,
        brdf_lut_descriptor_id: u32,
        pick_x: u32,
        pick_y: u32,
    ) -> (pc: Self)
        ensures
            pc.scene_buffer_device_address == scene_buffer_device_address,
            pc.draw_data_buffer_device_address == draw_data_buffer_device_address,
            pc.vertex_buffer_device_address == vertex_buffer_device_address,
            pc.entity_buffer_device_address == entity_buffer_device_address,
            pc.submesh_buffer_device_address == submesh_buffer_device_address,
            pc.material_buffer_device_address == material_buffer_device_address,
            pc.bone_transform_buffer_device_address == bone_transform_buffer_device_address,
            pc.picked_entity_buffer_device_address == picked_entity_buffer_device_address,
            pc.shadow_factor_descriptor_id == shadow_factor_descriptor_id,
            pc.shadow_enabled == shadow_enabled,
            pc.shadow_colored == shadow_colored,
            pc.gtao_descriptor_id == gtao_descriptor_id,
            pc.ao_enabled == ao_enabled,
            pc.sh_descriptor_id == sh_descriptor_id,
            pc.brdf_lut_descriptor_id == brdf_lut_descriptor_id,
            pc.pick_x == pick_x,
            pc.pick_y == pick_y,
    {
        Self {
            scene_buffer_device_address,
            draw_data_buffer_device_address,
            vertex_buffer_device_address,
            entity_buffer_device_address,
            submesh_buffer_device_address,
            material_buffer_device_address,
            bone_transform_buffer_device_address,
            picked_entity_buffer_device_address,
            shadow_factor_descriptor_id,
            shadow_enabled,
            shadow_colored,
            gtao_descriptor_id,
            ao_enabled,
            sh_descriptor_id,
            brdf_lut_descriptor_id,
            pick_x,
            pick_y,
        }
    }

    /// The block as words, in field order, padded with zeros.
    pub open spec fn words(self) -> Seq<u32> {
        seq![
            lo_word(self.scene_buffer_device_address),
            hi_word(self.scene_buffer_device_address),
            lo_word(self.draw_data_buffer_device_address),
            hi_word(self.draw_data_buffer_device_address),
            lo_word(self.vertex_buffer_device_address),
            hi_word(self.vertex_buffer_device_address),
            lo_word(self.entity_buffer_device_address),
            hi_word(self.entity_buffer_device_address),
            lo_word(self.submesh_buffer_device_address),
            hi_word(self.submesh_buffer_device_address),
            lo_word(self.material_buffer_device_address),
            hi_word(self.material_buffer_device_address),
            lo_word(self.bone_transform_buffer_device_address),
            hi_word(self.bone_transform_buffer_device_address),
            lo_word(self.picked_entity_buffer_device_address),
            hi_word(self.picked_entity_buffer_device_address),
            self.shadow_factor_descriptor_id,
            self.shadow_enabled,
            self.shadow_colored,
            self.gtao_descriptor_id,
            self.ao_enabled,
            self.sh_descriptor_id,
            self.brdf_lut_descriptor_id,
            self.pick_x,
            self.pick_y,
        ] + zeros(1)
    }

    /// The block that a word sequence holds.
    pub open spec fn from_words(w: Seq<u32>) -> Self {
        Self {
            scene_buffer_device_address: join_words(w[0], w[1]),
            draw_data_buffer_device_address: join_words(w[2], w[3]),
            vertex_buffer_device_address: join_words(w[4], w[5]),
            entity_buffer_device_address: join_words(w[6], w[7]),
            submesh_buffer_device_address: join_words(w[8], w[9]),
            material_buffer_device_address: join_words(w[10], w[11]),
            bone_transform_buffer_device_address: join_words(w[12], w[13]),
            picked_entity_buffer_device_address: join_words(w[14], w[15]),
            shadow_factor_descriptor_id: w[16],
            shadow_enabled: w[17],
            shadow_colored: w[18],
            gtao_descriptor_id: w[19],
            ao_enabled: w[20],
            sh_descriptor_id: w[21],
            brdf_lut_descriptor_id: w[22],
            pick_x: w[23],
            pick_y: w[24],
        }
    }

    /// The byte image of the block, as the GPU reads it.
    pub fn to_bytes(&self) -> (bytes: Vec<u8>)
        ensures
            bytes@ == words_to_bytes(self.words()),
            bytes@.len() == Self::SIZE,
    {
        let mut w: Vec<u32> = Vec::new();
        push_u64(&mut w, self.scene_buffer_device_address);
        push_u64(&mut w, self.draw_data_buffer_device_address);
        push_u64(&mut w, self.vertex_buffer_device_address);
        push_u64(&mut w, self.entity_buffer_device_address);
        push_u64(&mut w, self.submesh_buffer_device_address);
        push_u64(&mut w, self.material_buffer_device_address);
        push_u64(&mut w, self.bone_transform_buffer_device_address);
        push_u64(&mut w, self.picked_entity_buffer_device_address);
        w.push(self.shadow_factor_descriptor_id);
        w.push(self.shadow_enabled);
        w.push(self.shadow_colored);
        w.push(self.gtao_descriptor_id);
        w.push(self.ao_enabled);
        w.push(self.sh_descriptor_id);
        w.push(self.brdf_lut_descriptor_id);
        w.push(self.pick_x);
        w.push(self.pick_y);
        push_zeros(&mut w, 1);
        assert(w@ =~= self.words());
        words_to_le_bytes(&w)
    }

    /// The byte image is `SIZE` bytes, fits the guaranteed push-constant range,
    /// and every field reads back from it.
    pub proof fn lemma_layout(self)
        ensures
            words_to_bytes(self.words()).len() == Self::SIZE,
            Self::SIZE <= MAX_PUSH_CONSTANTS_SIZE,
            Self::from_words(bytes_to_words(words_to_bytes(self.words()))) == self,
    {
        lemma_words_to_bytes(self.words());
        lemma_split_join(self.scene_buffer_device_address);
        lemma_split_join(self.draw_data_buffer_device_address);
        lemma_split_join(self.vertex_buffer_device_address);
        lemma_split_join(self.entity_buffer_device_address);
        lemma_split_join(self.submesh_buffer_device_address);
        lemma_split_join(self.material_buffer_device_address);
        lemma_split_join(self.bone_transform_buffer_device_address);
        lemma_split_join(self.picked_entity_buffer_device_address);
    }
}

/// The entity id the main pass reads back under the cursor.
#[derive(Clone, Copy, Debug)]
pub struct PickedEntityGPU {
    pub id: u32,
}

impl PickedEntityGPU {
    /// Size of the record in bytes: one word.
    pub const SIZE: usize = 4;

    /// The block as words, in field order.
    pub open spec fn words(self) -> Seq<u32> {
        seq![
            self.id,
        ]
    }

    /// The block that a word sequence holds.
    pub open spec fn from_words(w: Seq<u32>) -> Self {
        Self {
            id: w[0],
        }
    }

    /// The byte image of the block, as the GPU reads it.
    pub fn to_bytes(&self) -> (bytes: Vec<u8>)
        ensures
            bytes@ == words_to_bytes(self.words()),
            bytes@.len() == Self::SIZE,
    {
        let mut w: Vec<u32> = Vec::new();
        w.push(self.id);
        assert(w@ =~= self.words());
        words_to_le_bytes(&w)
    }

    /// The byte image is `SIZE` bytes and every field reads back from it.
    pub proof fn lemma_layout(self)
        ensures
            words_to_bytes(self.words()).len() == Self::SIZE,
            Self::from_words(bytes_to_words(words_to_bytes(self.words()))) == self,
    {
        lemma_words_to_bytes(self.words());
    }
}

/// What the main pass prepares for a frame: whether ambient occlusion and
/// shadows are on.
#[derive(Clone, Copy, Debug)]
pub struct MainPassData {
    pub ao_enabled: bool,
    pub shadow_enabled: bool,
}

/// Device addresses of the buffers the main pass reads and writes.
#[derive(Clone, Copy, Debug)]
pub struct MainBuffers {
    pub scene: DeviceAddress,
    pub draw_data: DeviceAddress,
    pub vertex: DeviceAddress,
    pub entity: DeviceAddress,
    pub submesh: DeviceAddress,
    pub material: DeviceAddress,
    pub bone_transform: DeviceAddress,
    pub picked_entity: DeviceAddress,
}

/// Bindless descriptors of the images the main pass samples, as the
/// frame's images offer them: the ambient-occlusion history and the
/// irradiance image may lack a sampled descriptor.
#[derive(Clone, Copy, Debug)]
pub struct MainDescriptors {
    pub shadow_factor: u32,
    pub gtao: Option<u32>,
    pub sh: Option<u32>,
    pub brdf_lut: u32,
}

/// `1` for `true`, `0` for `false`.
pub open spec fn flag_word(b: bool) -> u32 {
    if b {
        1
    } else {
        0
    }
}

/// A descriptor, or descriptor 0 where the image has none.
pub open spec fn descriptor_or_zero(d: Option<u32>) -> u32 {
    match d {
        Some(id) => id,
        None => 0,
    }
}

impl MainPassData {
    /// The push constants the main pass records this frame; a missing
    /// ambient-occlusion or irradiance descriptor is sent as descriptor 0.
    pub fn push_constants(
        &self,
        buffers: MainBuffers,
        descriptors: MainDescriptors,
        shadow_colored: bool,
        pick_x: u32,
        pick_y: u32,
    ) -> (pc: MainPushConstants)
        ensures
            pc.scene_buffer_device_address == buffers.scene,
            pc.draw_data_buffer_device_address == buffers.draw_data,
            pc.vertex_buffer_device_address == buffers.vertex,
            pc.entity_buffer_device_address == buffers.entity,
            pc.submesh_buffer_device_address == buffers.submesh,
            pc.material_buffer_device_address == buffers.material,
            pc.bone_transform_buffer_device_address == buffers.bone_transform,
            pc.picked_entity_buffer_device_address == buffers.picked_entity,
            pc.shadow_factor_descriptor_id == descriptors.shadow_factor,
            pc.shadow_enabled == flag_word(self.shadow_enabled),
            pc.shadow_colored == flag_word(shadow_colored),
            pc.gtao_descriptor_id == descriptor_or_zero(descriptors.gtao),
            pc.ao_enabled == flag_word(self.ao_enabled),
            pc.sh_descriptor_id == descriptor_or_zero(descriptors.sh),
            pc.brdf_lut_descriptor_id == descriptors.brdf_lut,
            pc.pick_x == pick_x,
            pc.pick_y == pick_y,
    {
        let gtao = match descriptors.gtao {
            Some(id) => id,
            None => 0,
        };
        let sh = match descriptors.sh {
            Some(id) => id,
            None => 0,
        };
        MainPushConstants::create(
            buffers.scene,
            buffers.draw_data,
            buffers.vertex,
            buffers.entity,
            buffers.submesh,
            buffers.material,
            buffers.bone_transform,
            buffers.picked_entity,
            descriptors.shadow_factor,
            if self.shadow_enabled { 1 } else { 0 },
            if shadow_colored { 1 } else { 0 },
            gtao,
            if self.ao_enabled { 1 } else { 0 },
            sh,
            descriptors.brdf_lut,
            pick_x,
            pick_y,
        )
    }
}

/// The shadow and ambient-occlusion history images the main pass samples:
/// the ones the temporal passes wrote this frame.
pub fn main_history_images<T: Copy>(
    history_write_index: u32,
    shadow_history_a: T,
    shadow_history_b: T,
    gtao_history_a: T,
    gtao_history_b: T,
) -> (images: (T, T))
    ensures
        images.0 == history_roles(history_write_index, shadow_history_a, shadow_history_b).0,
        images.1 == history_roles(history_write_index, gtao_history_a, gtao_history_b).0,
{
    if history_write_index == 0 {
        (shadow_history_a, gtao_history_a)
    } else {
        (shadow_history_b, gtao_history_b)
    }
}


} // verus!
