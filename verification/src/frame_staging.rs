//! Records the frame-staging pass writes for the shaders each frame: one
//! entity record and one motion record per entity, the scene record and
//! the camera record. Floating-point values travel as the bit patterns of
//! their `f32`s.
use vstd::prelude::*;
use crate::layout::{DeviceAddress, lo_word, hi_word, join_words, lemma_split_join, zeros, words_to_bytes, bytes_to_words, lemma_words_to_bytes, push_u64, push_zeros, words_to_le_bytes};

verus! {

/// A 4x4 matrix as the bit patterns of its `f32` entries, column by column.
pub type MatrixBits = [[u32; 4]; 4];

/// The words of a matrix, column by column.
pub open spec fn matrix_words(m: MatrixBits) -> Seq<u32> {
    m@[0]@ + m@[1]@ + m@[2]@ + m@[3]@
}

/// A matrix is sixteen words, column `c` at words `4 * c` to `4 * c + 3`.
pub proof fn lemma_matrix_words_len(m: MatrixBits)
    ensures
        matrix_words(m).len() == 16,
        forall|c: int| 0 <= c < 4 ==> #[trigger] matrix_words(m).subrange(4 * c, 4 * c + 4) == m@[c]@,
{
    assert(m@.len() == 4);
    assert(m@[0]@.len() == 4);
    assert(m@[1]@.len() == 4);
    assert(m@[2]@.len() == 4);
    assert(m@[3]@.len() == 4);
    assert(matrix_words(m).subrange(0, 4) =~= m@[0]@);
    assert(matrix_words(m).subrange(4, 8) =~= m@[1]@);
    assert(matrix_words(m).subrange(8, 12) =~= m@[2]@);
    assert(matrix_words(m).subrange(12, 16) =~= m@[3]@);
}

/// Appends the words of a matrix, column by column.
pub fn push_matrix(words: &mut Vec<u32>, m: &MatrixBits)
    ensures
        final(words)@ == old(words)@ + matrix_words(*m),
{
    let ghost start = words@;
    let mut c: usize = 0;
    while c < 4
        invariant
            c <= 4,
            words@ == start + (if c == 0 { Seq::<u32>::empty() } else if c == 1 { m@[0]@ } else if c == 2 {
                m@[0]@ + m@[1]@
            } else if c == 3 {
                m@[0]@ + m@[1]@ + m@[2]@
            } else {
                matrix_words(*m)
            }),
        decreases 4 - c,
    {
        let column = m[c];
        words.push(column[0]);
        words.push(column[1]);
        words.push(column[2]);
        words.push(column[3]);
        proof {
            assert(column@ =~= seq![column@[0], column@[1], column@[2], column@[3]]);
        }
        c = c + 1;
        assert(words@ =~= start + (if c == 1 { m@[0]@ } else if c == 2 { m@[0]@ + m@[1]@ } else if c == 3 {
            m@[0]@ + m@[1]@ + m@[2]@
        } else {
            matrix_words(*m)
        }));
    }
}

/// The per-entity record the shaders read.
#[derive(Clone, Copy, Debug)]
pub struct EntityGPU {
    pub transform_matrix: MatrixBits,
    pub vertex_buffer_device_address: DeviceAddress,
    pub vertex_attribute_buffer_device_address: DeviceAddress,
    pub mesh_index: u32,
}

impl EntityGPU {
    /// Size of the record in bytes: a matrix, two addresses, a word and three padding words.
    pub const SIZE: usize = 96;

    /// The record holding the given values.
    pub fn create(
        transform_matrix: MatrixBits,
        mesh_index: u32,
        vertex_buffer_device_address: DeviceAddress,
        vertex_attribute_buffer_device_address: DeviceAddress,
    ) -> (e: Self)
        ensures
            e.transform_matrix == transform_matrix,
            e.mesh_index == mesh_index,
            e.vertex_buffer_device_address == vertex_buffer_device_address,
            e.vertex_attribute_buffer_device_address == vertex_attribute_buffer_device_address,
    {
        Self { transform_matrix, vertex_buffer_device_address, vertex_attribute_buffer_device_address, mesh_index }
    }

    /// The record as words, in field order, padded with zeros.
    pub open spec fn words(self) -> Seq<u32> {
        matrix_words(self.transform_matrix) + seq![
            lo_word(self.vertex_buffer_device_address),
            hi_word(self.vertex_buffer_device_address),
            lo_word(self.vertex_attribute_buffer_device_address),
            hi_word(self.vertex_attribute_buffer_device_address),
            self.mesh_index,
        ] + zeros(3)
    }

    /// The byte image of the record, as the GPU reads it.
    pub fn to_bytes(&self) -> (bytes: Vec<u8>)
        ensures
            bytes@ == words_to_bytes(self.words()),
            bytes@.len() == Self::SIZE,
    {
        let mut w: Vec<u32> = Vec::new();
        push_matrix(&mut w, &self.transform_matrix);
        push_u64(&mut w, self.vertex_buffer_device_address);
        push_u64(&mut w, self.vertex_attribute_buffer_device_address);
        w.push(self.mesh_index);
        push_zeros(&mut w, 3);
        assert(w@ =~= self.words());
        words_to_le_bytes(&w)
    }

    /// The byte image is `SIZE` bytes and every field reads back from it.
    pub proof fn lemma_layout(self)
        ensures
            words_to_bytes(self.words()).len() == Self::SIZE,
            ({
                let w = bytes_to_words(words_to_bytes(self.words()));
                &&& w.subrange(0, 16) == matrix_words(self.transform_matrix)
                &&& join_words(w[16], w[17]) == self.vertex_buffer_device_address
                &&& join_words(w[18], w[19]) == self.vertex_attribute_buffer_device_address
                &&& w[20] == self.mesh_index
            }),
    {
        lemma_words_to_bytes(self.words());
        let w = bytes_to_words(words_to_bytes(self.words()));
        lemma_matrix_words_len(self.transform_matrix);
        lemma_split_join(self.vertex_buffer_device_address);
        lemma_split_join(self.vertex_attribute_buffer_device_address);
        assert(w.subrange(0, 16) =~= matrix_words(self.transform_matrix));
    }
}

/// The per-entity record of last frame's transform, for motion vectors.
#[derive(Clone, Copy, Debug)]
pub struct EntityMotionGPU {
    pub previous_transform_matrix: MatrixBits,
    pub previous_vertex_buffer_device_address: DeviceAddress,
}

impl EntityMotionGPU {
    /// Size of the record in bytes: a matrix, an address and two padding words.
    pub const SIZE: usize = 80;

    /// The record holding the given values.
    pub fn create(previous_transform_matrix: MatrixBits, previous_vertex_buffer_device_address: DeviceAddress) -> (e: Self)
        ensures
            e.previous_transform_matrix == previous_transform_matrix,
            e.previous_vertex_buffer_device_address == previous_vertex_buffer_device_address,
    {
        Self { previous_transform_matrix, previous_vertex_buffer_device_address }
    }

    /// The record as words, in field order, padded with zeros.
    pub open spec fn words(self) -> Seq<u32> {
        matrix_words(self.previous_transform_matrix) + seq![
            lo_word(self.previous_vertex_buffer_device_address),
            hi_word(self.previous_vertex_buffer_device_address),
        ] + zeros(2)
    }

    /// The byte image of the record, as the GPU reads it.
    pub fn to_bytes(&self) -> (bytes: Vec<u8>)
        ensures
            bytes@ == words_to_bytes(self.words()),
            bytes@.len() == Self::SIZE,
    {
        let mut w: Vec<u32> = Vec::new();
        push_matrix(&mut w, &self.previous_transform_matrix);
        push_u64(&mut w, self.previous_vertex_buffer_device_address);
        push_zeros(&mut w, 2);
        assert(w@ =~= self.words());
        words_to_le_bytes(&w)
    }

    /// The byte image is `SIZE` bytes and every field reads back from it.
    pub proof fn lemma_layout(self)
        ensures
            words_to_bytes(self.words()).len() == Self::SIZE,
            ({
                let w = bytes_to_words(words_to_bytes(self.words()));
                &&& w.subrange(0, 16) == matrix_words(self.previous_transform_matrix)
                &&& join_words(w[16], w[17]) == self.previous_vertex_buffer_device_address
            }),
    {
        lemma_words_to_bytes(self.words());
        let w = bytes_to_words(words_to_bytes(self.words()));
        lemma_matrix_words_len(self.previous_transform_matrix);
        lemma_split_join(self.previous_vertex_buffer_device_address);
        assert(w.subrange(0, 16) =~= matrix_words(self.previous_transform_matrix));
    }
}

/// The scene record: the directional light, image-based lighting, the
/// number of shadow cascades and the time.
#[derive(Clone, Copy, Debug)]
pub struct SceneGPU {
    pub light_direction: [u32; 3],
    pub light_intensity: u32,
    pub light_color: [u32; 3],
    pub ibl_intensity: u32,
    pub cascade_count: u32,
    pub time: u32,
}

impl SceneGPU {
    /// Size of the record in bytes: ten words and two padding words.
    pub const SIZE: usize = 48;

    /// The record holding the given values.
    pub fn create(
        light_direction: [u32; 3],
        light_color: [u32; 3],
        light_intensity: u32,
        ibl_intensity: u32,
        cascade_count: u32,
        time: u32,
    ) -> (s: Self)
        ensures
            s.light_direction == light_direction,
            s.light_color == light_color,
            s.light_intensity == light_intensity,
            s.ibl_intensity == ibl_intensity,
            s.cascade_count == cascade_count,
            s.time == time,
    {
        Self { light_direction, light_intensity, light_color, ibl_intensity, cascade_count, time }
    }

    /// The record as words, in field order, padded with zeros.
    pub open spec fn words(self) -> Seq<u32> {
        self.light_direction@ + seq![self.light_intensity] + self.light_color@ + seq![
            self.ibl_intensity,
            self.cascade_count,
            self.time,
        ] + zeros(2)
    }

    /// The byte image of the record, as the GPU reads it.
    pub fn to_bytes(&self) -> (bytes: Vec<u8>)
        ensures
            bytes@ == words_to_bytes(self.words()),
            bytes@.len() == Self::SIZE,
    {
        let mut w: Vec<u32> = Vec::new();
        w.push(self.light_direction[0]);
        w.push(self.light_direction[1]);
        w.push(self.light_direction[2]);
        w.push(self.light_intensity);
        w.push(self.light_color[0]);
        w.push(self.light_color[1]);
        w.push(self.light_color[2]);
        w.push(self.ibl_intensity);
        w.push(self.cascade_count);
        w.push(self.time);
        push_zeros(&mut w, 2);
        assert(w@ =~= self.words());
        words_to_le_bytes(&w)
    }

    /// The byte image is `SIZE` bytes and every field reads back from it.
    pub proof fn lemma_layout(self)
        ensures
            words_to_bytes(self.words()).len() == Self::SIZE,
            ({
                let w = bytes_to_words(words_to_bytes(self.words()));
                &&& w.subrange(0, 3) == self.light_direction@
                &&& w[3] == self.light_intensity
                &&& w.subrange(4, 7) == self.light_color@
                &&& w[7] == self.ibl_intensity
                &&& w[8] == self.cascade_count
                &&& w[9] == self.time
            }),
    {
        lemma_words_to_bytes(self.words());
        let w = bytes_to_words(words_to_bytes(self.words()));
        assert(w.subrange(0, 3) =~= self.light_direction@);
        assert(w.subrange(4, 7) =~= self.light_color@);
    }
}

/// The camera record: the view-projection matrices of this and the last
/// frame, its inverse, the view matrix, the position, the projection's
/// parameters, the sub-pixel jitter and the texture mip bias.
#[derive(Clone, Copy, Debug)]
pub struct CameraGPU {
    pub view_projection: MatrixBits,
    pub previous_view_projection: MatrixBits,
    pub inverse_view_projection: MatrixBits,
    pub view: MatrixBits,
    pub position: [u32; 3],
    pub tan_half_fov: [u32; 2],
    pub near: u32,
    pub far: u32,
    pub jitter: [u32; 2],
    pub mip_bias: u32,
}

impl CameraGPU {
    /// Size of the record in bytes: four matrices and twelve words, two of them padding.
    pub const SIZE: usize = 304;

    /// The record holding the given values.
    pub fn new(
        view_projection: MatrixBits,
        previous_view_projection: MatrixBits,
        inverse_view_projection: MatrixBits,
        view: MatrixBits,
        position: [u32; 3],
        near: u32,
        far: u32,
        tan_half_fov: [u32; 2],
        jitter: [u32; 2],
        mip_bias: u32,
    ) -> (c: Self)
        ensures
            c.view_projection == view_projection,
            c.previous_view_projection == previous_view_projection,
            c.inverse_view_projection == inverse_view_projection,
            c.view == view,
            c.position == position,
            c.near == near,
            c.far == far,
            c.tan_half_fov == tan_half_fov,
            c.jitter == jitter,
            c.mip_bias == mip_bias,
    {
        Self {
            view_projection,
            previous_view_projection,
            inverse_view_projection,
            view,
            position,
            tan_half_fov,
            near,
            far,
            jitter,
            mip_bias,
        }
    }

    /// The record as words, in field order, with a padding word after the
    /// position and one at the end.
    pub open spec fn words(self) -> Seq<u32> {
        matrix_words(self.view_projection) + matrix_words(self.previous_view_projection) + matrix_words(
            self.inverse_view_projection,
        ) + matrix_words(self.view) + self.position@ + zeros(1) + self.tan_half_fov@ + seq![self.near, self.far]
            + self.jitter@ + seq![self.mip_bias] + zeros(1)
    }

    /// The byte image of the record, as the GPU reads it.
    pub fn to_bytes(&self) -> (bytes: Vec<u8>)
        ensures
            bytes@ == words_to_bytes(self.words()),
            bytes@.len() == Self::SIZE,
    {
        let mut w: Vec<u32> = Vec::new();
        push_matrix(&mut w, &self.view_projection);
        push_matrix(&mut w, &self.previous_view_projection);
        push_matrix(&mut w, &self.inverse_view_projection);
        push_matrix(&mut w, &self.view);
        w.push(self.position[0]);
        w.push(self.position[1]);
        w.push(self.position[2]);
        push_zeros(&mut w, 1);
        w.push(self.tan_half_fov[0]);
        w.push(self.tan_half_fov[1]);
        w.push(self.near);
        w.push(self.far);
        w.push(self.jitter[0]);
        w.push(self.jitter[1]);
        w.push(self.mip_bias);
        push_zeros(&mut w, 1);
        assert(w@ =~= self.words());
        words_to_le_bytes(&w)
    }

    /// The byte image is `SIZE` bytes and every field reads back from it.
    pub proof fn lemma_layout(self)
        ensures
            words_to_bytes(self.words()).len() == Self::SIZE,
            ({
                let w = bytes_to_words(words_to_bytes(self.words()));
                &&& w.subrange(0, 16) == matrix_words(self.view_projection)
                &&& w.subrange(16, 32) == matrix_words(self.previous_view_projection)
                &&& w.subrange(32, 48) == matrix_words(self.inverse_view_projection)
                &&& w.subrange(48, 64) == matrix_words(self.view)
                &&& w.subrange(64, 67) == self.position@
                &&& w.subrange(68, 70) == self.tan_half_fov@
                &&& w[70] == self.near
                &&& w[71] == self.far
                &&& w.subrange(72, 74) == self.jitter@
                &&& w[74] == self.mip_bias
            }),
    {
        lemma_words_to_bytes(self.words());
        let w = bytes_to_words(words_to_bytes(self.words()));
        lemma_matrix_words_len(self.view_projection);
        lemma_matrix_words_len(self.previous_view_projection);
        lemma_matrix_words_len(self.inverse_view_projection);
        lemma_matrix_words_len(self.view);
        assert(w.subrange(0, 16) =~= matrix_words(self.view_projection));
        assert(w.subrange(16, 32) =~= matrix_words(self.previous_view_projection));
        assert(w.subrange(32, 48) =~= matrix_words(self.inverse_view_projection));
        assert(w.subrange(48, 64) =~= matrix_words(self.view));
        assert(w.subrange(64, 67) =~= self.position@);
        assert(w.subrange(68, 70) =~= self.tan_half_fov@);
        assert(w.subrange(72, 74) =~= self.jitter@);
    }
}

/// What the frame snapshot says of one entity that the staging pass reads;
/// `O` is the entity's outline setting.
#[derive(Clone, Copy, Debug)]
pub struct StagedEntity<O> {
    pub transform_matrix: MatrixBits,
    pub mesh_id: u32,
    pub outline: O,
}

/// The per-entity outline record the shaders read, built from the
/// entity's outline setting.
#[derive(Clone, Copy, Debug, PartialEq, Eq)]
pub struct EntityOutlineGPU<O> {
    pub outline: O,
}

/// The entity, motion and outline records of a frame: entity `i` gets a
/// record of its transform and mesh over the mesh vertex and attribute
/// buffers, a motion record of its transform of the last frame, and an
/// outline record of its outline.
pub fn stage_entities<O: Copy>(
    entities: &Vec<StagedEntity<O>>,
    previous_transforms: &Vec<MatrixBits>,
    vertex_buffer_device_address: DeviceAddress,
    vertex_attribute_buffer_device_address: DeviceAddress,
    previous_vertex_buffer_device_address: DeviceAddress,
) -> (records: (Vec<EntityGPU>, Vec<EntityMotionGPU>, Vec<EntityOutlineGPU<O>>))
    requires
        previous_transforms@.len() >= entities@.len(),
    ensures
        records.0@.len() == entities@.len(),
        records.1@.len() == entities@.len(),
        records.2@.len() == entities@.len(),
        forall|i: int| 0 <= i < entities@.len() ==> #[trigger] records.2@[i] == (EntityOutlineGPU { outline: entities@[i].outline }),
        forall|i: int|
            #![trigger records.0@[i]]
            0 <= i < entities@.len() ==> {
                &&& records.0@[i].transform_matrix == entities@[i].transform_matrix
                &&& records.0@[i].mesh_index == entities@[i].mesh_id
                &&& records.0@[i].vertex_buffer_device_address == vertex_buffer_device_address
                &&& records.0@[i].vertex_attribute_buffer_device_address == vertex_attribute_buffer_device_address
            },
        forall|i: int|
            #![trigger records.1@[i]]
            0 <= i < entities@.len() ==> {
                &&& records.1@[i].previous_transform_matrix == previous_transforms@[i]
                &&& records.1@[i].previous_vertex_buffer_device_address == previous_vertex_buffer_device_address
            },
{
    let mut entities_gpu: Vec<EntityGPU> = Vec::new();
    let mut motions_gpu: Vec<EntityMotionGPU> = Vec::new();
    let mut outlines_gpu: Vec<EntityOutlineGPU<O>> = Vec::new();
    let mut k: usize = 0;
    while k < entities.len()
        invariant
            k <= entities@.len(),
            previous_transforms@.len() >= entities@.len(),
            entities_gpu@.len() == k,
            motions_gpu@.len() == k,
            outlines_gpu@.len() == k,
            forall|i: int| 0 <= i < k ==> #[trigger] outlines_gpu@[i] == (EntityOutlineGPU { outline: entities@[i].outline }),
            forall|i: int|
                #![trigger entities_gpu@[i]]
                0 <= i < k ==> {
                    &&& entities_gpu@[i].transform_matrix == entities@[i].transform_matrix
                    &&& entities_gpu@[i].mesh_index == entities@[i].mesh_id
                    &&& entities_gpu@[i].vertex_buffer_device_address == vertex_buffer_device_address
                    &&& entities_gpu@[i].vertex_attribute_buffer_device_address
                        == vertex_attribute_buffer_device_address
                },
            forall|i: int|
                #![trigger motions_gpu@[i]]
                0 <= i < k ==> {
                    &&& motions_gpu@[i].previous_transform_matrix == previous_transforms@[i]
                    &&& motions_gpu@[i].previous_vertex_buffer_device_address == previous_vertex_buffer_device_address
                },
        decreases entities@.len() - k,
    {
        let entity = &entities[k];
        entities_gpu.push(
            EntityGPU::create(
                entity.transform_matrix,
                entity.mesh_id,
                vertex_buffer_device_address,
                vertex_attribute_buffer_device_address,
            ),
        );
        motions_gpu.push(EntityMotionGPU::create(previous_transforms[k], previous_vertex_buffer_device_address));
        outlines_gpu.push(EntityOutlineGPU { outline: entity.outline });
        k = k + 1;
    }
    (entities_gpu, motions_gpu, outlines_gpu)
}

} // verus!
