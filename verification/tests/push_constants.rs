use amber_lume::accumulate::AccumulatePushConstants;
use amber_lume::ao::{AoSpatialPushConstants, DenoiseGuidePushConstants, GtaoDepthMipPushConstants, GtaoDepthPushConstants, RTAOPushConstants};
use amber_lume::bloom::BloomPushConstants;
use amber_lume::culling::{CullingIndirectPushConstants, CullingIndirectRenderViewStatisticsGPU};
use amber_lume::debug_layer::DebugLayerPushConstants;
use amber_lume::depth::DepthPushConstants;
use amber_lume::draw_sort::{DrawBucket, DrawSortPushConstants};
use amber_lume::environment::EnvironmentPushConstants;
use amber_lume::gtao::{GtaoPushConstants, GtaoTemporalPushConstants};
use amber_lume::hiz::{hiz_storage_ids, HiZPushConstants};
use amber_lume::ibl::ShProjectPushConstants;
use amber_lume::layout::{words_to_le_bytes, MAX_PUSH_CONSTANTS_SIZE};
use amber_lume::main_pass::{MainPushConstants, PickedEntityGPU};

fn le_words(words: &[u32]) -> Vec<u8> {
    words.iter().flat_map(|w| w.to_le_bytes()).collect()
}

fn split(address: u64) -> [u32; 2] {
    [(address & 0xffff_ffff) as u32, (address >> 32) as u32]
}

#[test]
fn accumulate_create_keeps_fields() {
    let pc = AccumulatePushConstants::create(1, 2, 3, 4, 1, 1920, 1080);
    assert_eq!(pc.scene_color_texture, 1);
    assert_eq!(pc.velocity_texture, 2);
    assert_eq!(pc.history_prev_texture, 3);
    assert_eq!(pc.history_curr_storage, 4);
    assert_eq!(pc.history_valid, 1);
    assert_eq!(pc.display_width, 1920);
    assert_eq!(pc.display_height, 1080);
}

#[test]
fn accumulate_bytes_match_memory_image() {
    let pc = AccumulatePushConstants::create(1, 2, 3, 4, 1, 1920, 1080);
    let mut words = [0u32; 32];
    words[..7].copy_from_slice(&[1, 2, 3, 4, 1, 1920, 1080]);
    let expected: &[u8] = bytemuck::cast_slice(&words);
    let bytes = pc.to_bytes();
    assert_eq!(bytes.len(), AccumulatePushConstants::SIZE);
    assert_eq!(bytes.len(), 128);
    assert_eq!(bytes.as_slice(), expected);
}

#[test]
fn gtao_temporal_create_and_bytes() {
    let pc = GtaoTemporalPushConstants::create(10, 11, 12, 13, 0, 640, 360);
    assert_eq!(pc.gtao_texture, 10);
    assert_eq!(pc.height, 360);
    let mut words = vec![10, 11, 12, 13, 0, 640, 360];
    words.resize(32, 0);
    assert_eq!(pc.to_bytes(), le_words(&words));
}

#[test]
fn addresses_are_low_word_first() {
    let address = 0x1122_3344_5566_7788u64;
    let pc = EnvironmentPushConstants::create(address);
    assert_eq!(pc.to_bytes(), address.to_le_bytes().to_vec());
    assert_eq!(EnvironmentPushConstants::SIZE, 8);
}

#[test]
fn float_fields_travel_as_bits() {
    let threshold = 1.5f32;
    let pc = BloomPushConstants::create(7, 1, threshold.to_bits());
    let bytes = pc.to_bytes();
    assert_eq!(bytes.len(), 128);
    assert_eq!(&bytes[0..4], &7u32.to_le_bytes());
    assert_eq!(&bytes[4..8], &1u32.to_le_bytes());
    assert_eq!(&bytes[8..12], &threshold.to_le_bytes());
    assert!(bytes[12..].iter().all(|b| *b == 0));
}

#[test]
fn block_sizes_match_layouts() {
    assert_eq!(AoSpatialPushConstants::SIZE, 128);
    assert_eq!(amber_lume::ao::GtaoPushConstants::SIZE, 128);
    assert_eq!(GtaoDepthPushConstants::SIZE, 128);
    assert_eq!(GtaoDepthMipPushConstants::SIZE, 128);
    assert_eq!(DenoiseGuidePushConstants::SIZE, 32);
    assert_eq!(RTAOPushConstants::SIZE, 128);
    assert_eq!(GtaoPushConstants::SIZE, 128);
    assert_eq!(DebugLayerPushConstants::SIZE, 128);
    assert_eq!(DepthPushConstants::SIZE, 128);
    assert_eq!(ShProjectPushConstants::SIZE, 128);
    assert_eq!(DrawSortPushConstants::SIZE, 56);
    assert_eq!(CullingIndirectPushConstants::SIZE, 128);
    assert_eq!(MainPushConstants::SIZE, 104);
    assert_eq!(CullingIndirectRenderViewStatisticsGPU::SIZE, 16);
    assert_eq!(PickedEntityGPU::SIZE, 4);
    assert!(MainPushConstants::SIZE <= MAX_PUSH_CONSTANTS_SIZE);
}

#[test]
fn depth_push_constants_bytes() {
    let pc = DepthPushConstants::create(0x1000, 0x2000, 0x3000_0000_0000, 0x4000);
    let mut words = Vec::new();
    for a in [0x1000u64, 0x2000, 0x3000_0000_0000, 0x4000] {
        words.extend_from_slice(&split(a));
    }
    words.resize(32, 0);
    assert_eq!(pc.to_bytes(), le_words(&words));
}

#[test]
fn denoise_guide_bytes() {
    let pc = DenoiseGuidePushConstants::create(0xdead_beef_0000_0010, 3, 4, 5, 800, 600);
    assert_eq!(pc.guide_storage_id, 5);
    let mut words = split(0xdead_beef_0000_0010).to_vec();
    words.extend_from_slice(&[3, 4, 5, 800, 600, 0]);
    assert_eq!(pc.to_bytes(), le_words(&words));
}

#[test]
fn rt_ao_bytes() {
    let pc = RTAOPushConstants::create(0x10, 1, 2, 3, 64, 32, 9, 0.5f32.to_bits(), 4, 2.0f32.to_bits(), 77, 2);
    let bytes = pc.to_bytes();
    assert_eq!(bytes.len(), 128);
    assert_eq!(&bytes[32..36], &0.5f32.to_le_bytes());
    assert_eq!(&bytes[36..40], &4u32.to_le_bytes());
    assert_eq!(&bytes[40..44], &2.0f32.to_le_bytes());
    assert_eq!(&bytes[48..52], &2u32.to_le_bytes());
}

#[test]
fn culling_push_constants_store_combine_flag() {
    let pc = CullingIndirectPushConstants::create(1, 2, 3, 4, 5, 6, 7, 8, 9, 10, 11, 2, 100, true, 3);
    assert_eq!(pc.combine_views, 1);
    assert_eq!(pc.view_count, 2);
    assert_eq!(pc.entity_count, 100);
    assert_eq!(pc.request_count, 3);
    let pc2 = CullingIndirectPushConstants::create(1, 2, 3, 4, 5, 6, 7, 8, 9, 10, 11, 2, 100, false, 3);
    assert_eq!(pc2.combine_views, 0);
    let bytes = pc.to_bytes();
    assert_eq!(bytes.len(), 128);
    assert_eq!(&bytes[80..88], &11u64.to_le_bytes());
    assert_eq!(&bytes[88..92], &2u32.to_le_bytes());
    assert_eq!(&bytes[96..100], &1u32.to_le_bytes());
}

#[test]
fn draw_sort_takes_offsets_from_buckets() {
    let source = DrawBucket { count_index: 1, draw_offset: 100, capacity: 50 };
    let sorted = DrawBucket { count_index: 2, draw_offset: 300, capacity: 64 };
    let pc = DrawSortPushConstants::create(0xaa, 0xbb, 0xcc, 0xdd, source, sorted);
    assert_eq!(pc.indirect_source_buffer_device_address, 0xaa);
    assert_eq!(pc.indirect_sorted_buffer_device_address, 0xaa);
    assert_eq!(pc.count_index, 1);
    assert_eq!(pc.source_offset, 100);
    assert_eq!(pc.target_offset, 300);
    assert_eq!(pc.capacity, 64);
    assert_eq!(pc.to_bytes().len(), 56);
}

#[test]
fn hiz_storage_ids_pad_with_zero() {
    let ids: [u32; 4] = hiz_storage_ids(&vec![7, 8]);
    assert_eq!(ids, [7, 8, 0, 0]);
    let ids: [u32; 2] = hiz_storage_ids(&vec![1, 2, 3]);
    assert_eq!(ids, [1, 2]);
}

#[test]
fn hiz_bytes() {
    let pc = HiZPushConstants::create(0x5000, 3, 4, 1024, 512, [10u32, 11, 12, 13]);
    let mut words = split(0x5000).to_vec();
    words.extend_from_slice(&[3, 4, 1024, 512, 10, 11, 12, 13]);
    let bytes = pc.to_bytes();
    assert_eq!(bytes.len(), 40);
    assert_eq!(bytes, le_words(&words));
}

#[test]
fn words_to_le_bytes_is_little_endian() {
    let bytes = words_to_le_bytes(&vec![0x0403_0201, 0x0807_0605]);
    assert_eq!(bytes, vec![1, 2, 3, 4, 5, 6, 7, 8]);
}

#[test]
fn gtao_depth_mip_and_ao_spatial_bytes() {
    let mip = GtaoDepthMipPushConstants::create(1, 2, 3, 4, 5, 6, 0.25f32.to_bits());
    let mut words = vec![1, 2, 3, 4, 5, 6, 0.25f32.to_bits()];
    words.resize(32, 0);
    assert_eq!(mip.to_bytes(), le_words(&words));

    let spatial = AoSpatialPushConstants::create(0x20, 1, 2, 3, 4, 5, 1f32.to_bits(), 2f32.to_bits(), 3f32.to_bits(), 9);
    let mut words = split(0x20).to_vec();
    words.extend_from_slice(&[1, 2, 3, 4, 5, 1f32.to_bits(), 2f32.to_bits(), 3f32.to_bits(), 9]);
    words.resize(32, 0);
    assert_eq!(spatial.to_bytes(), le_words(&words));
}

#[test]
fn remaining_blocks_lay_out_their_fields() {
    let g = GtaoDepthPushConstants::create(0x30, 1, 2, 3, 4);
    let mut words = split(0x30).to_vec();
    words.extend_from_slice(&[1, 2, 3, 4]);
    words.resize(32, 0);
    assert_eq!(g.to_bytes(), le_words(&words));

    let a = amber_lume::ao::GtaoPushConstants::create(0x40, 1, 2, 3, 4, 5, 6, 7, 8);
    let mut words = split(0x40).to_vec();
    words.extend_from_slice(&[1, 2, 3, 4, 5, 6, 7, 8]);
    words.resize(32, 0);
    assert_eq!(a.to_bytes(), le_words(&words));

    let t = GtaoPushConstants::create(0x50, 1, 2, 3, 4, 5, 6, 7);
    let mut words = split(0x50).to_vec();
    words.extend_from_slice(&[1, 2, 3, 4, 5, 6, 7]);
    words.resize(32, 0);
    assert_eq!(t.to_bytes(), le_words(&words));

    let d = DebugLayerPushConstants::create(0x60, 1, 2, 1, 0.75f32.to_bits());
    let mut words = split(0x60).to_vec();
    words.extend_from_slice(&[1, 2, 1, 0.75f32.to_bits()]);
    words.resize(32, 0);
    assert_eq!(d.to_bytes(), le_words(&words));

    let s = ShProjectPushConstants::create(0x70);
    let mut words = split(0x70).to_vec();
    words.resize(32, 0);
    assert_eq!(s.to_bytes(), le_words(&words));

    let p = PickedEntityGPU { id: 42 };
    assert_eq!(p.to_bytes(), 42u32.to_le_bytes().to_vec());

    let st = CullingIndirectRenderViewStatisticsGPU { submeshes_rendered: 5, submeshes_culled: 6 };
    assert_eq!(st.to_bytes(), le_words(&[5, 6, 0, 0]));
}

#[test]
fn main_push_constants_bytes() {
    let pc = MainPushConstants::create(1, 2, 3, 4, 5, 6, 7, 8, 9, 1, 0, 10, 1, 11, 12, 640, 480);
    let mut words = Vec::new();
    for a in 1u64..=8 {
        words.extend_from_slice(&split(a));
    }
    words.extend_from_slice(&[9, 1, 0, 10, 1, 11, 12, 640, 480, 0]);
    assert_eq!(pc.to_bytes(), le_words(&words));
}
