use amber_lume::pass_registry::{destroy_order, registry_pass, step, DestroyAction, RegistryPass, RunAction, RunEvent, RunState, REGISTRY_PASS_COUNT};
use amber_lume::ao::{denoise_guide_enabled, ao_technique, ao_trace_period, AoTechnique};
use amber_lume::blas::{plan_scratch, align_up, build_range_info, build_range_infos, pending_meshes, primitive_counts, scratch_address, GeometryRange, ScratchLayout};
use amber_lume::commands::{clip_area_scissor, draw_indexed_params, draw_params, extent_scissor, texel_copy_region};
use amber_lume::culling::{main_culling_records, CascadeCullingIndirectPassData, CullEntity, CullEntityRecord, CullingBuffers, CullingIndirectPassData, CullingViewRecord, MainCullingIndirectPassData, ViewBuffers};
use amber_lume::recording::{BarrierEntry, Command};
use amber_lume::vulkan::{BIND_POINT_COMPUTE, BIND_POINT_GRAPHICS, STAGE_COMPUTE_SHADER, STAGE_DRAW_INDIRECT, STAGE_HOST, STAGE_TRANSFER, STAGE_VERTEX_SHADER};
use amber_lume::debug_layer::{debug_layer_enabled, debug_layer_source, debug_texture_index, DebugLayerSource};
use amber_lume::dispatch::{dispatch_2d_group_count, dispatch_group_count, hiz_group_count};
use amber_lume::draw_pool::DrawPool;
use amber_lume::draw_sort::{check_sort_capacity, power_of_two, DrawSortError};
use amber_lume::frame_staging::{stage_entities, CameraGPU, EntityGPU, EntityMotionGPU, EntityOutlineGPU, SceneGPU, StagedEntity};
use amber_lume::history::{history_at, history_current, history_pair};
use amber_lume::main_pass::{main_history_images, MainBuffers, MainDescriptors, MainPassData};
use amber_lume::mips::{depth_mip_extents, mip_extent};
use amber_lume::statistics::{PassStatisticsMeasurement, TimeMeasurement};

fn buffers() -> CullingBuffers {
    CullingBuffers {
        culling_views: 1,
        entity: 2,
        mesh: 3,
        submesh: 4,
        meta_statistics: 5,
        cull_requests: 6,
        indirect: 7,
        draw_count: 8,
        draw_data: 9,
        material: 10,
        scene: 11,
    }
}

#[test]
fn workgroup_counts_round_up() {
    assert_eq!(dispatch_group_count(0), 0);
    assert_eq!(dispatch_group_count(1), 1);
    assert_eq!(dispatch_group_count(256), 1);
    assert_eq!(dispatch_group_count(257), 2);
    assert_eq!(dispatch_group_count(1000), 4);
    assert_eq!(dispatch_2d_group_count(1920, 1080), (120, 68));
    assert_eq!(dispatch_2d_group_count(1, 17), (1, 2));
    assert_eq!(hiz_group_count(1920, 1080), (30, 17));
}

#[test]
fn mip_extents_halve_down_to_one() {
    assert_eq!(mip_extent(1920, 0), 1920);
    assert_eq!(mip_extent(1920, 3), 240);
    assert_eq!(mip_extent(5, 1), 2);
    assert_eq!(mip_extent(5, 3), 1);
    assert_eq!(mip_extent(1, 5), 1);
    assert_eq!(mip_extent(0, 0), 1);
    let e = depth_mip_extents(1920, 1080, 1, 2);
    assert_eq!((e.width, e.height, e.source_width, e.source_height), (480, 270, 960, 540));
}

#[test]
fn history_roles_swap_with_write_index() {
    assert_eq!(history_pair(0, 'a', 'b'), ('a', 'b'));
    assert_eq!(history_pair(1, 'a', 'b'), ('b', 'a'));
    assert_eq!(history_pair(7, 'a', 'b'), ('b', 'a'));
    assert_eq!(history_current(0, 'a', 'b'), 'a');
    assert_eq!(history_current(1, 'a', 'b'), 'b');
    assert_eq!(history_at(&['x', 'y'], 1), 'y');
    assert_eq!(main_history_images(0, 1, 2, 3, 4), (1, 3));
    assert_eq!(main_history_images(1, 1, 2, 3, 4), (2, 4));
}

#[test]
fn culling_skips_empty_frames() {
    let empty = CullingIndirectPassData { entity_count: 0 };
    assert!(empty.dispatch(buffers(), 3, false, 2).is_none());
    let no_views = CullingIndirectPassData { entity_count: 10 };
    assert!(no_views.dispatch(buffers(), 0, false, 2).is_none());
    assert!(MainCullingIndirectPassData { entity_count: 0 }.dispatch(buffers(), 1, 0).is_none());
    assert!(CascadeCullingIndirectPassData { entity_count: 5, cascade_count: 0 }.dispatch(buffers(), 1).is_none());
    assert!(CascadeCullingIndirectPassData { entity_count: 0, cascade_count: 4 }.dispatch(buffers(), 1).is_none());
}

#[test]
fn culling_dispatch_over_all_entities() {
    let data = CullingIndirectPassData { entity_count: 1000 };
    let d = data.dispatch(buffers(), 3, true, 2).unwrap();
    assert_eq!(d.workgroups, 4);
    assert_eq!(d.push_constants.entity_count, 1000);
    assert_eq!(d.push_constants.view_count, 3);
    assert_eq!(d.push_constants.combine_views, 1);
    assert_eq!(d.push_constants.request_count, 2);
    assert_eq!(d.push_constants.scene_buffer_device_address, 11);
    assert_eq!(d.push_constants.culling_views_buffer_device_address, 1);

    let cascade = CascadeCullingIndirectPassData { entity_count: 300, cascade_count: 4 }.dispatch(buffers(), 0x5).unwrap();
    assert_eq!(cascade.workgroups, 2);
    assert_eq!(cascade.push_constants.view_count, 4);
    assert_eq!(cascade.push_constants.combine_views, 1);
    assert_eq!(cascade.push_constants.request_count, 0x5);

    let main = MainCullingIndirectPassData { entity_count: 1 }.dispatch(buffers(), 1, 0).unwrap();
    assert_eq!(main.workgroups, 1);
    assert_eq!(main.push_constants.combine_views, 0);
}

#[test]
fn culling_views_are_main_then_cascades() {
    let vp = [[1u32, 0, 0, 0], [0, 1, 0, 0], [0, 0, 1, 0], [0, 0, 0, 1]];
    let main = ViewBuffers { indirect: 'i', draw_count: 'c', draw_data: 'd' };
    let shadow = ViewBuffers { indirect: 'I', draw_count: 'C', draw_data: 'D' };
    let entities = vec![
        CullEntity { transform_matrix: vp, mesh_id: 4, bone_transform_offset: Some(12) },
        CullEntity { transform_matrix: vp, mesh_id: 9, bone_transform_offset: None },
    ];
    let (records, views) = main_culling_records(&entities, vp, 2, main, shadow);
    assert_eq!(
        records,
        vec![
            CullEntityRecord { transform_matrix: vp, mesh_id: 4, is_skinned: true, bone_transform_offset: 12 },
            CullEntityRecord { transform_matrix: vp, mesh_id: 9, is_skinned: false, bone_transform_offset: 0 },
        ]
    );
    assert_eq!(
        views,
        vec![
            CullingViewRecord::Main { view_projection: vp, buffers: main },
            CullingViewRecord::Cascade { buffers: shadow },
            CullingViewRecord::Cascade { buffers: shadow },
        ]
    );
    let (records, views) = main_culling_records(&vec![], vp, 0, main, shadow);
    assert!(records.is_empty());
    assert_eq!(views, vec![CullingViewRecord::Main { view_projection: vp, buffers: main }]);
}

#[test]
fn draw_pool_region_sizes() {
    let pool = DrawPool { indirect: 0u32, draw_count: 1u32, draw_data: 2u32, capacity: 1024 };
    let r = pool.reserve_sizes(20, 16);
    assert_eq!(r, vec![(0u32, 20480u64), (2, 16384), (1, 12)]);
}

#[test]
fn sort_capacity_must_be_power_of_two() {
    assert_eq!(check_sort_capacity(64), Ok(64));
    assert_eq!(check_sort_capacity(1), Ok(1));
    assert_eq!(check_sort_capacity(1 << 31), Ok(1 << 31));
    assert_eq!(check_sort_capacity(0), Err(DrawSortError::CapacityNotPowerOfTwo { capacity: 0 }));
    assert_eq!(check_sort_capacity(48), Err(DrawSortError::CapacityNotPowerOfTwo { capacity: 48 }));
    assert!(!power_of_two(u32::MAX));
}

#[test]
fn debug_layers_select_their_images() {
    assert!(!debug_layer_enabled(0));
    assert!(debug_layer_enabled(3));
    assert_eq!(debug_layer_source(1, 0), DebugLayerSource::Velocity);
    assert_eq!(debug_layer_source(2, 0), DebugLayerSource::Normal);
    assert_eq!(debug_layer_source(3, 0), DebugLayerSource::Gtao);
    assert_eq!(debug_layer_source(4, 0), DebugLayerSource::ShIrradiance);
    assert_eq!(debug_layer_source(5, 0), DebugLayerSource::Hiz);
    assert_eq!(debug_layer_source(6, 1), DebugLayerSource::Hiz);
    assert_eq!(debug_layer_source(7, 0), DebugLayerSource::ShadowHistoryA);
    assert_eq!(debug_layer_source(7, 1), DebugLayerSource::ShadowHistoryB);
}

#[test]
fn debug_texture_clamps_pyramid_mip() {
    let mips = vec![10, 11, 12];
    assert_eq!(debug_texture_index(5, Some(99), Some(&mips), 1), Some(11));
    assert_eq!(debug_texture_index(6, Some(99), Some(&mips), 9), Some(12));
    assert_eq!(debug_texture_index(5, Some(99), Some(&vec![]), 0), None);
    assert_eq!(debug_texture_index(5, Some(99), None, 0), None);
    assert_eq!(debug_texture_index(2, Some(99), Some(&mips), 1), Some(99));
    assert_eq!(debug_texture_index(2, None, Some(&mips), 1), None);
}

#[test]
fn ao_settings_choose_technique_and_period() {
    assert_eq!(ao_technique(true, true), AoTechnique::RayTraced);
    assert_eq!(ao_technique(true, false), AoTechnique::ScreenSpace);
    assert_eq!(ao_technique(false, true), AoTechnique::ScreenSpace);
    let periods = [1, 2, 4];
    assert_eq!(ao_trace_period(&periods, 0), 1);
    assert_eq!(ao_trace_period(&periods, 2), 4);
    assert_eq!(ao_trace_period(&periods, 9), 4);
}

#[test]
fn alignment_rounds_up() {
    assert_eq!(align_up(0, 256), 0);
    assert_eq!(align_up(1, 256), 256);
    assert_eq!(align_up(256, 256), 256);
    assert_eq!(align_up(257, 128), 384);
    assert_eq!(align_up(10, 3), 12);
}

#[test]
fn scratch_regions_follow_each_other() {
    let mut layout = ScratchLayout::new();
    assert_eq!(layout.place(100, 128), 0);
    assert_eq!(layout.size, 100);
    assert_eq!(layout.place(50, 128), 128);
    assert_eq!(layout.size, 178);
    assert_eq!(layout.place(0, 64), 192);
    assert_eq!(layout.size, 192);
    assert_eq!(scratch_address(0x1000, 192), 0x10c0);
}

#[test]
fn build_ranges_of_geometries() {
    let range = GeometryRange { index_count: 300, index_offset: 10, vertex_offset: 5 };
    let info = build_range_info(&range);
    assert_eq!((info.primitive_count, info.primitive_offset, info.first_vertex, info.transform_offset), (100, 40, 5, 0));
    let ranges = vec![range, GeometryRange { index_count: 4, index_offset: 0, vertex_offset: 0 }];
    let infos = build_range_infos(&ranges);
    assert_eq!(infos.len(), 2);
    assert_eq!(infos[1].primitive_count, 1);
    assert_eq!(primitive_counts(&ranges), vec![100, 1]);
    assert_eq!(pending_meshes(&vec![1, 2], &vec![7]), vec![1, 2, 7]);
}

#[test]
fn staging_builds_entity_and_motion_records() {
    let m = [[1u32, 2, 3, 4], [5, 6, 7, 8], [9, 10, 11, 12], [13, 14, 15, 16]];
    let p = [[0u32; 4]; 4];
    let entities = vec![StagedEntity { transform_matrix: m, mesh_id: 3, outline: 'o' }];
    let (records, motions, outlines) = stage_entities(&entities, &vec![p, m], 0x100, 0x200, 0x300);
    assert_eq!(records.len(), 1);
    assert_eq!(motions.len(), 1);
    assert_eq!(outlines, vec![EntityOutlineGPU { outline: 'o' }]);
    assert_eq!(records[0].mesh_index, 3);
    assert_eq!(records[0].transform_matrix, m);
    assert_eq!(records[0].vertex_attribute_buffer_device_address, 0x200);
    assert_eq!(motions[0].previous_transform_matrix, p);
    assert_eq!(motions[0].previous_vertex_buffer_device_address, 0x300);

    let bytes = records[0].to_bytes();
    assert_eq!(bytes.len(), EntityGPU::SIZE);
    assert_eq!(&bytes[0..4], &1u32.to_le_bytes());
    assert_eq!(&bytes[60..64], &16u32.to_le_bytes());
    assert_eq!(&bytes[64..72], &0x100u64.to_le_bytes());
    assert_eq!(&bytes[80..84], &3u32.to_le_bytes());
    assert_eq!(motions[0].to_bytes().len(), EntityMotionGPU::SIZE);
}

#[test]
fn scene_and_camera_records() {
    let scene = SceneGPU::create([1, 2, 3], [4, 5, 6], 7, 8, 4, 9);
    let words: Vec<u32> = vec![1, 2, 3, 7, 4, 5, 6, 8, 4, 9, 0, 0];
    let expected: Vec<u8> = words.iter().flat_map(|w| w.to_le_bytes()).collect();
    assert_eq!(scene.to_bytes(), expected);

    let id = [[1u32, 0, 0, 0], [0, 1, 0, 0], [0, 0, 1, 0], [0, 0, 0, 1]];
    let camera = CameraGPU::new(id, id, id, id, [5, 6, 7], 8, 9, [10, 11], [12, 13], 14);
    let bytes = camera.to_bytes();
    assert_eq!(bytes.len(), 304);
    assert_eq!(&bytes[256..260], &5u32.to_le_bytes());
    assert_eq!(&bytes[268..272], &0u32.to_le_bytes());
    assert_eq!(&bytes[272..276], &10u32.to_le_bytes());
    assert_eq!(&bytes[280..284], &8u32.to_le_bytes());
    assert_eq!(&bytes[296..300], &14u32.to_le_bytes());
}

#[test]
fn main_push_constants_from_frame_data() {
    let data = MainPassData { ao_enabled: true, shadow_enabled: false };
    let b = MainBuffers { scene: 1, draw_data: 2, vertex: 3, entity: 4, submesh: 5, material: 6, bone_transform: 7, picked_entity: 8 };
    let d = MainDescriptors { shadow_factor: 20, gtao: None, sh: Some(22), brdf_lut: 23 };
    let pc = data.push_constants(b, d, true, 100, 200);
    assert_eq!(pc.ao_enabled, 1);
    assert_eq!(pc.shadow_enabled, 0);
    assert_eq!(pc.shadow_colored, 1);
    assert_eq!(pc.gtao_descriptor_id, 0);
    assert_eq!(pc.sh_descriptor_id, 22);
    assert_eq!(pc.brdf_lut_descriptor_id, 23);
    assert_eq!(pc.picked_entity_buffer_device_address, 8);
    assert_eq!((pc.pick_x, pc.pick_y), (100, 200));
}

#[test]
fn time_measurement_keeps_last_interval() {
    let mut m = TimeMeasurement::new();
    assert_eq!(m.collect(), 0);
    m.start(1_000);
    m.finish(1_750);
    assert_eq!(m.collect(), 750);
    m.start(2_000);
    assert_eq!(m.collect(), 750);
    m.finish(2_100);
    assert_eq!(m.collect(), 100);
    m.finish(9_000);
    assert_eq!(m.collect(), 100);
}

#[test]
fn pass_statistics_measurement_lifecycle() {
    let mut m = PassStatisticsMeasurement::new("gpu-interval");
    m.prepare.start(10);
    m.prepare.finish(25);
    m.collect_render_commands.start(30);
    m.collect_render_commands.finish(70);
    let s = m.collect(500, 3u8);
    assert_eq!((s.prepare, s.collect_render_commands, s.dispatch, s.meta), (15, 40, 500, 3));
    assert_eq!(m.destroy(), "gpu-interval");
}

#[test]
fn command_parameters() {
    let d = draw_params(3);
    assert_eq!((d.vertex_count, d.instance_count, d.first_vertex, d.first_instance), (3, 1, 0, 0));
    let i = draw_indexed_params(36, 6, 100);
    assert_eq!((i.index_count, i.instance_count, i.first_index, i.vertex_offset, i.first_instance), (36, 1, 6, 100, 0));
    let s = clip_area_scissor([-4, 8], [100, 50]);
    assert_eq!((s.x, s.y, s.width, s.height), (-4, 8, 100, 50));
    let e = extent_scissor(640, 480);
    assert_eq!((e.x, e.y, e.width, e.height), (0, 0, 640, 480));
    let r = texel_copy_region(12, 34, 64);
    assert_eq!((r.buffer_offset, r.x, r.y, r.z, r.width, r.height, r.depth, r.layer_count), (64, 12, 34, 0, 1, 1, 1, 1));
}

#[test]
fn scratch_plan_skips_meshes_without_geometry() {
    let (offsets, total) = plan_scratch(&vec![Some(100), None, Some(50), Some(0)], 128);
    assert_eq!(offsets, vec![Some(0), None, Some(128), Some(256)]);
    assert_eq!(total, 256);
    let (offsets, total) = plan_scratch(&vec![None, None], 0);
    assert_eq!(offsets, vec![None, None]);
    assert_eq!(total, 0);
}

#[test]
fn brdf_lut_bakes_once() {
    let mut bake = amber_lume::brdf_lut::BrdfLutBake::new();
    assert!(bake.is_enabled());
    let commands = bake.record();
    assert_eq!(commands.len(), 2);
    assert!(matches!(commands[0], Command::BindPipeline(BIND_POINT_GRAPHICS)));
    assert!(matches!(commands[1], Command::Draw(3)));
    assert!(!bake.is_enabled());
    bake.record();
    assert!(!bake.is_enabled());
}

#[test]
fn denoise_guide_runs_for_ao_or_denoised_shadows() {
    assert!(denoise_guide_enabled(true, false, false));
    assert!(denoise_guide_enabled(false, true, true));
    assert!(!denoise_guide_enabled(false, true, false));
    assert!(!denoise_guide_enabled(false, false, true));
}

fn command_names<B, P>(commands: &[Command<B, P>]) -> Vec<&'static str> {
    commands
        .iter()
        .map(|c| match c {
            Command::BindPipeline(_) => "bind",
            Command::BindIndexBuffer => "bind_index",
            Command::FillZero(_) => "fill",
            Command::ResetStatistics => "reset",
            Command::Barrier { .. } => "barrier",
            Command::PushConstants(_) => "push",
            Command::Dispatch(..) => "dispatch",
            Command::Draw(_) => "draw",
            Command::DrawIndirect => "draw_indirect",
        })
        .collect()
}

#[test]
fn culling_commands_on_empty_and_full_frames() {
    let empty = CascadeCullingIndirectPassData { entity_count: 0, cascade_count: 4 }.record(buffers(), 1, 'c');
    assert_eq!(command_names(&empty), vec!["fill", "reset", "barrier"]);
    assert!(matches!(empty[0], Command::FillZero('c')));
    match &empty[2] {
        Command::Barrier { src_stages, dst_stages, entries } => {
            assert_eq!(*src_stages, STAGE_TRANSFER);
            assert_eq!(*dst_stages, STAGE_COMPUTE_SHADER);
            assert_eq!(entries.len(), 2);
            assert!(matches!(entries[0], BarrierEntry::Fill { buffer: 'c', .. }));
            assert!(matches!(entries[1], BarrierEntry::StatisticsReset));
        },
        _ => panic!("expected a barrier"),
    }

    let cascade = CascadeCullingIndirectPassData { entity_count: 300, cascade_count: 4 }.record(buffers(), 1, 'c');
    assert_eq!(command_names(&cascade), vec!["fill", "reset", "barrier", "bind", "push", "dispatch", "barrier"]);
    assert!(matches!(cascade[3], Command::BindPipeline(BIND_POINT_COMPUTE)));
    assert!(matches!(cascade[5], Command::Dispatch(2, 1, 1)));
    match &cascade[4] {
        Command::PushConstants(pc) => {
            assert_eq!(pc.view_count, 4);
            assert_eq!(pc.entity_count, 300);
            assert_eq!(pc.combine_views, 1);
        },
        _ => panic!("expected push constants"),
    }
    match &cascade[6] {
        Command::Barrier { src_stages, dst_stages, entries } => {
            assert_eq!(*src_stages, STAGE_COMPUTE_SHADER);
            assert_eq!(*dst_stages, STAGE_DRAW_INDIRECT | STAGE_VERTEX_SHADER | STAGE_HOST);
            assert!(matches!(entries[0], BarrierEntry::StatisticsHostRead));
        },
        _ => panic!("expected a barrier"),
    }

    let main_empty = MainCullingIndirectPassData { entity_count: 0 }.record(buffers(), 1, 0, 'm', 's');
    assert!(main_empty.is_empty());

    let main_full = MainCullingIndirectPassData { entity_count: 10 }.record(buffers(), 1, 0, 'm', 's');
    assert_eq!(command_names(&main_full), vec!["bind", "fill", "fill", "reset", "barrier", "push", "dispatch", "barrier"]);
    assert!(matches!(main_full[1], Command::FillZero('m')));
    assert!(matches!(main_full[2], Command::FillZero('s')));
    assert!(matches!(main_full[6], Command::Dispatch(1, 1, 1)));
    match &main_full[7] {
        Command::Barrier { src_stages, .. } => assert_eq!(*src_stages, STAGE_COMPUTE_SHADER | STAGE_TRANSFER),
        _ => panic!("expected a barrier"),
    }

    let general = CullingIndirectPassData { entity_count: 10 }.record::<char>(buffers(), 2, false, 1);
    assert_eq!(command_names(&general), vec!["bind", "push", "dispatch"]);
    match &general[1] {
        Command::PushConstants(pc) => assert_eq!(pc.view_count, 2),
        _ => panic!("expected push constants"),
    }
    let idle = CullingIndirectPassData { entity_count: 10 }.record::<char>(buffers(), 0, false, 1);
    assert!(idle.is_empty());
}

#[test]
fn registry_frame_runs_enabled_passes_in_order() {
    let (mut state, mut actions) = step(RunState::Start, RunEvent::Begin);
    let mut log = actions.clone();
    loop {
        let event = match *actions.last().unwrap() {
            RunAction::CheckEnabled(i) => RunEvent::Enabled(i % 2 == 0),
            RunAction::Prepare(_) => RunEvent::Prepared(true),
            RunAction::Record(_) => RunEvent::Recorded(true),
            _ => break,
        };
        let next = step(state, event);
        state = next.0;
        actions = next.1;
        log.extend(actions.iter().copied());
    }
    assert_eq!(state, RunState::Finished);
    let prepared: Vec<usize> = log.iter().filter_map(|a| if let RunAction::Prepare(i) = a { Some(*i) } else { None }).collect();
    assert_eq!(prepared, vec![0, 2, 4, 6]);
    assert_eq!(log[0], RunAction::StartTotal);
    assert_eq!(*log.last().unwrap(), RunAction::EndTotal);
    assert_eq!(REGISTRY_PASS_COUNT, 7);
}

#[test]
fn registry_frame_stops_at_first_failure() {
    let (state, _) = step(RunState::Start, RunEvent::Begin);
    let (state, actions) = step(state, RunEvent::Enabled(true));
    assert_eq!(actions, vec![RunAction::Prepare(0)]);
    let (state, actions) = step(state, RunEvent::Prepared(false));
    assert_eq!(state, RunState::Failed);
    assert!(actions.is_empty());
}

#[test]
fn registry_passes_and_teardown_order() {
    assert_eq!(registry_pass(0), RegistryPass::CullingIndirect);
    assert_eq!(registry_pass(4), RegistryPass::Main);
    assert_eq!(registry_pass(6), RegistryPass::Ui);
    let order = destroy_order();
    assert_eq!(order.len(), 15);
    assert_eq!(order[0], DestroyAction::TotalMeasurement);
    assert_eq!(order[1], DestroyAction::PassMeasurement(0));
    assert_eq!(order[2], DestroyAction::Pass(0));
    assert_eq!(order[14], DestroyAction::Pass(6));
}
