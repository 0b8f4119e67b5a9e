use amber_lume::ao::{GtaoDepthMipPassData, GtaoPassData, RTAOPassData};
use amber_lume::ao_graph::{ao_plan, AoStep};
use amber_lume::blas::{blas_allocation_name, blas_build_commands, blas_builds, GeometryRange};
use amber_lume::debug_layer::{debug_layer_source, DebugLayerSource};
use amber_lume::declarations::{
    culling_pass_declarations_of, debug_layer_declarations_of, depth_prepass_declarations_of,
    main_culling_declarations_of, main_pass_declarations_of, CullingPassResources, DebugLayerResources, Declared,
    DepthPrepassResources, MainCullingResources, MainPassResources,
};
use amber_lume::draw_pool::DrawPool;
use amber_lume::pass_declarations::{
    accumulate_declarations_of, blas_build_declarations_of, bloom_downsample_declarations_of,
    depth_prepass_render_targets, environment_render_targets, hiz_declarations_of, main_pass_render_targets,
    rt_ao_declarations_of, AccumulateResources, BlasBuildResources, BloomDownsampleResources, ClearColor, HizResources,
    RtAoResources,
};
use amber_lume::draw_sort::{DrawBucket, DrawSortError, DrawSortPass};
use amber_lume::main_pass::{MainBuffers, MainPassData};
use amber_lume::pass_recording::{
    accumulate_commands, ao_spatial_commands, debug_layer_commands, denoise_guide_commands, gtao_commands,
    bloom_downsample_commands, bloom_upsample_commands, depth_prepass_commands, draw_sort_commands,
    environment_commands, gtao_depth_commands, gtao_depth_mip_commands, gtao_temporal_commands, hiz_commands,
    main_pass_commands, rt_ao_commands, PassImage, AO_SPATIAL_BLUR_RADIUS, AO_SPATIAL_NORMAL_THRESHOLD, AO_SPATIAL_PLANE_SENSITIVITY,
};
use amber_lume::pipeline_config::{
    brdf_lut_pipeline_config, compute_pipeline_config, depth_pass_pipeline_config, draw_sort_pipeline_config,
};
use amber_lume::recording::Command;
use amber_lume::sequence::StepRun;
use amber_lume::vulkan::{
    ACCESS_HOST_WRITE, ACCESS_SHADER_READ, ACCESS_SHADER_WRITE, ACCESS_TRANSFER_WRITE, BIND_POINT_COMPUTE,
    BIND_POINT_GRAPHICS, COMPARE_OP_ALWAYS, COMPARE_OP_LESS, CULL_MODE_BACK, STAGE_TRANSFER,
    FORMAT_R16G16B16A16_SFLOAT, FORMAT_R16G16_SFLOAT, LAYOUT_DEPTH_STENCIL_ATTACHMENT_OPTIMAL, LAYOUT_GENERAL,
    SHADER_STAGE_FRAGMENT, SHADER_STAGE_VERTEX, STAGE_COMPUTE_SHADER, STAGE_FRAGMENT_SHADER, STAGE_HOST,
};

fn image(full: Option<u32>, first_storage: Option<u32>, width: u32, height: u32) -> PassImage {
    PassImage { full, first_storage, width, height }
}

#[test]
fn ao_plan_wires_images_and_passes() {
    let plan = ao_plan(true, true);
    let names: Vec<&str> = plan.images.iter().map(|i| i.name).collect();
    assert_eq!(names, vec!["gtao", "denoise_guide_a", "denoise_guide_b", "gtao_history_a", "gtao_history_b"]);
    assert_eq!(plan.images[0].format, FORMAT_R16G16_SFLOAT);
    assert!(plan.images[1..].iter().all(|i| i.format == FORMAT_R16G16B16A16_SFLOAT));
    assert!(plan.images.iter().all(|i| i.storage && i.render_full_size));
    assert!(matches!(plan.steps[0], AoStep::RayTracedAo { target: 0 }));
    assert!(matches!(plan.steps[1], AoStep::DenoiseGuide { guide_a: 1, guide_b: 2 }));
    assert!(matches!(
        plan.steps[2],
        AoStep::TemporalDenoise { signal: 0, guide_a: 1, guide_b: 2, history_a: 3, history_b: 4, rt_mode: true }
    ));
    assert_eq!((plan.raw, plan.guide, plan.history), (0, (1, 2), (3, 4)));

    let screen = ao_plan(true, false);
    assert!(matches!(screen.steps[0], AoStep::ScreenSpaceAo { target: 0 }));
    assert!(matches!(screen.steps[2], AoStep::TemporalDenoise { rt_mode: false, .. }));
    let off = ao_plan(false, true);
    assert!(matches!(off.steps[0], AoStep::ScreenSpaceAo { .. }));
    assert_eq!(off.steps.len(), 3);
}

#[test]
fn main_pass_declares_what_it_fetches() {
    let r = MainPassResources {
        render_settings: 0u32,
        depth: 1,
        shadow_history_a: 2,
        shadow_history_b: 3,
        gtao_history_a: 4,
        gtao_history_b: 5,
        sh_image: 6,
        brdf_lut_image: 7,
        target_image: 8,
        entity_id_image: 9,
        scene_buffer: 10,
        entity_buffer: 11,
        draw_count: 12,
        indirect: 13,
        draw_data: 14,
        bone_transform: 15,
    };
    let d = main_pass_declarations_of(&r);
    assert_eq!(d.len(), 16);
    assert!(matches!(d[0], Declared::Consume(0)));
    match d[1] {
        Declared::WriteImage(1, a) => assert_eq!(a.layout, LAYOUT_DEPTH_STENCIL_ATTACHMENT_OPTIMAL),
        _ => panic!("depth is written"),
    }
    match d[3] {
        Declared::ReadImage(3, a) => {
            assert_eq!(a.layout, LAYOUT_GENERAL);
            assert_eq!(a.access, ACCESS_SHADER_READ);
            assert_eq!(a.stages, STAGE_FRAGMENT_SHADER);
        },
        _ => panic!("the shadow history is read"),
    }
    let names: Vec<u32> = d
        .iter()
        .map(declared_name)
        .collect();
    assert_eq!(names, (0..16).collect::<Vec<u32>>());
}

#[test]
fn depth_and_culling_declarations() {
    let r = DepthPrepassResources {
        depth: 'd',
        normal: 'n',
        velocity: 'v',
        scene_buffer: 's',
        entity_buffer: 'e',
        entity_motion_buffer: 'm',
        draw_count: 'c',
        indirect: 'i',
        draw_data: 'x',
        bone_transform: 'b',
        index_buffer: 'I',
        mesh_vertex_buffer: 'V',
        mesh_vertex_skin_buffer: 'S',
        submesh_buffer: 'M',
    };
    let d = depth_prepass_declarations_of(&r);
    assert_eq!(d.len(), 14);
    assert!(matches!(d[10], Declared::ReadBuffer('I', _)));

    let c = CullingPassResources {
        render_snapshot: 0u8,
        cull_requests_buffer: 1,
        scene_buffer: 2,
        entity_buffer: 3,
        main_culling_views_buffer: 4,
        mesh_buffer: 5,
        submesh_buffer: 6,
        material_buffer: 7,
        draw_count: 8,
        indirect: 9,
        draw_data: 10,
    };
    let d = culling_pass_declarations_of(&c);
    assert_eq!(d.len(), 11);
    match d[1] {
        Declared::WriteBuffer(1, a) => {
            assert_eq!(a.access, ACCESS_HOST_WRITE);
            assert_eq!(a.stages, STAGE_HOST);
        },
        _ => panic!("the requests are written by the host"),
    }
    match d[10] {
        Declared::WriteBuffer(10, a) => assert_eq!(a.stages, STAGE_COMPUTE_SHADER),
        _ => panic!("the draw records are written"),
    }
}

#[test]
fn accumulate_records_nothing_without_descriptors() {
    let scene = image(Some(1), None, 0, 0);
    let velocity = image(Some(2), None, 0, 0);
    let a = image(Some(3), Some(30), 100, 50);
    let b = image(Some(4), Some(40), 100, 50);
    let c = accumulate_commands(1, true, scene, velocity, a, b);
    assert_eq!(c.len(), 3);
    assert!(matches!(c[0], Command::BindPipeline(BIND_POINT_COMPUTE)));
    match &c[1] {
        Command::PushConstants(pc) => {
            assert_eq!(pc.scene_color_texture, 1);
            assert_eq!(pc.velocity_texture, 2);
            assert_eq!(pc.history_prev_texture, 3);
            assert_eq!(pc.history_curr_storage, 40);
            assert_eq!(pc.history_valid, 1);
            assert_eq!((pc.display_width, pc.display_height), (100, 50));
        },
        _ => panic!("expected push constants"),
    }
    assert!(matches!(c[2], Command::Dispatch(7, 4, 1)));

    let missing = accumulate_commands(0, true, image(None, None, 0, 0), velocity, a, b);
    assert!(missing.is_empty());
    let no_storage = accumulate_commands(0, false, scene, velocity, image(Some(3), None, 8, 8), b);
    assert!(no_storage.is_empty());
}

#[test]
fn gtao_temporal_and_guide_use_this_frames_history() {
    let gtao = image(Some(5), None, 0, 0);
    let velocity = image(Some(6), None, 0, 0);
    let a = image(Some(7), Some(70), 32, 17);
    let b = image(Some(8), Some(80), 32, 17);
    let c = gtao_temporal_commands(0, false, gtao, velocity, a, b);
    match &c[1] {
        Command::PushConstants(pc) => {
            assert_eq!(pc.history_prev_texture, 8);
            assert_eq!(pc.history_curr_storage, 70);
            assert_eq!(pc.history_valid, 0);
        },
        _ => panic!("expected push constants"),
    }
    assert!(matches!(c[2], Command::Dispatch(2, 2, 1)));

    let depth = image(Some(1), None, 0, 0);
    let normal = image(Some(2), None, 0, 0);
    let g = denoise_guide_commands(1, 0xabc, depth, normal, a, b);
    match &g[1] {
        Command::PushConstants(pc) => {
            assert_eq!(pc.guide_storage_id, 80);
            assert_eq!(pc.scene_buffer_device_address, 0xabc);
        },
        _ => panic!("expected push constants"),
    }
}

#[test]
fn ao_passes_dispatch_over_their_targets() {
    let depth = image(Some(1), None, 0, 0);
    let normal = image(Some(2), None, 0, 0);
    let target = image(None, Some(9), 1920, 1080);
    let c = gtao_depth_commands(0x10, depth, target);
    assert!(matches!(c[2], Command::Dispatch(120, 68, 1)));

    let c = gtao_commands(GtaoPassData { radius: 11, power: 12 }, 0x10, depth, normal, target, 5);
    match &c[1] {
        Command::PushConstants(pc) => {
            assert_eq!((pc.gtao_storage_id, pc.temporal_index, pc.radius, pc.power), (9, 5, 11, 12));
        },
        _ => panic!("expected push constants"),
    }

    let guides = [image(Some(20), None, 0, 0), image(Some(21), None, 0, 0)];
    let c = ao_spatial_commands(1, 0x10, image(Some(3), None, 0, 0), &guides, target, 77);
    match &c[1] {
        Command::PushConstants(pc) => {
            assert_eq!(pc.guide_descriptor_id, 21);
            assert_eq!(pc.plane_sensitivity, 0.02f32.to_bits());
            assert_eq!(pc.normal_threshold, 0.8f32.to_bits());
            assert_eq!(pc.blur_radius, 5.0f32.to_bits());
            assert_eq!(AO_SPATIAL_PLANE_SENSITIVITY, 0.02f32.to_bits());
            assert_eq!(AO_SPATIAL_NORMAL_THRESHOLD, 0.8f32.to_bits());
            assert_eq!(AO_SPATIAL_BLUR_RADIUS, 5.0f32.to_bits());
            assert_eq!(pc.frame_number, 77);
        },
        _ => panic!("expected push constants"),
    }

    let data = RTAOPassData::prepare(1, 4, 2, &[1, 2, 4], 7);
    assert_eq!(data.trace_period, 4);
    assert_eq!(data.sample_count, 4);
    let c = rt_ao_commands(data, 0x10, depth, normal, target, 2, 3);
    match &c[1] {
        Command::PushConstants(pc) => {
            assert_eq!((pc.tlas_descriptor_id, pc.frame_number, pc.trace_period), (2, 3, 4));
        },
        _ => panic!("expected push constants"),
    }
}

#[test]
fn depth_mip_and_pyramid_dispatches() {
    let c = gtao_depth_mip_commands(GtaoDepthMipPassData { radius: 3 }, &vec![10, 11, 12], &vec![20, 21, 22], 100, 60, 1, 2);
    match &c[1] {
        Command::PushConstants(pc) => {
            assert_eq!((pc.source_descriptor_id, pc.view_z_storage_id), (11, 22));
            assert_eq!((pc.width, pc.height, pc.source_width, pc.source_height), (25, 15, 50, 30));
            assert_eq!(pc.radius, 3);
        },
        _ => panic!("expected push constants"),
    }
    assert!(matches!(c[2], Command::Dispatch(2, 1, 1)));

    let c = hiz_commands::<4>(0x99, image(Some(1), None, 1920, 1080), &vec![5, 6], 2);
    match &c[1] {
        Command::PushConstants(pc) => {
            assert_eq!(pc.storage_ids, [5, 6, 0, 0]);
            assert_eq!(pc.mip_count, 2);
        },
        _ => panic!("expected push constants"),
    }
    assert!(matches!(c[2], Command::Dispatch(30, 17, 1)));
}

#[test]
fn main_and_fullscreen_recordings() {
    let buffers = MainBuffers {
        scene: 1,
        draw_data: 2,
        vertex: 3,
        entity: 4,
        submesh: 5,
        material: 6,
        bone_transform: 7,
        picked_entity: 8,
    };
    let data = MainPassData { ao_enabled: true, shadow_enabled: false };
    let c = main_pass_commands::<u8>(data, 1, buffers, (Some(10), Some(11)), (Some(20), None), None, 30, true, 4, 5);
    assert_eq!(c.len(), 4);
    assert!(matches!(c[0], Command::BindIndexBuffer));
    assert!(matches!(c[1], Command::BindPipeline(BIND_POINT_GRAPHICS)));
    match &c[2] {
        Command::PushConstants(pc) => {
            assert_eq!(pc.shadow_factor_descriptor_id, 11);
            assert_eq!(pc.gtao_descriptor_id, 0);
            assert_eq!(pc.sh_descriptor_id, 0);
            assert_eq!((pc.ao_enabled, pc.shadow_enabled, pc.shadow_colored), (1, 0, 1));
        },
        _ => panic!("expected push constants"),
    }
    assert!(matches!(c[3], Command::DrawIndirect));

    let c = debug_layer_commands(3, Some(42), 0x70, false, 9);
    assert!(matches!(c[2], Command::Draw(3)));
    match &c[1] {
        Command::PushConstants(pc) => assert_eq!((pc.texture_index, pc.layer_kind, pc.shadow_colored), (42, 3, 0)),
        _ => panic!("expected push constants"),
    }
    assert!(debug_layer_commands(7, None, 0x70, true, 9).is_empty());
}

#[test]
fn blas_builds_skip_meshes_without_geometry() {
    let r = GeometryRange { index_count: 9, index_offset: 2, vertex_offset: 5 };
    let lookups = vec![Some((vec![r], 'a')), None, Some((vec![r, r], 'c'))];
    let builds = blas_builds(&lookups, &vec![Some(0), None, Some(256)]);
    assert_eq!(builds.len(), 2);
    assert_eq!((builds[0].handle, builds[0].scratch_offset), ('a', 0));
    assert_eq!((builds[1].handle, builds[1].scratch_offset, builds[1].geometry_ranges.len()), ('c', 256, 2));

    let cmds = blas_build_commands(&builds, 0x1000).unwrap();
    assert_eq!(cmds[1].scratch_address, 0x1100);
    assert_eq!(cmds[1].range_infos[0].primitive_count, 3);
    assert_eq!(cmds[1].range_infos[0].primitive_offset, 8);
    assert!(blas_build_commands::<char>(&vec![], 0x1000).is_none());
}

#[test]
fn step_run_stops_at_first_failure() {
    let mut run = StepRun::new(3);
    assert_eq!(run.next_step(), Some(0));
    run.report(true);
    assert_eq!(run.outcome(), None);
    assert_eq!(run.next_step(), Some(1));
    run.report(false);
    assert_eq!(run.next_step(), None);
    assert_eq!(run.outcome(), Some(false));

    let mut all = StepRun::new(2);
    while let Some(_) = all.next_step() {
        all.report(true);
    }
    assert_eq!(all.outcome(), Some(true));
    assert_eq!(StepRun::new(0).outcome(), Some(true));
}

#[test]
fn pipeline_configurations() {
    let c = brdf_lut_pipeline_config("brdf_lut.frag", "fullscreen.vert", 91);
    assert_eq!(c.label, "brdf_lut");
    assert_eq!(c.stages.len(), 2);
    assert_eq!((c.stages[0].shader, c.stages[0].stage), ("brdf_lut.frag", SHADER_STAGE_FRAGMENT));
    assert_eq!((c.stages[1].shader, c.stages[1].stage), ("fullscreen.vert", SHADER_STAGE_VERTEX));
    assert_eq!(c.color_formats, vec![91]);
    assert!(c.depth_format.is_none());
    assert!(!c.depth_test && !c.depth_write && !c.blend_enabled);
    assert_eq!(c.depth_compare_op, COMPARE_OP_ALWAYS);

    let culling = compute_pipeline_config("culling_indirect.comp");
    assert_eq!((culling.shader, culling.entry_point), ("culling_indirect.comp", "main"));
    assert!(culling.specialization_entries.is_empty());

    let s = draw_sort_pipeline_config("draw_sort.comp", 1024).unwrap();
    assert_eq!(s.specialization_entries, vec![(0, 1024)]);
    assert_eq!(s.entry_point, "main");
    assert!(matches!(
        draw_sort_pipeline_config("draw_sort.comp", 1000),
        Err(DrawSortError::CapacityNotPowerOfTwo { capacity: 1000 })
    ));

    let pool = DrawPool { indirect: 1u8, draw_count: 2, draw_data: 3, capacity: 64 };
    let bucket = DrawBucket { count_index: 0, draw_offset: 0, capacity: 64 };
    let pass = DrawSortPass::new('p', pool, bucket, DrawBucket { count_index: 1, draw_offset: 64, capacity: 64 });
    assert_eq!(pass.pipeline, 'p');
    assert_eq!(pass.sorted_bucket.draw_offset, 64);
}

fn declared_name<R: Copy>(d: &Declared<R>) -> R {
    match d {
        Declared::Consume(r)
        | Declared::ReadImage(r, _)
        | Declared::WriteImage(r, _)
        | Declared::ReadBuffer(r, _)
        | Declared::WriteBuffer(r, _)
        | Declared::ReadAccelerationStructure(r, _)
        | Declared::WriteAccelerationStructure(r, _) => *r,
        Declared::ReadImageMip(r, _, _) | Declared::WriteImageMip(r, _, _) => *r,
    }
}

#[test]
fn debug_layer_declares_every_layer_source() {
    let r = DebugLayerResources {
        velocity_image: 'v',
        normal_image: 'n',
        gtao_image: 'g',
        sh_image: 's',
        hiz_image: 'h',
        shadow_history_a: 'a',
        shadow_history_b: 'b',
        target_image: 't',
    };
    let d = debug_layer_declarations_of(&r);
    let names: Vec<char> = d.iter().map(declared_name).collect();
    assert_eq!(names, vec!['v', 'n', 'g', 's', 'h', 'a', 'b', 't']);
    for layer in 1..=7usize {
        for index in 0..2u32 {
            let shown = match debug_layer_source(layer, index) {
                DebugLayerSource::Velocity => r.velocity_image,
                DebugLayerSource::Normal => r.normal_image,
                DebugLayerSource::Gtao => r.gtao_image,
                DebugLayerSource::ShIrradiance => r.sh_image,
                DebugLayerSource::Hiz => r.hiz_image,
                DebugLayerSource::ShadowHistoryA => r.shadow_history_a,
                DebugLayerSource::ShadowHistoryB => r.shadow_history_b,
            };
            assert!(names.contains(&shown));
        }
    }
}

#[test]
fn main_culling_declares_its_buffers_written() {
    let r = MainCullingResources {
        scene_buffer: 0u8,
        entity_buffer: 1,
        culling_view_buffer: 2,
        draw_count_main: 3,
        draw_count_shadow: 4,
        indirect_main: 5,
        indirect_shadow: 6,
        draw_data_main: 7,
        draw_data_shadow: 8,
    };
    let d = main_culling_declarations_of(&r);
    assert_eq!(d.iter().map(declared_name).collect::<Vec<u8>>(), (0..9).collect::<Vec<u8>>());
    match d[3] {
        Declared::WriteBuffer(3, a) => {
            assert_eq!(a.access, ACCESS_TRANSFER_WRITE | ACCESS_SHADER_WRITE);
            assert_eq!(a.stages, STAGE_TRANSFER | STAGE_COMPUTE_SHADER);
        },
        _ => panic!("the main draw count is written"),
    }
    assert!(d.iter().all(|x| matches!(x, Declared::WriteBuffer(..))));
}

#[test]
fn geometry_and_fullscreen_pass_recordings() {
    let c = depth_prepass_commands::<u8>(1, 2, 3, 4);
    assert_eq!(c.len(), 4);
    assert!(matches!(c[0], Command::BindIndexBuffer));
    assert!(matches!(c[3], Command::DrawIndirect));
    match &c[2] {
        Command::PushConstants(pc) => assert_eq!(pc.entity_motion_buffer_device_address, 4),
        _ => panic!("expected push constants"),
    }

    let c = bloom_downsample_commands(Some(5), &vec![10, 11], Some(1), true, 0x3f80_0000);
    match &c[1] {
        Command::PushConstants(pc) => assert_eq!((pc.src_texture, pc.karis, pc.threshold), (11, 1, 0x3f80_0000)),
        _ => panic!("expected push constants"),
    }
    let c = bloom_downsample_commands(Some(5), &vec![], None, false, 0);
    match &c[1] {
        Command::PushConstants(pc) => assert_eq!(pc.src_texture, 5),
        _ => panic!("expected push constants"),
    }
    assert!(bloom_downsample_commands(Some(5), &vec![10], Some(3), true, 0).is_empty());
    assert!(bloom_upsample_commands(&vec![10], 1).is_empty());
    assert!(matches!(bloom_upsample_commands(&vec![10, 12], 1)[2], Command::Draw(3)));

    let c = environment_commands(0x44);
    assert!(matches!(c[0], Command::BindPipeline(BIND_POINT_GRAPHICS)));
    assert!(matches!(c[2], Command::Draw(3)));

    let source = DrawBucket { count_index: 1, draw_offset: 0, capacity: 64 };
    let sorted = DrawBucket { count_index: 2, draw_offset: 64, capacity: 128 };
    let c = draw_sort_commands(10, 11, 12, 13, source, sorted);
    assert!(matches!(c[2], Command::Dispatch(1, 1, 1)));
    match &c[1] {
        Command::PushConstants(pc) => {
            assert_eq!((pc.count_index, pc.source_offset, pc.target_offset, pc.capacity), (1, 0, 64, 128));
            assert_eq!(pc.indirect_sorted_buffer_device_address, 10);
        },
        _ => panic!("expected push constants"),
    }

    let depth = depth_pass_pipeline_config(126);
    assert_eq!(depth.label, "depth");
    assert_eq!(depth.stages[0].shader, "shaders/depth/depth.frag.spv");
    assert_eq!(depth.stages[1].shader, "shaders/depth/depth.vert.spv");
    assert!(depth.color_formats.is_empty());
    assert_eq!(depth.depth_format, Some(126));
    assert_eq!((depth.cull_mode, depth.depth_compare_op), (CULL_MODE_BACK, COMPARE_OP_LESS));
    assert!(depth.depth_test && depth.depth_write);
}

#[test]
fn brdf_lut_pass_starts_unbaked() {
    let mut pass = amber_lume::brdf_lut::BrdfLutPass::new('p', 7u32);
    assert_eq!((pass.pipeline, pass.brdf_lut_image), ('p', 7));
    assert!(pass.bake.is_enabled());
    pass.bake.record();
    assert!(!pass.bake.is_enabled());
}

#[test]
fn blas_allocation_names() {
    assert_eq!(blas_allocation_name(0), b"blas_mesh_0".to_vec());
    assert_eq!(blas_allocation_name(1234), b"blas_mesh_1234".to_vec());
    assert_eq!(blas_allocation_name(u32::MAX), format!("blas_mesh_{}", u32::MAX).into_bytes());
}

#[test]
fn compute_pass_declarations() {
    let d = accumulate_declarations_of(&AccumulateResources { scene_color: 1u8, velocity: 2, history_a: 3, history_b: 4 });
    assert_eq!(d.iter().map(declared_name).collect::<Vec<u8>>(), vec![1, 2, 3, 4]);
    match d[2] {
        Declared::WriteImage(3, a) => {
            assert_eq!(a.layout, LAYOUT_GENERAL);
            assert_eq!(a.access, ACCESS_SHADER_READ | ACCESS_SHADER_WRITE);
        },
        _ => panic!("the history is read and written"),
    }

    let d = hiz_declarations_of(&HizResources { depth_image: 'd', hiz_image: 'h', hiz_counter_buffer: 'c', mip_count: 3 });
    assert_eq!(d.len(), 5);
    assert!(matches!(d[0], Declared::ReadImage('d', _)));
    assert!(matches!(d[1], Declared::WriteImageMip('h', 0, _)));
    assert!(matches!(d[3], Declared::WriteImageMip('h', 2, _)));
    assert!(matches!(d[4], Declared::WriteBuffer('c', _)));
    assert_eq!(hiz_declarations_of(&HizResources { depth_image: 'd', hiz_image: 'h', hiz_counter_buffer: 'c', mip_count: 0 }).len(), 2);

    let whole = bloom_downsample_declarations_of(&BloomDownsampleResources { src: 1u8, src_mip: None, dst: 2, dst_mip: 0 });
    assert!(matches!(whole[0], Declared::ReadImage(1, _)));
    let mip = bloom_downsample_declarations_of(&BloomDownsampleResources { src: 1u8, src_mip: Some(2), dst: 2, dst_mip: 3 });
    assert!(matches!(mip[0], Declared::ReadImageMip(1, 2, _)));
    assert!(matches!(mip[1], Declared::WriteImageMip(2, 3, _)));

    let rt = rt_ao_declarations_of(&RtAoResources { depth_image: 1u8, normal_image: 2, ao_image: 3, tlas: 4 });
    assert!(matches!(rt[3], Declared::ReadAccelerationStructure(4, _)));
    let blas = blas_build_declarations_of(&BlasBuildResources {
        blas_state: 0u8,
        render_snapshot: 1,
        blas: 2,
        mesh_vertex_buffer: 3,
        index_buffer: 4,
        addresses: 5,
        scratch: 6,
    });
    assert_eq!(blas.iter().map(declared_name).collect::<Vec<u8>>(), (0..7).collect::<Vec<u8>>());
    assert!(matches!(blas[2], Declared::WriteAccelerationStructure(2, _)));
}

#[test]
fn graphics_pass_render_targets() {
    let t = depth_prepass_render_targets('n', 'v', 'd');
    assert_eq!(t.color.len(), 2);
    assert_eq!((t.color[0].image, t.color[0].clear), ('n', None));
    assert_eq!(t.color[1].clear, Some(ClearColor::FloatBits([0.0f32.to_bits(); 4])));
    assert_eq!(t.depth.unwrap().clear_bits, Some(0.0f32.to_bits()));

    let t = environment_render_targets('t', 'v', 'd');
    assert_eq!(
        t.color[0].clear,
        Some(ClearColor::FloatBits([0.0f32.to_bits(), 0.0f32.to_bits(), 0.0f32.to_bits(), 1.0f32.to_bits()]))
    );
    assert!(t.depth.unwrap().clear_bits.is_none());

    let t = main_pass_render_targets('t', 'e', 'd');
    assert_eq!(t.color[1].image, 'e');
    assert_eq!(t.color[1].clear, Some(ClearColor::Uint([u32::MAX; 4])));
    assert_eq!(t.view_mask, 0);
}
