use fractal_spirograph::record::{Vertex, RECORD_SIZE};
use fractal_spirograph::scheduler::{
    ConfigError, FrameCommands, FrameScheduler, FrameStart, Lifecycle, DEFAULT_CAPACITY,
    DEFAULT_INTERVAL,
};
use fractal_spirograph::surface::{Recovery, SurfaceConfig, SurfaceError};
use fractal_spirograph::trail::{CapacityError, OverflowPolicy, MAX_CAPACITY};
use fractal_spirograph::upload::CopyRegion;

/// A chain of rotating arms, stepped as the engine's caller steps it: the tip
/// is computed from the phases as they are, and then every phase advances.
struct Chain {
    radii: Vec<f64>,
    velocities: Vec<f64>,
    phases: Vec<f64>,
}

impl Chain {
    fn new(radii: &[f64], velocities: &[f64]) -> Chain {
        Chain {
            radii: radii.to_vec(),
            velocities: velocities.to_vec(),
            phases: vec![0.0; radii.len()],
        }
    }

    fn step(&mut self) -> [u32; 2] {
        let mut x = 0.0f64;
        let mut y = 0.0f64;
        for i in 0..self.radii.len() {
            x += self.radii[i] * self.phases[i].sin();
            y += self.radii[i] * self.phases[i].cos();
        }
        for i in 0..self.phases.len() {
            self.phases[i] += self.velocities[i];
        }
        [(x as f32).to_bits(), (y as f32).to_bits()]
    }
}

fn ready(capacity: usize, interval: u64, policy: OverflowPolicy) -> FrameScheduler {
    let mut s = FrameScheduler::new(capacity, interval, policy).unwrap();
    s.start(Some(SurfaceConfig { width: 800, height: 600 }));
    assert_eq!(s.state(), Lifecycle::Ready);
    s
}

/// Renders one frame with a tip that tells the frames apart.
fn frame(s: &mut FrameScheduler, index: u64) -> FrameCommands {
    assert_eq!(s.begin_frame(Ok(())), FrameStart::Render);
    assert_eq!(s.state(), Lifecycle::Rendering);
    let tip = if s.samples_on(index) { Some(tip_of(index)) } else { None };
    let commands = s.tick(index, tip).unwrap();
    assert_eq!(s.state(), Lifecycle::Ready);
    commands
}

fn tip_of(index: u64) -> [u32; 2] {
    [index as u32, index as u32 + 500]
}

fn close_to(a: f32, b: f64) -> bool {
    (a as f64 - b).abs() < 1e-6
}

#[test]
fn defaults_are_ten_thousand_slots_and_every_eighth_frame() {
    assert_eq!(DEFAULT_CAPACITY, 10_000);
    assert_eq!(DEFAULT_INTERVAL, 8);
    let s = FrameScheduler::new(DEFAULT_CAPACITY, DEFAULT_INTERVAL, OverflowPolicy::Freeze).unwrap();
    assert_eq!(s.trail().capacity(), 10_000);
    assert_eq!(s.interval(), 8);
    assert_eq!(s.trail().storage().to_bytes().len(), 240_000);
}

#[test]
fn new_scheduler_has_acquired_nothing() {
    let s = FrameScheduler::new(4, 2, OverflowPolicy::RingOverwrite).unwrap();
    assert_eq!(s.state(), Lifecycle::Uninitialized);
    assert_eq!(s.surface(), SurfaceConfig { width: 0, height: 0 });
    assert_eq!(s.interval(), 2);
    assert_eq!(s.trail().capacity(), 4);
    assert_eq!(s.trail().cursor(), 0);
    assert_eq!(s.trail().policy(), OverflowPolicy::RingOverwrite);
}

#[test]
fn scheduler_refuses_a_bad_configuration() {
    assert_eq!(
        FrameScheduler::new(0, 8, OverflowPolicy::Freeze).err(),
        Some(ConfigError::Capacity(CapacityError::Zero))
    );
    assert_eq!(
        FrameScheduler::new(0, 0, OverflowPolicy::Freeze).err(),
        Some(ConfigError::Capacity(CapacityError::Zero))
    );
    assert_eq!(
        FrameScheduler::new(4, 0, OverflowPolicy::Freeze).err(),
        Some(ConfigError::ZeroInterval)
    );
    if let Some(too_large) = MAX_CAPACITY.checked_add(1) {
        assert_eq!(
            FrameScheduler::new(too_large, 8, OverflowPolicy::Freeze).err(),
            Some(ConfigError::Capacity(CapacityError::TooLarge))
        );
        assert_eq!(
            FrameScheduler::new(too_large, 0, OverflowPolicy::Freeze).err(),
            Some(ConfigError::Capacity(CapacityError::TooLarge))
        );
    }
}

#[test]
fn every_eighth_frame_samples() {
    let s = ready(16, 8, OverflowPolicy::Freeze);
    for index in 0..40u64 {
        assert_eq!(s.samples_on(index), index == 0 || index == 8 || index == 16 || index == 24 || index == 32);
    }
    assert!(s.samples_on(8_000_000_000_000));
    assert!(!s.samples_on(u64::MAX));
}

#[test]
fn sample_count_is_one_more_than_the_full_intervals() {
    for interval in [1u64, 2, 3, 8] {
        for last in [0u64, 1, 2, 7, 8, 9, 23, 24, 25] {
            let mut s = ready(1000, interval, OverflowPolicy::Freeze);
            for index in 0..=last {
                frame(&mut s, index);
            }
            assert_eq!(s.trail().cursor() as u64, last / interval + 1);
            assert_eq!(s.trail().len() as u64, last / interval + 1);
        }
    }
}

#[test]
fn sample_count_is_bounded_by_the_capacity() {
    for policy in [OverflowPolicy::Freeze, OverflowPolicy::RingOverwrite] {
        let mut s = ready(5, 3, policy);
        for index in 0..=20 {
            frame(&mut s, index);
        }
        // 7 frames sampled, 5 slots.
        assert_eq!(s.trail().len(), 5);
        assert!(s.trail().cursor() <= 5);
    }
    let mut frozen = ready(5, 3, OverflowPolicy::Freeze);
    let mut ring = ready(5, 3, OverflowPolicy::RingOverwrite);
    for index in 0..=20 {
        frame(&mut frozen, index);
        frame(&mut ring, index);
    }
    assert_eq!(frozen.trail().cursor(), 5);
    let first: Vec<Vertex> = [0u64, 3, 6, 9, 12].iter().map(|f| Vertex::sample(tip_of(*f))).collect();
    assert_eq!(frozen.trail().storage().as_slice(), &first[..]);
    assert_eq!(ring.trail().cursor(), 2);
    let slots: Vec<Vertex> = [15u64, 18, 6, 9, 12].iter().map(|f| Vertex::sample(tip_of(*f))).collect();
    assert_eq!(ring.trail().storage().as_slice(), &slots[..]);
}

#[test]
fn frame_that_does_not_sample_only_draws() {
    let mut s = ready(4, 8, OverflowPolicy::Freeze);
    let first = frame(&mut s, 0);
    assert!(first.upload.is_some());
    assert_eq!(first.vertex_count, 1);
    for index in 1..8 {
        let commands = frame(&mut s, index);
        assert_eq!(commands, FrameCommands { upload: None, vertex_count: 1 });
    }
    let ninth = frame(&mut s, 8);
    assert!(ninth.upload.is_some());
    assert_eq!(ninth.vertex_count, 2);
}

#[test]
fn tip_is_ignored_on_a_frame_that_does_not_sample() {
    let mut s = ready(4, 8, OverflowPolicy::Freeze);
    assert_eq!(s.begin_frame(Ok(())), FrameStart::Render);
    let commands = s.tick(3, Some([1, 2])).unwrap();
    assert_eq!(commands, FrameCommands { upload: None, vertex_count: 0 });
    assert_eq!(s.trail().cursor(), 0);
}

#[test]
fn sampling_frame_without_a_tip_adds_no_point() {
    let mut s = ready(4, 8, OverflowPolicy::Freeze);
    assert_eq!(s.begin_frame(Ok(())), FrameStart::Render);
    let commands = s.tick(0, None).unwrap();
    assert_eq!(commands, FrameCommands { upload: None, vertex_count: 0 });
    assert_eq!(s.trail().cursor(), 0);
    assert_eq!(s.state(), Lifecycle::Ready);
}

#[test]
fn upload_is_one_record_at_the_offset_of_its_slot() {
    let mut s = ready(4, 1, OverflowPolicy::Freeze);
    for index in 0..4u64 {
        let commands = frame(&mut s, index);
        let upload = commands.upload.unwrap();
        let offset = index * 24;
        assert_eq!(upload.region, CopyRegion { src_offset: offset, dst_offset: offset, size: 24 });
        assert_eq!(upload.region, CopyRegion::for_record(index as u32));
        assert_eq!(upload.source.len(), 4 * RECORD_SIZE);
        assert_eq!(commands.vertex_count as u64, index + 1);
    }
}

#[test]
fn upload_source_is_blank_but_for_the_new_point() {
    let mut s = ready(3, 1, OverflowPolicy::Freeze);
    frame(&mut s, 0);
    let upload = frame(&mut s, 1).upload.unwrap();
    let blank: Vec<u8> = [0.0f32, 0.0, 0.0, 1.0, 0.0, 0.0].iter().flat_map(|f| f.to_ne_bytes()).collect();
    let point: Vec<u8> = [1u32, 501, 0, 0, 0, 0].iter().flat_map(|w| w.to_ne_bytes()).collect();
    assert_eq!(upload.source[0..24], blank[..]);
    assert_eq!(upload.source[24..48], point[..]);
    assert_eq!(upload.source[48..72], blank[..]);
}

#[test]
fn uploads_keep_a_buffer_equal_to_the_trail() {
    for policy in [OverflowPolicy::Freeze, OverflowPolicy::RingOverwrite] {
        let mut s = ready(3, 2, policy);
        let mut buffer: Vec<u8> = s.trail().storage().to_bytes();
        for index in 0..15 {
            let commands = frame(&mut s, index);
            if let Some(upload) = commands.upload {
                assert!(upload.region.apply(&upload.source, &mut buffer));
            }
            assert_eq!(buffer, s.trail().storage().to_bytes());
            assert_eq!(commands.vertex_count as usize, s.trail().cursor());
        }
    }
}

#[test]
fn full_freezing_trail_stops_the_uploads() {
    let mut s = ready(2, 1, OverflowPolicy::Freeze);
    assert!(frame(&mut s, 0).upload.is_some());
    assert!(frame(&mut s, 1).upload.is_some());
    for index in 2..6 {
        assert_eq!(frame(&mut s, index), FrameCommands { upload: None, vertex_count: 2 });
    }
    assert_eq!(s.trail().cursor(), 2);
}

#[test]
fn two_arm_chain_fills_a_trail_of_four() {
    let radii = [1.0f64, 0.5];
    let velocities = [0.1f64, -0.05];
    let mut chain = Chain::new(&radii, &velocities);
    let mut s = ready(4, 1, OverflowPolicy::Freeze);
    for index in 0..4u64 {
        assert_eq!(s.begin_frame(Ok(())), FrameStart::Render);
        let tip = if s.samples_on(index) { Some(chain.step()) } else { None };
        let commands = s.tick(index, tip).unwrap();
        assert_eq!(commands.vertex_count as u64, index + 1);
    }
    assert_eq!(s.trail().cursor(), 4);
    assert_eq!(s.trail().len(), 4);
    let points = s.trail().drawable_slice();
    assert_eq!(points.len(), 4);
    for t in 0..4usize {
        let time = t as f64;
        let x = radii[0] * (0.1 * time).sin() + radii[1] * (-0.05 * time).sin();
        let y = radii[0] * (0.1 * time).cos() + radii[1] * (-0.05 * time).cos();
        assert!(close_to(f32::from_bits(points[t].position[0]), x));
        assert!(close_to(f32::from_bits(points[t].position[1]), y));
        assert_eq!(f32::from_bits(points[t].position[2]), 0.0);
        assert_eq!(points[t].color, [0, 0, 0]);
    }
    // The first point is the tip at the initial phases.
    assert_eq!(f32::from_bits(points[0].position[0]), 0.0);
    assert_eq!(f32::from_bits(points[0].position[1]), 1.5);
}

#[test]
fn ring_of_two_holds_the_last_two_of_three_samples() {
    let mut chain = Chain::new(&[1.0, 0.5], &[0.1, -0.05]);
    let mut tips: Vec<[u32; 2]> = Vec::new();
    let mut s = ready(2, 1, OverflowPolicy::RingOverwrite);
    for index in 0..3u64 {
        assert_eq!(s.begin_frame(Ok(())), FrameStart::Render);
        let tip = chain.step();
        tips.push(tip);
        s.tick(index, Some(tip)).unwrap();
    }
    assert_eq!(s.trail().cursor(), 1);
    assert_eq!(s.trail().len(), 2);
    assert!(s.trail().has_lapped());
    assert_eq!(
        s.trail().storage().as_slice(),
        &[Vertex::sample(tips[2]), Vertex::sample(tips[1])][..]
    );
    assert!(!s.trail().storage().as_slice().contains(&Vertex::sample(tips[0])));
}

#[test]
fn resize_without_area_is_ignored() {
    let mut s = ready(4, 8, OverflowPolicy::Freeze);
    assert!(!s.resize(0, 0));
    assert_eq!(s.surface(), SurfaceConfig { width: 800, height: 600 });
    assert!(!s.resize(0, 480));
    assert_eq!(s.surface(), SurfaceConfig { width: 800, height: 600 });
    assert!(!s.resize(640, 0));
    assert_eq!(s.surface(), SurfaceConfig { width: 800, height: 600 });
    assert_eq!(s.state(), Lifecycle::Ready);
}

#[test]
fn resize_with_area_is_stored() {
    let mut s = ready(4, 8, OverflowPolicy::Freeze);
    assert!(s.resize(640, 480));
    assert_eq!(s.surface(), SurfaceConfig { width: 640, height: 480 });
    assert!(s.resize(1, 1));
    assert_eq!(s.surface(), SurfaceConfig { width: 1, height: 1 });
    assert!(s.resize(u32::MAX, u32::MAX));
    assert_eq!(s.surface(), SurfaceConfig { width: u32::MAX, height: u32::MAX });
    assert!(s.resize(u32::MAX, u32::MAX));
    assert_eq!(s.surface(), SurfaceConfig { width: u32::MAX, height: u32::MAX });
}

#[test]
fn surface_config_resizes_on_its_own() {
    let mut c = SurfaceConfig { width: 3, height: 4 };
    assert!(!c.resize(0, 0));
    assert_eq!(c, SurfaceConfig { width: 3, height: 4 });
    assert!(c.resize(5, 6));
    assert_eq!(c, SurfaceConfig { width: 5, height: 6 });
}

#[test]
fn each_surface_error_has_its_recovery() {
    assert_eq!(SurfaceError::Lost.recovery(), Recovery::Reconfigure);
    assert_eq!(SurfaceError::Outdated.recovery(), Recovery::Reconfigure);
    assert_eq!(SurfaceError::OutOfMemory.recovery(), Recovery::Abort);
    assert_eq!(SurfaceError::Timeout.recovery(), Recovery::Skip);
}

#[test]
fn backend_failure_is_final() {
    let mut s = FrameScheduler::new(4, 8, OverflowPolicy::Freeze).unwrap();
    s.start(None);
    assert_eq!(s.state(), Lifecycle::Failed);
    s.start(Some(SurfaceConfig { width: 1, height: 1 }));
    assert_eq!(s.state(), Lifecycle::Failed);
    assert_eq!(s.begin_frame(Ok(())), FrameStart::Idle);
    assert_eq!(s.tick(0, Some([0, 0])), None);
    s.close();
    assert_eq!(s.state(), Lifecycle::Failed);
}

#[test]
fn start_stores_the_first_size_once() {
    let mut s = FrameScheduler::new(4, 8, OverflowPolicy::Freeze).unwrap();
    s.start(Some(SurfaceConfig { width: 320, height: 200 }));
    assert_eq!(s.state(), Lifecycle::Ready);
    assert_eq!(s.surface(), SurfaceConfig { width: 320, height: 200 });
    s.start(Some(SurfaceConfig { width: 1, height: 1 }));
    assert_eq!(s.surface(), SurfaceConfig { width: 320, height: 200 });
    s.start(None);
    assert_eq!(s.state(), Lifecycle::Ready);
}

#[test]
fn no_frame_before_the_backend_is_acquired() {
    let mut s = FrameScheduler::new(4, 1, OverflowPolicy::Freeze).unwrap();
    assert_eq!(s.begin_frame(Ok(())), FrameStart::Idle);
    assert_eq!(s.begin_frame(Err(SurfaceError::OutOfMemory)), FrameStart::Idle);
    assert_eq!(s.state(), Lifecycle::Uninitialized);
    assert_eq!(s.tick(0, Some([1, 2])), None);
    assert_eq!(s.trail().cursor(), 0);
}

#[test]
fn tick_outside_a_frame_changes_nothing() {
    let mut s = ready(4, 1, OverflowPolicy::Freeze);
    assert_eq!(s.tick(0, Some([1, 2])), None);
    assert_eq!(s.trail().cursor(), 0);
    assert_eq!(s.state(), Lifecycle::Ready);
    frame(&mut s, 0);
    assert_eq!(s.tick(1, Some([1, 2])), None);
    assert_eq!(s.trail().cursor(), 1);
}

#[test]
fn frame_cannot_begin_twice() {
    let mut s = ready(4, 1, OverflowPolicy::Freeze);
    assert_eq!(s.begin_frame(Ok(())), FrameStart::Render);
    assert_eq!(s.begin_frame(Ok(())), FrameStart::Idle);
    assert_eq!(s.state(), Lifecycle::Rendering);
}

#[test]
fn lost_or_outdated_surface_is_configured_again_with_the_last_size() {
    let mut s = ready(4, 1, OverflowPolicy::Freeze);
    frame(&mut s, 0);
    s.resize(1024, 768);
    for e in [SurfaceError::Lost, SurfaceError::Outdated] {
        assert_eq!(
            s.begin_frame(Err(e)),
            FrameStart::Reconfigure(SurfaceConfig { width: 1024, height: 768 })
        );
        assert_eq!(s.state(), Lifecycle::Ready);
        assert_eq!(s.trail().cursor(), 1);
        assert_eq!(s.trail().storage().get(0), Some(Vertex::sample(tip_of(0))));
    }
    assert_eq!(frame(&mut s, 1).vertex_count, 2);
}

#[test]
fn timeout_skips_the_frame() {
    let mut s = ready(4, 1, OverflowPolicy::Freeze);
    assert_eq!(s.begin_frame(Err(SurfaceError::Timeout)), FrameStart::Skip);
    assert_eq!(s.state(), Lifecycle::Ready);
    assert_eq!(s.surface(), SurfaceConfig { width: 800, height: 600 });
    assert_eq!(s.tick(0, Some([1, 2])), None);
    assert_eq!(frame(&mut s, 0).vertex_count, 1);
}

#[test]
fn out_of_memory_is_final() {
    let mut s = ready(4, 1, OverflowPolicy::Freeze);
    assert_eq!(s.begin_frame(Err(SurfaceError::OutOfMemory)), FrameStart::Abort);
    assert_eq!(s.state(), Lifecycle::Failed);
    assert_eq!(s.begin_frame(Ok(())), FrameStart::Idle);
    s.close();
    assert_eq!(s.state(), Lifecycle::Failed);
}

#[test]
fn close_ends_the_run() {
    let mut s = ready(4, 1, OverflowPolicy::Freeze);
    frame(&mut s, 0);
    s.close();
    assert_eq!(s.state(), Lifecycle::ClosingDown);
    assert_eq!(s.begin_frame(Ok(())), FrameStart::Idle);
    assert_eq!(s.tick(1, Some([1, 2])), None);
    assert_eq!(s.trail().cursor(), 1);
    s.close();
    assert_eq!(s.state(), Lifecycle::ClosingDown);
    s.start(Some(SurfaceConfig { width: 1, height: 1 }));
    assert_eq!(s.state(), Lifecycle::ClosingDown);
}

#[test]
fn close_during_a_frame_or_before_the_start() {
    let mut s = ready(4, 1, OverflowPolicy::Freeze);
    assert_eq!(s.begin_frame(Ok(())), FrameStart::Render);
    s.close();
    assert_eq!(s.state(), Lifecycle::ClosingDown);
    let mut t = FrameScheduler::new(4, 1, OverflowPolicy::Freeze).unwrap();
    t.close();
    assert_eq!(t.state(), Lifecycle::ClosingDown);
}

#[test]
fn lost_surface_without_area_is_left_alone() {
    let mut s = FrameScheduler::new(4, 1, OverflowPolicy::Freeze).unwrap();
    s.start(Some(SurfaceConfig { width: 0, height: 600 }));
    assert_eq!(s.state(), Lifecycle::Ready);
    assert_eq!(s.begin_frame(Err(SurfaceError::Lost)), FrameStart::Idle);
    assert_eq!(s.begin_frame(Err(SurfaceError::Outdated)), FrameStart::Idle);
    assert_eq!(s.state(), Lifecycle::Ready);
    assert_eq!(s.surface(), SurfaceConfig { width: 0, height: 600 });
    assert!(s.resize(800, 600));
    assert_eq!(
        s.begin_frame(Err(SurfaceError::Lost)),
        FrameStart::Reconfigure(SurfaceConfig { width: 800, height: 600 })
    );
}

#[test]
fn surface_has_area_only_with_both_sides() {
    assert!(SurfaceConfig { width: 1, height: 1 }.has_area());
    assert!(SurfaceConfig { width: u32::MAX, height: 7 }.has_area());
    assert!(!SurfaceConfig { width: 0, height: 7 }.has_area());
    assert!(!SurfaceConfig { width: 7, height: 0 }.has_area());
    assert!(!SurfaceConfig { width: 0, height: 0 }.has_area());
}

#[test]
fn ring_cursor_goes_round_with_the_samples() {
    let capacity = 4usize;
    let mut s = ready(capacity, 2, OverflowPolicy::RingOverwrite);
    for last in 0..40u64 {
        frame(&mut s, last);
        let sampled = (last / 2 + 1) as usize;
        let expected = if sampled <= capacity { sampled } else { (sampled - 1) % capacity + 1 };
        assert_eq!(s.trail().cursor(), expected);
        assert_eq!(s.trail().has_lapped(), sampled > capacity);
        assert_eq!(s.trail().len(), sampled.min(capacity));
    }
}

#[test]
fn same_chain_gives_the_same_trail_on_every_run() {
    let mut runs: Vec<Vec<u8>> = Vec::new();
    for _ in 0..3 {
        let mut chain = Chain::new(&[0.6, 0.2, 0.066], &[0.0002, -0.0010, 0.0050]);
        let mut s = ready(16, 4, OverflowPolicy::Freeze);
        for index in 0..50u64 {
            assert_eq!(s.begin_frame(Ok(())), FrameStart::Render);
            let tip = if s.samples_on(index) { Some(chain.step()) } else { None };
            s.tick(index, tip).unwrap();
        }
        assert_eq!(s.trail().cursor(), 13);
        runs.push(s.trail().storage().to_bytes());
    }
    assert_eq!(runs[0], runs[1]);
    assert_eq!(runs[1], runs[2]);
}
