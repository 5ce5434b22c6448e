use engine::render::framework::{
    choose_surface_format, FrameAction, FrameDriver, FrameEvent, FrameState, FramerateLimit,
    Pacing, NANOS_PER_SECOND,
};
use engine::render::gpu::{AstcBlock, AstcChannel, SurfaceConfiguration, TextureFormat};
use engine::render::handle::Handle;
use engine::render::time::Time;

fn run(driver: &mut FrameDriver, events: &[FrameEvent]) -> Vec<FrameAction> {
    events.iter().map(|event| driver.step(*event)).collect()
}

#[test]
fn unlimited_framerate_always_redraws() {
    assert_eq!(FramerateLimit::Unlimited.pace(0), Pacing::Redraw);
    assert_eq!(FramerateLimit::Unlimited.pace(u128::MAX), Pacing::Redraw);
}

#[test]
fn limited_framerate_waits_for_the_rest_of_the_frame() {
    let limit = FramerateLimit::Limited(60);
    assert_eq!(NANOS_PER_SECOND, 1_000_000_000);
    assert_eq!(limit.pace(0), Pacing::Wait(16_666_666));
    assert_eq!(limit.pace(10_000_000), Pacing::Wait(6_666_666));
    assert_eq!(limit.pace(16_666_665), Pacing::Wait(1));
    assert_eq!(limit.pace(16_666_666), Pacing::Redraw);
    assert_eq!(limit.pace(1_000_000_000), Pacing::Redraw);
    assert_eq!(FramerateLimit::Limited(1).pace(999_999_999), Pacing::Wait(1));
    assert_eq!(FramerateLimit::Limited(2_000_000_000).pace(0), Pacing::Redraw);
}

#[test]
fn resize_keeps_at_least_one_texel() {
    let mut config =
        SurfaceConfiguration { format: TextureFormat::Bgra8Unorm, width: 800, height: 600 };
    config.resize(0, 0);
    assert_eq!((config.width, config.height), (1, 1));
    config.resize(1920, 0);
    assert_eq!((config.width, config.height), (1920, 1));
    config.resize(0, 1080);
    assert_eq!((config.width, config.height), (1, 1080));
    config.resize(u32::MAX, 2);
    assert_eq!((config.width, config.height), (u32::MAX, 2));
    assert_eq!(config.format, TextureFormat::Bgra8Unorm);
}

#[test]
fn first_srgb_format_is_preferred() {
    assert_eq!(
        choose_surface_format(&[
            TextureFormat::Bgra8Unorm,
            TextureFormat::Rgba8UnormSrgb,
            TextureFormat::Bgra8UnormSrgb,
        ]),
        TextureFormat::Rgba8UnormSrgb
    );
    assert_eq!(
        choose_surface_format(&[TextureFormat::Rgba16Float, TextureFormat::Bgra8Unorm]),
        TextureFormat::Rgba16Float
    );
    assert_eq!(
        choose_surface_format(&[TextureFormat::Bgra8UnormSrgb]),
        TextureFormat::Bgra8UnormSrgb
    );
}

#[test]
fn without_an_srgb_format_the_first_format_is_taken_whatever_it_is() {
    assert_eq!(
        choose_surface_format(&[
            TextureFormat::Rgba8Snorm,
            TextureFormat::Bgra8Unorm,
            TextureFormat::Rgba8Unorm,
        ]),
        TextureFormat::Rgba8Snorm
    );
    assert_eq!(
        choose_surface_format(&[
            TextureFormat::Rgba16Unorm,
            TextureFormat::Rgba16Snorm,
            TextureFormat::Bgra8UnormSrgb,
            TextureFormat::Rgba8UnormSrgb,
        ]),
        TextureFormat::Bgra8UnormSrgb
    );
}

#[test]
fn compressed_formats_are_srgb_where_they_say_so() {
    assert!(TextureFormat::Bc1RgbaUnormSrgb.is_srgb());
    assert!(TextureFormat::Bc7RgbaUnormSrgb.is_srgb());
    assert!(TextureFormat::Etc2Rgba8UnormSrgb.is_srgb());
    assert!(!TextureFormat::Bc1RgbaUnorm.is_srgb());
    assert!(!TextureFormat::Bc6hRgbUfloat.is_srgb());
    assert!(!TextureFormat::EacRg11Snorm.is_srgb());
    assert!(!TextureFormat::Rgba8Snorm.is_srgb());
    let block = AstcBlock::B6x6;
    assert!(TextureFormat::Astc { block, channel: AstcChannel::UnormSrgb }.is_srgb());
    assert!(!TextureFormat::Astc { block, channel: AstcChannel::Unorm }.is_srgb());
    assert!(!TextureFormat::Astc { block, channel: AstcChannel::Hdr }.is_srgb());
    assert_eq!(
        choose_surface_format(&[
            TextureFormat::Astc { block, channel: AstcChannel::Hdr },
            TextureFormat::Astc { block, channel: AstcChannel::UnormSrgb },
            TextureFormat::Rgba8UnormSrgb,
        ]),
        TextureFormat::Astc { block, channel: AstcChannel::UnormSrgb }
    );
}

#[test]
fn frame_goes_through_its_steps_in_order() {
    let mut driver = FrameDriver::new();
    assert_eq!(driver.state, FrameState::Idle);
    let actions = run(
        &mut driver,
        &[
            FrameEvent::RedrawRequested,
            FrameEvent::Acquired,
            FrameEvent::Recorded,
            FrameEvent::Submitted,
            FrameEvent::Presented,
        ],
    );
    assert_eq!(
        actions,
        vec![
            FrameAction::Acquire,
            FrameAction::Record,
            FrameAction::Submit,
            FrameAction::Present,
            FrameAction::AdvanceTime,
        ]
    );
    assert_eq!(driver.state, FrameState::Idle);
}

#[test]
fn failed_acquisition_is_retried_once() {
    let mut driver = FrameDriver::new();
    let actions = run(
        &mut driver,
        &[FrameEvent::RedrawRequested, FrameEvent::AcquireFailed, FrameEvent::Acquired],
    );
    assert_eq!(
        actions,
        vec![FrameAction::Acquire, FrameAction::ReconfigureAndAcquire, FrameAction::Record]
    );
    assert_eq!(driver.state, FrameState::Recording);
}

#[test]
fn second_failed_acquisition_is_fatal() {
    let mut driver = FrameDriver::new();
    let actions = run(
        &mut driver,
        &[
            FrameEvent::RedrawRequested,
            FrameEvent::AcquireFailed,
            FrameEvent::AcquireFailed,
            FrameEvent::RedrawRequested,
            FrameEvent::Acquired,
        ],
    );
    assert_eq!(
        actions,
        vec![
            FrameAction::Acquire,
            FrameAction::ReconfigureAndAcquire,
            FrameAction::Abort,
            FrameAction::Nothing,
            FrameAction::Nothing,
        ]
    );
    assert_eq!(driver.state, FrameState::Failed);
}

#[test]
fn events_out_of_order_change_nothing() {
    let mut driver = FrameDriver::new();
    assert_eq!(driver.step(FrameEvent::Presented), FrameAction::Nothing);
    assert_eq!(driver.step(FrameEvent::Acquired), FrameAction::Nothing);
    assert_eq!(driver.state, FrameState::Idle);
    assert_eq!(driver.step(FrameEvent::RedrawRequested), FrameAction::Acquire);
    assert_eq!(driver.step(FrameEvent::RedrawRequested), FrameAction::Nothing);
    assert_eq!(driver.step(FrameEvent::Submitted), FrameAction::Nothing);
    assert_eq!(driver.state, FrameState::Acquiring);
}

#[test]
fn handle_keeps_its_number() {
    let handle: Handle<u8> = Handle::new(17);
    assert_eq!(handle.id(), 17);
    assert_eq!(Handle::<String>::new(0).id(), 0);
}

#[test]
fn time_source_measures_from_its_reference_point() {
    let mut time = Time::new();
    let inner = std::time::Instant::now();
    while inner.elapsed() < std::time::Duration::from_millis(2) {}
    let passed = inner.elapsed();
    let delta = time.time_delta();
    assert!(delta >= passed);
    assert!(delta >= std::time::Duration::from_millis(2));

    let outer = std::time::Instant::now();
    time.post_update();
    let delta = time.time_delta();
    assert!(delta <= outer.elapsed());
    assert!(time.time_delta() >= delta);
}

#[test]
fn time_delta_at_a_reading_is_the_time_since_the_reference_point() {
    let start = std::time::Instant::now();
    let time = Time::at(start);
    let later = start + std::time::Duration::from_millis(5);
    assert_eq!(time.delta_at(later), std::time::Duration::from_millis(5));
    assert_eq!(time.delta_at(start), std::time::Duration::ZERO);
    // Measuring leaves the reference point alone.
    assert_eq!(time.delta_at(later), std::time::Duration::from_millis(5));
    let much_later = start + std::time::Duration::from_secs(3);
    assert_eq!(time.delta_at(much_later), std::time::Duration::from_secs(3));
    assert!(time.delta_at(later) <= time.delta_at(much_later));
}

#[test]
fn time_delta_before_the_reference_point_is_zero() {
    let start = std::time::Instant::now();
    let later = start + std::time::Duration::from_millis(5);
    let time = Time::at(later);
    assert_eq!(time.delta_at(start), std::time::Duration::ZERO);
}

#[test]
fn advancing_moves_the_reference_point_to_the_reading() {
    let start = std::time::Instant::now();
    let mut time = Time::at(start);
    let first = start + std::time::Duration::from_millis(16);
    let second = start + std::time::Duration::from_millis(40);
    time.advance_to(first);
    assert_eq!(time.delta_at(second), std::time::Duration::from_millis(24));
    assert_eq!(time.delta_at(first), std::time::Duration::ZERO);
    // Where the reference point was before plays no part.
    let mut other = Time::at(second);
    other.advance_to(first);
    assert_eq!(other.delta_at(second), time.delta_at(second));
}
