use std::collections::VecDeque;
use winit_wgpu_egui::app::calculate_fps;
use winit_wgpu_egui::app::Acquisition;
use winit_wgpu_egui::app::App;
use winit_wgpu_egui::app::Dispatch;
use winit_wgpu_egui::app::FrameCommand;
use winit_wgpu_egui::app::LoopEvent;
use winit_wgpu_egui::app::LoopState;
use winit_wgpu_egui::app::WindowSignal;

const OWNED: u64 = 11;
const STRANGER: u64 = 12;

fn redraw(window: u64, frame_nanos: u64) -> LoopEvent {
    LoopEvent::Window { window, signal: WindowSignal::RedrawRequested { frame_nanos } }
}

fn close(window: u64) -> LoopEvent {
    LoopEvent::Window { window, signal: WindowSignal::CloseRequested }
}

fn input(window: u64) -> LoopEvent {
    LoopEvent::Window { window, signal: WindowSignal::Input }
}

fn contents(app: &App) -> Vec<u64> {
    app.rolling_frame_time().samples().iter().copied().collect()
}

/// One whole frame: the redraw request, then the acquisition's outcome.
fn frame(app: &mut App, frame_nanos: u64, outcome: Acquisition) -> Vec<FrameCommand> {
    assert_eq!(app.on_event(redraw(OWNED, frame_nanos)), Dispatch::Frame);
    app.on_acquired(outcome)
}

fn full_frame(elapsed_nanos: u64, fps: Option<u64>) -> Vec<FrameCommand> {
    vec![
        FrameCommand::RenderScene { elapsed_nanos },
        FrameCommand::RenderOverlay { fps },
        FrameCommand::Present,
        FrameCommand::RequestRedraw,
    ]
}

#[test]
fn new_driver_is_running_with_seeded_window() {
    let app = App::new(OWNED);
    assert_eq!(app.state(), LoopState::Running);
    assert_eq!(app.window(), OWNED);
    assert_eq!(app.pending_frame(), None);
    assert_eq!(app.elapsed_time(), 0);
    assert_eq!(contents(&app), vec![0u64; 60]);
    assert_eq!(app.fps(), None);
}

#[test]
fn close_request_for_owned_window_exits() {
    let mut app = App::new(OWNED);
    assert_eq!(app.on_event(close(OWNED)), Dispatch::Exit);
    assert_eq!(app.state(), LoopState::Exiting);
}

#[test]
fn close_request_for_another_window_is_forwarded() {
    let mut app = App::new(OWNED);
    assert_eq!(app.on_event(close(STRANGER)), Dispatch::ForwardInput);
    assert_eq!(app.state(), LoopState::Running);
}

#[test]
fn redraw_request_begins_a_frame() {
    let mut app = App::new(OWNED);
    assert_eq!(app.on_event(redraw(OWNED, 16_000_000)), Dispatch::Frame);
    assert_eq!(app.state(), LoopState::Running);
    assert_eq!(app.pending_frame(), Some(16_000_000));
    assert_eq!(app.elapsed_time(), 0);
    assert_eq!(contents(&app), vec![0u64; 60]);
}

#[test]
fn acquired_frame_is_counted_once() {
    let mut app = App::new(OWNED);
    let plan = frame(&mut app, 16_000_000, Acquisition::Ready);
    assert_eq!(plan, full_frame(16_000_000, Some(375_000)));
    assert_eq!(app.pending_frame(), None);
    assert_eq!(app.elapsed_time(), 16_000_000);
    let mut expected = vec![0u64; 59];
    expected.push(16_000_000);
    assert_eq!(contents(&app), expected);
    // A second report without a new redraw request finds no frame begun.
    assert_eq!(app.on_acquired(Acquisition::Ready), vec![]);
    assert_eq!(app.elapsed_time(), 16_000_000);
    assert_eq!(contents(&app), expected);
    let plan = frame(&mut app, 4_000_000, Acquisition::Ready);
    assert_eq!(plan, full_frame(20_000_000, Some(300_000)));
    assert_eq!(app.fps(), Some(300_000));
}

#[test]
fn redraw_request_of_any_window_begins_a_frame() {
    let mut app = App::new(OWNED);
    assert_eq!(app.on_event(redraw(STRANGER, 1_000)), Dispatch::Frame);
    assert_eq!(app.pending_frame(), Some(1_000));
    assert_eq!(app.on_acquired(Acquisition::Ready), full_frame(1_000, Some(6_000_000_000)));
}

#[test]
fn other_window_events_are_forwarded_and_change_nothing() {
    let mut app = App::new(OWNED);
    frame(&mut app, 5, Acquisition::Ready);
    let before = contents(&app);
    assert_eq!(app.on_event(input(OWNED)), Dispatch::ForwardInput);
    assert_eq!(app.on_event(input(STRANGER)), Dispatch::ForwardInput);
    assert_eq!(app.state(), LoopState::Running);
    assert_eq!(app.pending_frame(), None);
    assert_eq!(app.elapsed_time(), 5);
    assert_eq!(contents(&app), before);
}

#[test]
fn events_of_no_window_are_ignored() {
    let mut app = App::new(OWNED);
    assert_eq!(app.on_event(LoopEvent::Other), Dispatch::Ignore);
    assert_eq!(app.state(), LoopState::Running);
    assert_eq!(app.pending_frame(), None);
    assert_eq!(app.elapsed_time(), 0);
    assert_eq!(contents(&app), vec![0u64; 60]);
}

#[test]
fn acquisition_without_a_frame_begun_does_nothing() {
    let mut app = App::new(OWNED);
    for outcome in [Acquisition::Ready, Acquisition::Outdated, Acquisition::Lost] {
        assert_eq!(app.on_acquired(outcome), vec![]);
        assert_eq!(app.elapsed_time(), 0);
        assert_eq!(contents(&app), vec![0u64; 60]);
    }
}

#[test]
fn elapsed_time_saturates() {
    let mut app = App::new(OWNED);
    frame(&mut app, u64::MAX - 1, Acquisition::Ready);
    assert_eq!(app.elapsed_time(), u64::MAX - 1);
    frame(&mut app, 5, Acquisition::Ready);
    assert_eq!(app.elapsed_time(), u64::MAX);
    let plan = frame(&mut app, 5, Acquisition::Ready);
    assert_eq!(app.elapsed_time(), u64::MAX);
    assert_eq!(plan[0], FrameCommand::RenderScene { elapsed_nanos: u64::MAX });
}

#[test]
fn window_length_is_sixty_after_every_report() {
    let mut app = App::new(OWNED);
    for i in 0..300u64 {
        match i % 6 {
            0 => {
                app.on_event(redraw(OWNED, i));
            }
            1 => {
                app.on_acquired(Acquisition::Ready);
            }
            2 => {
                app.on_event(input(OWNED));
            }
            3 => {
                app.on_event(redraw(STRANGER, i * 3));
            }
            4 => {
                app.on_acquired(if i % 4 == 0 { Acquisition::Outdated } else { Acquisition::Lost });
            }
            _ => {
                app.on_event(LoopEvent::Other);
            }
        }
        assert_eq!(app.rolling_frame_time().samples().len(), 60);
    }
}

#[test]
fn ready_frame_renders_scene_then_overlay_then_presents() {
    let mut app = App::new(OWNED);
    let mut plan = vec![];
    for _ in 0..60 {
        plan = frame(&mut app, 10_000_000, Acquisition::Ready);
    }
    assert_eq!(
        plan,
        vec![
            FrameCommand::RenderScene { elapsed_nanos: 600_000_000 },
            FrameCommand::RenderOverlay { fps: Some(10_000) },
            FrameCommand::Present,
            FrameCommand::RequestRedraw,
        ]
    );
}

#[test]
fn first_frame_of_a_zero_duration_has_no_rate_to_show() {
    let mut app = App::new(OWNED);
    assert_eq!(frame(&mut app, 0, Acquisition::Ready), full_frame(0, None));
}

#[test]
fn outdated_surface_skips_the_frame_silently() {
    let mut app = App::new(OWNED);
    frame(&mut app, 16_000_000, Acquisition::Ready);
    let window_before = contents(&app);
    let elapsed_before = app.elapsed_time();
    let fps_before = app.fps();

    let plan = frame(&mut app, 250_000_000, Acquisition::Outdated);

    assert_eq!(plan, vec![]);
    let draws = plan
        .iter()
        .filter(|c| {
            matches!(c, FrameCommand::RenderScene { .. } | FrameCommand::RenderOverlay { .. })
        })
        .count();
    let presents = plan.iter().filter(|c| matches!(c, FrameCommand::Present)).count();
    assert_eq!(draws, 0);
    assert_eq!(presents, 0);
    assert_eq!(contents(&app), window_before);
    assert_eq!(app.elapsed_time(), elapsed_before);
    assert_eq!(app.fps(), fps_before);
    assert_eq!(app.pending_frame(), None);
    assert_eq!(app.state(), LoopState::Running);
}

#[test]
fn outdated_frames_leave_no_trace_between_counted_ones() {
    let mut app = App::new(OWNED);
    let mut twin = App::new(OWNED);
    for i in 1..=90u64 {
        frame(&mut app, i * 1_000, Acquisition::Ready);
        frame(&mut app, 77, Acquisition::Outdated);
        frame(&mut twin, i * 1_000, Acquisition::Ready);
    }
    assert_eq!(contents(&app), contents(&twin));
    assert_eq!(app.elapsed_time(), twin.elapsed_time());
    assert_eq!(app.fps(), twin.fps());
}

#[test]
fn other_acquisition_failures_are_reported_and_skip_the_frame() {
    let mut app = App::new(OWNED);
    let mut elapsed = 0;
    for failure in [Acquisition::Timeout, Acquisition::Lost, Acquisition::OutOfMemory] {
        assert_eq!(frame(&mut app, 16_000_000, failure), vec![FrameCommand::ReportDropped]);
        elapsed += 16_000_000;
        assert_eq!(app.state(), LoopState::Running);
        assert_eq!(app.elapsed_time(), elapsed);
    }
    let mut expected = vec![0u64; 57];
    expected.extend([16_000_000u64; 3]);
    assert_eq!(contents(&app), expected);
    assert_eq!(
        frame(&mut app, 12_000_000, Acquisition::Ready),
        full_frame(60_000_000, Some(100_000))
    );
}

#[test]
fn nothing_happens_after_close() {
    let mut app = App::new(OWNED);
    frame(&mut app, 7, Acquisition::Ready);
    assert_eq!(app.on_event(close(OWNED)), Dispatch::Exit);
    let window_before = contents(&app);
    let events = [
        redraw(OWNED, 9),
        redraw(STRANGER, 9),
        input(OWNED),
        close(OWNED),
        close(STRANGER),
        LoopEvent::Other,
    ];
    let outcomes = [
        Acquisition::Ready,
        Acquisition::Timeout,
        Acquisition::Outdated,
        Acquisition::Lost,
        Acquisition::OutOfMemory,
    ];
    for event in events {
        assert_eq!(app.on_event(event), Dispatch::Ignore);
        for outcome in outcomes {
            assert_eq!(app.on_acquired(outcome), vec![]);
        }
        assert_eq!(app.state(), LoopState::Exiting);
        assert_eq!(app.pending_frame(), None);
        assert_eq!(app.elapsed_time(), 7);
        assert_eq!(contents(&app), window_before);
    }
}

#[test]
fn frame_begun_before_close_never_runs() {
    let mut app = App::new(OWNED);
    assert_eq!(app.on_event(redraw(OWNED, 16_000_000)), Dispatch::Frame);
    assert_eq!(app.on_event(close(OWNED)), Dispatch::Exit);
    assert_eq!(app.on_acquired(Acquisition::Ready), vec![]);
    assert_eq!(app.state(), LoopState::Exiting);
    assert_eq!(app.elapsed_time(), 0);
    assert_eq!(contents(&app), vec![0u64; 60]);
}

#[test]
fn surface_errors_map_to_their_outcomes() {
    assert_eq!(Acquisition::from_error(&wgpu::SurfaceError::Timeout), Acquisition::Timeout);
    assert_eq!(Acquisition::from_error(&wgpu::SurfaceError::Outdated), Acquisition::Outdated);
    assert_eq!(Acquisition::from_error(&wgpu::SurfaceError::Lost), Acquisition::Lost);
    assert_eq!(
        Acquisition::from_error(&wgpu::SurfaceError::OutOfMemory),
        Acquisition::OutOfMemory
    );
}

#[test]
fn outdated_surface_error_gives_an_empty_plan() {
    let mut app = App::new(OWNED);
    let outcome = Acquisition::from_error(&wgpu::SurfaceError::Outdated);
    assert_eq!(frame(&mut app, 16_000_000, outcome), vec![]);
    let outcome = Acquisition::from_error(&wgpu::SurfaceError::Lost);
    assert_eq!(frame(&mut app, 16_000_000, outcome), vec![FrameCommand::ReportDropped]);
}

#[test]
fn driver_rate_is_the_rate_of_its_window() {
    let mut app = App::new(OWNED);
    for i in 1..=75u64 {
        frame(&mut app, i * 1_000_000, Acquisition::Ready);
    }
    let window: VecDeque<u64> = (16..=75u64).map(|i| i * 1_000_000).collect();
    assert_eq!(contents(&app), Vec::from(window.clone()));
    assert_eq!(app.fps(), calculate_fps(&window));
    // 60 frames in 2.73 s.
    assert_eq!(app.fps(), Some(2197));
    assert_eq!(app.elapsed_time(), 2_850_000_000);
}
