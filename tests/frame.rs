use quad_renderer::frame::{
    Aspect, Command, Extent, FrameError, FramePhase, FrameSignal, RenderState, ResizeError,
    WindowSignal, PROJECTION_GROUP, TEXTURE_GROUP, WINDOW_HEIGHT, WINDOW_WIDTH,
};

fn started() -> RenderState {
    RenderState::new(WINDOW_WIDTH, WINDOW_HEIGHT, 6).unwrap()
}

#[test]
fn new_refuses_empty_surface() {
    assert!(RenderState::new(0, 720, 6).is_none());
    assert!(RenderState::new(1280, 0, 6).is_none());
    let st = started();
    assert_eq!(st.surface_size(), Extent { width: 1280, height: 720 });
    assert_eq!(st.depth_size(), Extent { width: 1280, height: 720 });
    assert_eq!(st.phase(), FramePhase::Idle);
    assert!(!st.is_stale());
    assert_eq!(st.index_count(), 6);
}

#[test]
fn startup_aspect_is_sixteen_ninths() {
    let mut st = started();
    assert_eq!(
        st.handle(WindowSignal::Resized { width: 1280, height: 720 }),
        Command::Reconfigure(Extent { width: 1280, height: 720 })
    );
    let a = st.aspect();
    assert_eq!(a, Aspect { num: 1280, den: 720 });
    let value = a.num as f32 / a.den as f32;
    assert!((value - 1.7778).abs() < 1e-4);
}

#[test]
fn resize_sets_aspect_exactly() {
    let mut st = started();
    assert_eq!(st.resize(1000, 333), Ok(()));
    assert_eq!(st.aspect(), Aspect { num: 1000, den: 333 });
    assert_eq!(st.surface_size(), Extent { width: 1000, height: 333 });
}

#[test]
fn resize_twice_equals_resize_once() {
    let mut once = started();
    let c1 = once.handle(WindowSignal::Resized { width: 800, height: 600 });
    let mut twice = started();
    twice.handle(WindowSignal::Resized { width: 800, height: 600 });
    let c2 = twice.handle(WindowSignal::Resized { width: 800, height: 600 });
    assert_eq!(c1, c2);
    assert_eq!(once.surface_size(), twice.surface_size());
    assert_eq!(once.depth_size(), twice.depth_size());
    assert_eq!(once.aspect(), twice.aspect());
    assert_eq!(once.phase(), twice.phase());
    assert_eq!(once.is_stale(), twice.is_stale());
}

#[test]
fn resize_rebuilds_depth_and_next_frame_uses_it() {
    let mut st = started();
    let c = st.handle(WindowSignal::Resized { width: 640, height: 480 });
    assert_eq!(c, Command::Reconfigure(Extent { width: 640, height: 480 }));
    assert_eq!(st.depth_size(), Extent { width: 640, height: 480 });
    match st.handle(WindowSignal::RedrawRequested) {
        Command::Draw(plan) => {
            assert_eq!(plan.target, Extent { width: 640, height: 480 });
            assert!(!plan.reconfigure_first);
        }
        other => panic!("expected a frame, got {:?}", other),
    }
}

#[test]
fn zero_size_resize_is_refused() {
    let mut st = started();
    assert_eq!(st.resize(0, 480), Err(ResizeError::ZeroSize));
    assert_eq!(st.handle(WindowSignal::Resized { width: 640, height: 0 }), Command::Skip);
    assert_eq!(st.surface_size(), Extent { width: 1280, height: 720 });
    assert_eq!(st.aspect(), Aspect { num: 1280, den: 720 });
}

#[test]
fn close_and_escape_exit() {
    let mut st = started();
    assert_eq!(st.handle(WindowSignal::CloseRequested), Command::Exit);
    assert_eq!(st.handle(WindowSignal::KeyPressed { escape: true }), Command::Exit);
    assert_eq!(st.handle(WindowSignal::KeyPressed { escape: false }), Command::Skip);
    assert_eq!(st.handle(WindowSignal::Other), Command::Skip);
    assert_eq!(st.phase(), FramePhase::Idle);
}

#[test]
fn full_frame_cycle() {
    let mut st = started();
    let plan = match st.handle(WindowSignal::RedrawRequested) {
        Command::Draw(plan) => plan,
        other => panic!("expected a frame, got {:?}", other),
    };
    assert_eq!(plan.texture_group, TEXTURE_GROUP);
    assert_eq!(plan.projection_group, PROJECTION_GROUP);
    assert_eq!(plan.texture_group, 0);
    assert_eq!(plan.projection_group, 1);
    assert_eq!(plan.first_index, 0);
    assert_eq!(plan.index_count, 6);
    assert_eq!(plan.instance_count, 1);
    assert_eq!(st.phase(), FramePhase::Acquiring);
    assert_eq!(st.handle(WindowSignal::RedrawRequested), Command::Skip);
    assert_eq!(st.advance(FrameSignal::Acquired), Ok(FramePhase::Recording));
    assert_eq!(st.advance(FrameSignal::Submitted), Ok(FramePhase::Submitted));
    assert_eq!(st.advance(FrameSignal::Presented), Ok(FramePhase::Presented));
    assert_eq!(st.advance(FrameSignal::Finished), Ok(FramePhase::Idle));
    assert!(!st.is_stale());
}

#[test]
fn failed_acquire_drops_frame_and_rebuilds_first() {
    let mut st = started();
    st.handle(WindowSignal::RedrawRequested);
    assert_eq!(st.advance(FrameSignal::AcquireFailed), Ok(FramePhase::Idle));
    assert!(st.is_stale());
    match st.handle(WindowSignal::RedrawRequested) {
        Command::Draw(plan) => {
            assert!(plan.reconfigure_first);
            assert_eq!(plan.target, Extent { width: 1280, height: 720 });
        }
        other => panic!("expected a frame, got {:?}", other),
    }
    assert!(!st.is_stale());
}

#[test]
fn resize_clears_stale_surface() {
    let mut st = started();
    st.handle(WindowSignal::RedrawRequested);
    st.advance(FrameSignal::AcquireFailed).unwrap();
    st.resize(300, 200).unwrap();
    assert!(!st.is_stale());
}

#[test]
fn out_of_order_frame_signal_is_refused() {
    let mut st = started();
    assert_eq!(st.advance(FrameSignal::Acquired), Err(FrameError::OutOfOrder));
    assert_eq!(st.phase(), FramePhase::Idle);
    st.handle(WindowSignal::RedrawRequested);
    assert_eq!(st.advance(FrameSignal::Presented), Err(FrameError::OutOfOrder));
    assert_eq!(st.phase(), FramePhase::Acquiring);
}
