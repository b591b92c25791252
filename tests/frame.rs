use vm::frame::{FramePace, FrameTimer};

#[test]
fn frame_waits_until_interval() {
    let mut t = FrameTimer::new(16);
    t.prev = 100;
    t.last_second = 100;
    assert_eq!(t.frame_cap(110), FramePace::Wait(6));
    assert_eq!(t.ticks, 110);
    assert_eq!(t.prev, 100);
    assert_eq!(t.frame_cap(116), FramePace::Render);
    assert_eq!(t.prev, 116);
    assert_eq!(t.fps, 1);
    assert_eq!(t.elapsed_ms, 16);
}

#[test]
fn frame_counter_rolls_over_each_second() {
    let mut t = FrameTimer::new(4);
    assert_eq!(t.frame_cap(500), FramePace::Render);
    assert_eq!(t.frame_cap(504), FramePace::Render);
    assert_eq!(t.fps, 2);
    assert_eq!(t.frame_cap(1001), FramePace::Render);
    assert_eq!(t.last_fps, 3);
    assert_eq!(t.fps, 0);
    assert_eq!(t.last_second, 1001);
}

#[test]
fn frame_clock_wraps() {
    let mut t = FrameTimer::new(10);
    t.prev = u32::MAX - 4;
    t.last_second = u32::MAX - 4;
    assert_eq!(t.frame_cap(2), FramePace::Wait(3));
    assert_eq!(t.frame_cap(5), FramePace::Render);
    assert_eq!(t.elapsed_ms, 10);
}
