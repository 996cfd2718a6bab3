use image::AnimationDecoder;
use polaroid::capture::CaptureDevice;
use polaroid::consumer::Consumer;
use polaroid::action::Action;
use polaroid::dispatch::route;
use polaroid::dispatch::Route;
use polaroid::encoder::artifact;
use polaroid::encoder::Encoded;
use polaroid::event::Event;
use polaroid::window::Target;
use polaroid::error::CaptureError;
use polaroid::frame::Frame;
use polaroid::producer::check_fps;
use polaroid::producer::Producer;
use polaroid::producer::ProducerStep;
use polaroid::region::Bound2;

fn solid(width: u32, height: u32, rgba: [u8; 4]) -> Frame {
    let mut pixels = Vec::new();
    for _ in 0..(width * height) {
        pixels.extend_from_slice(&rgba);
    }
    Frame::new(width, height, pixels).unwrap()
}

fn region(width: i32, height: i32) -> Bound2 {
    Bound2::new((10, 20), (10 + width, 20 + height))
}

fn decode(bytes: &[u8]) -> Vec<image::RgbaImage> {
    let decoder = image::codecs::gif::GifDecoder::new(std::io::Cursor::new(bytes.to_vec())).unwrap();
    decoder.into_frames().collect_frames().unwrap().into_iter().map(|f| f.into_buffer()).collect()
}

fn majority(img: &image::RgbaImage) -> [u8; 4] {
    let mut counts: Vec<([u8; 4], usize)> = Vec::new();
    for p in img.pixels() {
        match counts.iter_mut().find(|c| c.0 == p.0) {
            Some(c) => c.1 += 1,
            None => counts.push((p.0, 1)),
        }
    }
    counts.into_iter().max_by_key(|c| c.1).unwrap().0
}

/// Runs the sampling loop as a task would: polls, grabs from `source`,
/// hands each frame to the consumer, and raises the stop flag once
/// `stop_after` frames went out.
fn record(producer: &mut Producer, consumer: &mut Consumer, source: &[Frame], stop_after: Option<usize>) -> usize {
    let mut sent = 0;
    let mut now: u64 = 0;
    loop {
        let cancelled = stop_after.map_or(false, |n| sent >= n);
        match producer.poll(now, cancelled) {
            ProducerStep::Finish => return sent,
            ProducerStep::Grab(_) => {
                consumer.accept(source[sent % source.len()].clone()).unwrap();
                sent += 1;
                now += producer.frame_sent();
            }
        }
    }
}

#[test]
fn frame_rate_must_lie_within_one_and_sixty() {
    assert_eq!(check_fps(0), Err(CaptureError::InvalidFps));
    assert_eq!(check_fps(61), Err(CaptureError::InvalidFps));
    assert_eq!(check_fps(u32::MAX), Err(CaptureError::InvalidFps));
    assert_eq!(check_fps(60), Ok(()));
    assert_eq!(check_fps(1), Ok(()));
}

#[test]
fn a_session_with_a_bad_frame_rate_is_not_started() {
    let mut d = CaptureDevice::new();
    assert!(matches!(d.capture_gif_async(region(4, 4), 0, 2000), Err(CaptureError::InvalidFps)));
    assert!(matches!(d.capture_gif_async(region(4, 4), 61, 2000), Err(CaptureError::InvalidFps)));
    assert_eq!(d, CaptureDevice::new());
    assert!(d.capture_gif_async(region(4, 4), 60, 2000).is_ok());
    let mut d = CaptureDevice::new();
    assert!(d.capture_gif_async(region(4, 4), 1, 2000).is_ok());
    assert!(d.recording);
}

#[test]
fn ten_frames_a_second_for_two_seconds_is_twenty_frames() {
    let p = Producer::new(region(4, 4), 10, 2000).unwrap();
    assert_eq!(p.budget, 20);
    assert_eq!(p.interval_ns, 100_000_000);
    assert_eq!(p.deadline_ns, 2_000_000_000);
    assert_eq!(p.emitted, 0);
}

#[test]
fn the_budget_rounds_toward_zero() {
    assert_eq!(Producer::new(region(4, 4), 10, 2500).unwrap().budget, 25);
    assert_eq!(Producer::new(region(4, 4), 3, 1999).unwrap().budget, 5);
    assert_eq!(Producer::new(region(4, 4), 1, 999).unwrap().budget, 0);
    assert_eq!(Producer::new(region(4, 4), 60, u32::MAX).unwrap().budget, 257_698_037);
    assert_eq!(Producer::new(region(4, 4), 7, 1000).unwrap().interval_ns, 142_857_142);
}

#[test]
fn the_producer_stops_at_the_budget() {
    let mut p = Producer::new(region(2, 2), 10, 2000).unwrap();
    let mut c = Consumer::new(region(2, 2));
    let sent = record(&mut p, &mut c, &[solid(2, 2, [1, 2, 3, 255])], None);
    assert_eq!(sent, 20);
    assert_eq!(p.emitted, 20);
    assert_eq!(c.received(), 20);
    assert!(matches!(p.poll(0, false), ProducerStep::Finish));
}

#[test]
fn the_producer_stops_at_the_deadline() {
    let mut p = Producer::new(region(2, 2), 10, 2000).unwrap();
    assert!(matches!(p.poll(1_999_999_999, false), ProducerStep::Grab(_)));
    assert!(matches!(p.poll(2_000_000_000, false), ProducerStep::Finish));
    p.frame_sent();
    assert!(matches!(p.poll(u64::MAX, false), ProducerStep::Finish));
    assert_eq!(p.emitted, 1);
}

#[test]
fn the_producer_grabs_the_session_region() {
    let p = Producer::new(region(6, 3), 15, 30_000).unwrap();
    match p.poll(0, false) {
        ProducerStep::Grab(r) => assert_eq!(r.rect(), (10, 20, 6, 3)),
        ProducerStep::Finish => panic!("a fresh recording has frames to take"),
    }
}

#[test]
fn a_failed_grab_ends_sampling_and_keeps_what_was_sent() {
    let mut p = Producer::new(region(2, 2), 10, 2000).unwrap();
    p.frame_sent();
    p.frame_sent();
    p.grab_failed();
    assert!(matches!(p.poll(0, false), ProducerStep::Finish));
    assert_eq!(p.emitted, 2);
}

#[test]
fn cancelling_after_n_frames_delivers_exactly_n() {
    for n in [0usize, 1, 7, 20] {
        let frames = [solid(2, 2, [9, 9, 9, 255]), solid(2, 2, [200, 0, 0, 255])];
        let mut p = Producer::new(region(2, 2), 10, 2000).unwrap();
        let mut c = Consumer::new(region(2, 2));
        let sent = record(&mut p, &mut c, &frames, Some(n));
        assert_eq!(sent, n);
        assert_eq!(c.received(), n);
        let bytes = c.finish().unwrap();
        if n == 0 {
            assert!(bytes.is_empty());
        } else {
            let decoded = decode(&bytes);
            assert_eq!(decoded.len(), n);
            for (i, img) in decoded.iter().enumerate() {
                let want = if i % 2 == 0 { [9, 9, 9, 255] } else { [200, 0, 0, 255] };
                assert_eq!(majority(img), want);
            }
        }
    }
}

#[test]
fn solid_frames_come_back_in_order() {
    let colours = [[255, 0, 0, 255], [0, 255, 0, 255], [0, 0, 255, 255], [255, 255, 255, 255], [0, 0, 0, 255]];
    let mut c = Consumer::new(region(8, 5));
    for rgba in colours {
        assert_eq!(c.accept(solid(8, 5, rgba)), Ok(()));
    }
    let bytes = c.finish().unwrap();
    assert_eq!(&bytes[0..6], b"GIF89a");
    assert_eq!(*bytes.last().unwrap(), 0x3b);
    let decoded = decode(&bytes);
    assert_eq!(decoded.len(), colours.len());
    for (img, rgba) in decoded.iter().zip(colours) {
        assert_eq!(img.dimensions(), (8, 5));
        assert_eq!(majority(img), rgba);
    }
}

#[test]
fn encoding_differs_with_the_frames() {
    let mut a = Consumer::new(region(3, 3));
    a.accept(solid(3, 3, [10, 20, 30, 255])).unwrap();
    let mut b = Consumer::new(region(3, 3));
    b.accept(solid(3, 3, [10, 20, 30, 255])).unwrap();
    b.accept(solid(3, 3, [10, 20, 30, 255])).unwrap();
    let a = a.finish().unwrap();
    let b = b.finish().unwrap();
    assert!(b.len() > a.len());
    assert_ne!(a, vec![10, 20, 30, 255]);
}

#[test]
fn a_frame_of_the_wrong_size_is_refused() {
    let mut c = Consumer::new(region(3, 3));
    assert_eq!(c.accept(solid(3, 4, [1, 1, 1, 255])), Err(CaptureError::CaptureFailure));
    assert_eq!(c.accept(solid(4, 3, [1, 1, 1, 255])), Err(CaptureError::CaptureFailure));
    assert_eq!(c.received(), 0);
    assert_eq!(c.accept(solid(3, 3, [1, 1, 1, 255])), Ok(()));
    assert_eq!(c.received(), 1);
}

#[test]
fn a_recording_of_an_empty_region_takes_no_frame() {
    let mut c = Consumer::new(Bound2::default());
    assert_eq!(c.accept(Frame::new(0, 0, Vec::new()).unwrap()), Err(CaptureError::CaptureFailure));
    assert_eq!(c.finish().unwrap(), Vec::<u8>::new());
}

#[test]
fn a_frame_needs_four_bytes_a_pixel() {
    assert!(Frame::new(2, 2, vec![0; 16]).is_some());
    assert!(Frame::new(2, 2, vec![0; 15]).is_none());
    assert!(Frame::new(2, 2, vec![0; 17]).is_none());
    assert!(Frame::new(0, 9, Vec::new()).is_some());
    assert!(Frame::new(u32::MAX, u32::MAX, vec![0; 4]).is_none());
    let f = Frame::new(1, 2, vec![1, 2, 3, 4, 5, 6, 7, 8]).unwrap();
    assert_eq!((f.width(), f.height()), (1, 2));
    assert_eq!(f.pixels(), &vec![1, 2, 3, 4, 5, 6, 7, 8]);
    assert_eq!(f.clone().pixels(), f.pixels());
}

#[test]
fn each_way_an_encoding_ends_has_its_result() {
    assert_eq!(artifact(Encoded::Done(vec![1, 2, 3])), Ok(vec![1, 2, 3]));
    assert_eq!(artifact(Encoded::TooLarge), Err(CaptureError::EncodeFailure));
    assert_eq!(artifact(Encoded::OutOfMemory), Err(CaptureError::OutOfMemory));
    assert_eq!(artifact(Encoded::Refused), Err(CaptureError::EncodeFailure));
}

#[test]
fn frames_at_the_limit_of_the_format_are_encoded() {
    let mut c = Consumer::new(region(65_535, 1));
    c.accept(solid(65_535, 1, [5, 5, 5, 255])).unwrap();
    c.accept(solid(65_535, 1, [6, 6, 6, 255])).unwrap();
    let decoded = decode(&c.finish().unwrap());
    assert_eq!(decoded.len(), 2);
    assert_eq!(decoded[0].dimensions(), (65_535, 1));
    let mut c = Consumer::new(region(1, 65_536));
    c.accept(solid(1, 65_536, [5, 5, 5, 255])).unwrap();
    assert_eq!(c.finish(), Err(CaptureError::EncodeFailure));
}

#[test]
fn a_frame_too_large_for_the_format_fails_to_encode() {
    let mut c = Consumer::new(region(70_000, 1));
    c.accept(solid(70_000, 1, [5, 5, 5, 255])).unwrap();
    assert_eq!(c.finish(), Err(CaptureError::EncodeFailure));
}

#[test]
fn a_second_session_is_refused_and_the_first_goes_on() {
    let mut d = CaptureDevice::new();
    let first = d.capture_gif_async(region(2, 2), 10, 2000).unwrap();
    let before = d;
    assert!(matches!(d.capture_gif_async(region(9, 9), 30, 500), Err(CaptureError::DoubleSessionStart)));
    assert_eq!(d, before);
    assert!(d.recording);

    let mut producer = first.producer;
    let mut consumer = first.consumer;
    let frames = [solid(2, 2, [40, 80, 120, 255])];
    assert_eq!(record(&mut producer, &mut consumer, &frames, Some(3)), 3);
    let kept = d.complete(consumer.finish()).keep.unwrap();
    assert_eq!(decode(&kept).len(), 3);
    assert!(!d.recording);
    assert!(d.capture_gif_async(region(9, 9), 30, 500).is_ok());
}

#[test]
fn a_bad_frame_rate_is_reported_before_a_running_session() {
    let mut d = CaptureDevice::new();
    d.capture_gif_async(region(2, 2), 10, 2000).unwrap();
    assert!(matches!(d.capture_gif_async(region(2, 2), 0, 2000), Err(CaptureError::InvalidFps)));
}

#[test]
fn starting_lowers_the_stop_flag() {
    let mut d = CaptureDevice::new();
    d.stop_capture();
    assert!(d.stop_requested());
    d.capture_gif_async(region(2, 2), 10, 2000).unwrap();
    assert!(!d.stop_requested());
    d.stop_capture();
    assert!(d.stop_requested());
    assert!(d.recording);
}

#[test]
fn a_discarded_recording_completes_without_bytes() {
    let mut d = CaptureDevice::new();
    d.capture_gif_async(region(2, 2), 10, 2000).unwrap();
    d.stop_and_discard();
    assert!(d.stop_requested());
    assert_eq!(d.complete(Ok(vec![1, 2, 3])).keep, None);
    assert!(!d.recording);
    assert!(!d.discard);

    d.capture_gif_async(region(2, 2), 10, 2000).unwrap();
    d.stop_capture();
    assert_eq!(d.complete(Ok(vec![1, 2, 3])).keep, Some(vec![1, 2, 3]));
    d.capture_gif_async(region(2, 2), 10, 2000).unwrap();
    assert_eq!(d.complete(Err(CaptureError::EncodeFailure)).keep, None);
}

#[test]
fn every_completion_asks_to_suspend() {
    for outcome in [Ok(vec![1u8, 2, 3]), Err(CaptureError::EncodeFailure), Err(CaptureError::OutOfMemory)] {
        for discard in [false, true] {
            let mut d = CaptureDevice::new();
            d.capture_gif_async(region(2, 2), 10, 2000).unwrap();
            if discard {
                d.stop_and_discard();
            }
            let done = d.complete(outcome.clone());
            assert_eq!(done.request.sender, Target::Action);
            assert_eq!(done.request.receiver, Target::Action);
            assert!(matches!(done.request.event, Event::DoAction(Action::Suspend)));
            assert!(matches!(route(&done.request), Route::Execute(Action::Suspend)));
        }
    }
}

#[test]
fn discarding_without_a_recording_marks_nothing() {
    let mut d = CaptureDevice::new();
    d.stop_and_discard();
    assert!(d.stop_requested());
    assert!(!d.discard);
}
