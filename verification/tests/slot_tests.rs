use frame_handoff::frame::{Dimensions, Frame};
use frame_handoff::slot::{FrameSlot, SlotError};
use std::sync::{Arc, Mutex, TryLockError};

fn solid(width: u32, height: u32, value: u8) -> Frame {
    let len = (width as usize) * (height as usize) * 4;
    Frame::from_pixels(width, height, vec![value; len]).expect("length matches")
}

fn checksum(frame: &Frame) -> u64 {
    let mut sum: u64 = 0;
    for (i, b) in frame.pixels().expect("pixel frame").iter().enumerate() {
        sum = sum.wrapping_mul(31).wrapping_add((*b as u64) ^ (i as u64));
    }
    sum
}

#[test]
fn new_slot_is_empty() {
    let slot = FrameSlot::new();
    assert_eq!(slot.required_size(), None);
    assert!(slot.latest().is_none());
    assert!(FrameSlot::try_take_latest(Some(&slot)).is_none());
}

#[test]
fn sized_slot_is_empty_and_knows_its_size() {
    let slot = FrameSlot::with_size(320, 240);
    assert_eq!(slot.required_size(), Some(Dimensions { width: 320, height: 240 }));
    assert!(slot.latest().is_none());
}

#[test]
fn first_frame_decides_size_in_lazy_slot() {
    let mut slot = FrameSlot::new();
    assert_eq!(slot.publish(solid(4, 3, 1)), Ok(()));
    let seen = FrameSlot::try_take_latest(Some(&slot)).expect("a frame was published");
    assert_eq!(seen.dimensions(), Dimensions { width: 4, height: 3 });
    assert_eq!(slot.publish(solid(8, 6, 2)), Ok(()));
    let seen = FrameSlot::try_take_latest(Some(&slot)).expect("a frame was published");
    assert_eq!(seen.dimensions(), Dimensions { width: 8, height: 6 });
}

#[test]
fn last_writer_wins() {
    let mut slot = FrameSlot::new();
    for value in 1u8..=5 {
        assert_eq!(slot.publish(solid(2, 2, value)), Ok(()));
    }
    let seen = FrameSlot::try_take_latest(Some(&slot)).expect("five frames were published");
    assert_eq!(*seen, solid(2, 2, 5));
}

#[test]
fn take_never_returns_an_older_frame() {
    let mut slot = FrameSlot::new();
    assert!(FrameSlot::try_take_latest(Some(&slot)).is_none());
    slot.publish(solid(2, 2, 1)).unwrap();
    assert_eq!(FrameSlot::try_take_latest(Some(&slot)).as_deref(), Some(&solid(2, 2, 1)));
    slot.publish(solid(2, 2, 2)).unwrap();
    slot.publish(solid(2, 2, 3)).unwrap();
    assert_eq!(FrameSlot::try_take_latest(Some(&slot)).as_deref(), Some(&solid(2, 2, 3)));
    assert!(FrameSlot::try_take_latest(None).is_none());
    slot.publish(solid(2, 2, 4)).unwrap();
    assert_eq!(FrameSlot::try_take_latest(Some(&slot)).as_deref(), Some(&solid(2, 2, 4)));
}

#[test]
fn take_twice_without_publish_returns_the_same_frame() {
    let mut slot = FrameSlot::new();
    slot.publish(solid(3, 1, 42)).unwrap();
    let first = FrameSlot::try_take_latest(Some(&slot));
    let second = FrameSlot::try_take_latest(Some(&slot));
    assert_eq!(first, second);
    assert_eq!(first.as_deref(), Some(&solid(3, 1, 42)));
    // The frame is handed out, not removed.
    assert_eq!(slot.latest(), Some(&solid(3, 1, 42)));
}

#[test]
fn take_copies_the_handle_not_the_pixels() {
    let mut slot = FrameSlot::new();
    slot.publish(solid(64, 64, 1)).unwrap();
    let first = FrameSlot::try_take_latest(Some(&slot)).expect("a frame was published");
    let second = FrameSlot::try_take_latest(Some(&slot)).expect("a frame was published");
    assert!(Arc::ptr_eq(&first, &second));
    assert_eq!(Arc::strong_count(&first), 3);
    // A newer frame replaces the slot's handle; the ones handed out stay good.
    slot.publish(solid(64, 64, 2)).unwrap();
    assert_eq!(Arc::strong_count(&first), 2);
    assert_eq!(*first, solid(64, 64, 1));
    let third = FrameSlot::try_take_latest(Some(&slot)).expect("a frame was published");
    assert!(!Arc::ptr_eq(&first, &third));
    assert_eq!(*third, solid(64, 64, 2));
}

#[test]
fn contended_take_returns_nothing_and_changes_nothing() {
    let mut slot = FrameSlot::new();
    slot.publish(solid(1, 1, 7)).unwrap();
    assert!(FrameSlot::try_take_latest(None).is_none());
    assert_eq!(slot.latest(), Some(&solid(1, 1, 7)));
}

#[test]
fn sized_slot_refuses_other_sizes() {
    let mut slot = FrameSlot::with_size(2, 2);
    assert_eq!(
        slot.publish(solid(2, 3, 1)),
        Err(SlotError::SizeMismatch {
            expected: Dimensions { width: 2, height: 2 },
            actual: Dimensions { width: 2, height: 3 },
        })
    );
    assert!(slot.latest().is_none());
    assert_eq!(slot.publish(solid(2, 2, 5)), Ok(()));
    assert_eq!(
        slot.publish(solid(3, 2, 6)),
        Err(SlotError::SizeMismatch {
            expected: Dimensions { width: 2, height: 2 },
            actual: Dimensions { width: 3, height: 2 },
        })
    );
    assert_eq!(slot.latest(), Some(&solid(2, 2, 5)));
}

#[test]
fn sized_slot_takes_texture_frames_of_its_size() {
    let mut slot = FrameSlot::with_size(320, 240);
    assert_eq!(slot.publish(Frame::from_texture(320, 240, 9)), Ok(()));
    assert_eq!(slot.latest().and_then(|f| f.texture()), Some(9));
    assert!(slot.publish(Frame::from_texture(640, 480, 10)).is_err());
    assert_eq!(slot.latest().and_then(|f| f.texture()), Some(9));
}

#[test]
fn publish_waits_for_reader_then_succeeds() {
    let shared = Arc::new(Mutex::new(FrameSlot::new()));
    shared.lock().unwrap().publish(solid(16, 16, 3)).unwrap();

    // The render side is inside the guard and holds the frame.
    let reader = shared.try_lock().expect("nobody else holds the guard");
    let held = FrameSlot::try_take_latest(Some(&*reader)).expect("a frame was published");
    let before = checksum(&held);

    // The decode side arrives with a new frame: it cannot get in yet.
    let writer_side = shared.clone();
    let incoming = solid(16, 16, 200);
    let incoming_sum = checksum(&incoming);
    assert!(matches!(writer_side.try_lock(), Err(TryLockError::WouldBlock)));

    // The frame under the reader is untouched while the writer waits.
    assert_eq!(checksum(&held), before);
    assert_eq!(*held, solid(16, 16, 3));
    drop(reader);

    // The read is over: the publish goes through.
    assert_eq!(writer_side.lock().unwrap().publish(incoming), Ok(()));
    // What the reader took is still the frame it took.
    assert_eq!(checksum(&held), before);
    assert_eq!(*held, solid(16, 16, 3));

    let reader = shared.try_lock().expect("the writer has left");
    let seen = FrameSlot::try_take_latest(Some(&*reader)).expect("a frame was published");
    assert_eq!(checksum(&seen), incoming_sum);
    assert_eq!(*seen, solid(16, 16, 200));
}

#[test]
fn render_side_skips_the_tick_while_the_writer_is_inside() {
    let shared = Mutex::new(FrameSlot::new());
    let mut writer = shared.lock().unwrap();
    let attempt = shared.try_lock();
    assert!(attempt.is_err());
    assert!(FrameSlot::try_take_latest(attempt.ok().as_deref()).is_none());
    writer.publish(solid(2, 2, 9)).unwrap();
    drop(writer);
    let attempt = shared.try_lock();
    assert_eq!(
        FrameSlot::try_take_latest(attempt.ok().as_deref()).as_deref(),
        Some(&solid(2, 2, 9))
    );
}
