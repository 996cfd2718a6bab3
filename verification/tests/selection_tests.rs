use polaroid::action::Action;
use polaroid::event::Event;
use polaroid::event::UserEvent;
use polaroid::overlay::CaptureKind;
use polaroid::overlay::SelectorWindow;
use polaroid::region::Bound2;
use polaroid::selector::RegionSelector;
use polaroid::window::AppWindow;
use polaroid::window::Target;

fn same_region(a: Bound2, b: Bound2) -> bool {
    a.min == b.min && a.max == b.max
}

#[test]
fn new_selector_is_hidden_and_empty() {
    let s = RegionSelector::new();
    assert!(!s.is_visible());
    assert!(s.bound.empty());
    assert_eq!(s.bound.min, (0, 0));
    assert_eq!(s.bound.max, (0, 0));
    assert_eq!(s.first, (0, 0));
}

#[test]
fn reset_goes_back_to_selecting_nothing() {
    let mut s = RegionSelector::new();
    s.begin((40, 50));
    s.update((90, 10));
    assert!(!s.bound.empty());
    s.reset();
    assert!(!s.is_visible());
    assert!(s.bound.empty());
    assert_eq!(s.bound.min, (0, 0));
    assert_eq!(s.bound.max, (0, 0));
    assert_eq!(s.first, (0, 0));
}

#[test]
fn begin_anchors_and_shows() {
    let mut s = RegionSelector::new();
    s.begin((12, 34));
    assert!(s.is_visible());
    assert_eq!(s.first, (12, 34));
    assert_eq!(s.bound.min, (12, 34));
    assert_eq!(s.bound.max, (12, 34));
    assert!(s.bound.empty());
}

#[test]
fn update_follows_the_pointer_in_any_direction() {
    let mut s = RegionSelector::new();
    s.begin((100, 100));
    s.update((150, 40));
    assert_eq!(s.bound.min, (100, 40));
    assert_eq!(s.bound.max, (150, 100));
    s.update((20, 130));
    assert_eq!(s.bound.min, (20, 100));
    assert_eq!(s.bound.max, (100, 130));
    assert_eq!(s.first, (100, 100));
}

#[test]
fn update_of_a_hidden_selector_changes_nothing() {
    let mut s = RegionSelector::new();
    s.set_first((5, 5));
    s.update((50, 50));
    assert_eq!(s.bound.min, (5, 5));
    assert_eq!(s.bound.max, (5, 5));
    assert!(!s.is_visible());
}

#[test]
fn set_second_spans_a_shown_selection_only() {
    let mut s = RegionSelector::new();
    s.set_first((5, 5));
    s.set_second((1, 9));
    assert_eq!(s.bound.min, (5, 5));
    assert_eq!(s.bound.max, (5, 5));
    s.set_visible(true);
    s.set_second((1, 9));
    assert_eq!(s.bound.min, (1, 5));
    assert_eq!(s.bound.max, (5, 9));
    assert_eq!(s.first, (5, 5));
}

#[test]
fn end_returns_the_region_and_keeps_it_shown() {
    let mut s = RegionSelector::new();
    s.begin((0, 0));
    s.update((8, 6));
    let r = s.end();
    assert_eq!(r.rect(), (0, 0, 8, 6));
    assert!(s.is_visible());
    s.dismiss();
    assert!(!s.is_visible());
    assert_eq!(s.bound.rect(), (0, 0, 8, 6));
}

#[test]
fn release_of_a_drag_asks_for_the_pending_capture() {
    let id = Target::Window(AppWindow::GifSelectorCanvasWindow);
    let mut w = SelectorWindow::new(id);
    let invoke = UserEvent::new(Target::Action, id, Event::InvokeRegionSelector(Action::GifCapture));
    w.on_user_event(&invoke);
    assert!(w.shown);
    assert_eq!(w.invoke_type, CaptureKind::Gif);
    w.on_mouse_press_event((10, 10));
    w.on_mouse_move_event((30, 25));
    let sent = w.on_mouse_release_event().unwrap();
    assert_eq!(sent.sender, id);
    assert_eq!(sent.receiver, Target::Action);
    match sent.event {
        Event::DoAction(Action::DoGifCapture(r)) => {
            assert!(same_region(r, Bound2::new((10, 10), (30, 25))))
        }
        other => panic!("unexpected event {:?}", other),
    }
}

#[test]
fn release_with_a_still_image_pending_asks_for_an_image() {
    let id = Target::Window(AppWindow::RegionSelectorCanvasWindow);
    let mut w = SelectorWindow::new(id);
    w.on_user_event(&UserEvent::new(Target::Action, id, Event::InvokeRegionSelector(Action::ImageCapture)));
    w.on_mouse_press_event((4, 4));
    w.on_mouse_move_event((0, 0));
    match w.on_mouse_release_event().unwrap().event {
        Event::DoAction(Action::DoImageCapture(r)) => assert_eq!(r.rect(), (0, 0, 4, 4)),
        other => panic!("unexpected event {:?}", other),
    }
}

#[test]
fn release_without_area_sends_nothing() {
    let id = Target::Window(AppWindow::GifSelectorCanvasWindow);
    let mut w = SelectorWindow::new(id);
    assert!(w.on_mouse_release_event().is_none());
    w.on_mouse_press_event((7, 7));
    assert!(w.on_mouse_release_event().is_none());
    w.on_mouse_move_event((7, 90));
    assert!(w.on_mouse_release_event().is_none());
    w.on_mouse_move_event((90, 7));
    assert!(w.on_mouse_release_event().is_none());
    w.on_mouse_move_event((8, 8));
    assert!(w.on_mouse_release_event().is_some());
}

#[test]
fn no_drag_ever_asks_for_an_empty_region() {
    let id = Target::Window(AppWindow::GifSelectorCanvasWindow);
    let mut seed: u64 = 0x2545_f491_4f6c_dd1d;
    let mut sent = 0;
    for _ in 0..2000 {
        let mut w = SelectorWindow::new(id);
        let mut next = || {
            seed ^= seed << 13;
            seed ^= seed >> 7;
            seed ^= seed << 17;
            (seed % 7) as i32 - 3
        };
        w.on_mouse_press_event((next(), next()));
        for _ in 0..3 {
            w.on_mouse_move_event((next(), next()));
        }
        if let Some(e) = w.on_mouse_release_event() {
            sent += 1;
            match e.event {
                Event::DoAction(Action::DoGifCapture(r)) | Event::DoAction(Action::DoImageCapture(r)) => {
                    assert!(!r.empty());
                    assert!(r.get_width() > 0 && r.get_height() > 0);
                }
                other => panic!("unexpected event {:?}", other),
            }
        }
    }
    assert!(sent > 0);
}

#[test]
fn losing_focus_resets_the_selection() {
    let mut w = SelectorWindow::new(Target::Window(AppWindow::GifSelectorCanvasWindow));
    w.on_mouse_press_event((0, 0));
    w.on_mouse_move_event((5, 5));
    w.on_focus_event(true);
    assert!(w.region_selector.is_visible());
    assert_eq!(w.region_selector.bound.rect(), (0, 0, 5, 5));
    assert!(w.on_mouse_release_event().is_some());
    w.on_focus_event(false);
    assert!(!w.region_selector.is_visible());
    assert!(w.region_selector.bound.empty());
    assert_eq!(w.region_selector.bound.rect(), (0, 0, 0, 0));
    assert!(w.on_mouse_release_event().is_none());
    w.on_mouse_move_event((9, 9));
    assert!(w.on_mouse_release_event().is_none());
}

#[test]
fn going_off_screen_resets_the_selection() {
    let mut w = SelectorWindow::new(Target::Window(AppWindow::GifSelectorCanvasWindow));
    w.set_visible(true);
    w.on_mouse_press_event((0, 0));
    w.on_mouse_move_event((5, 5));
    w.set_visible(true);
    assert_eq!(w.region_selector.bound.rect(), (0, 0, 5, 5));
    w.set_visible(false);
    assert!(!w.shown);
    assert!(!w.region_selector.is_visible());
    assert!(w.region_selector.bound.empty());
    assert!(w.on_mouse_release_event().is_none());
}

#[test]
fn a_command_message_leaves_the_overlay_alone() {
    let id = Target::Window(AppWindow::GifSelectorCanvasWindow);
    let mut w = SelectorWindow::new(id);
    w.on_user_event(&UserEvent::build_action_event(Target::Action, id, Action::Suspend));
    assert!(!w.shown);
    assert_eq!(w.invoke_type, CaptureKind::Image);
    w.on_user_event(&UserEvent::new(Target::Action, id, Event::InvokeRegionSelector(Action::Suspend)));
    assert!(w.shown);
    assert_eq!(w.invoke_type, CaptureKind::Image);
    w.set_visible(false);
    assert!(!w.shown);
}
