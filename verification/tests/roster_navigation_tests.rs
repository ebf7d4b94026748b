use roster_manager::scene::{InputEvent, Key, MouseHits, RosterManager, SceneTarget, SLIDE_DUR_NANOS};
use roster_manager::Position;

const MS: u128 = 1_000_000;

fn demo_names() -> Vec<String> {
    ["Ember Wolf", "Volt Scorpion", "Stone Golem", "Frost Owl", "Moss Toad", "Ash Drake"]
        .iter()
        .map(|s| s.to_string())
        .collect()
}

fn scene() -> RosterManager<String> {
    RosterManager::new(demo_names())
}

fn key(k: Key) -> InputEvent {
    InputEvent::Key(k)
}

fn no_hits() -> MouseHits {
    MouseHits { left: false, right: false, home: false, dot: false, edit: false, hatchery: false, moved_to: None }
}

/// A completed click as the buttons report it: a move onto the button, a
/// press, then the release that completes the click on the button(s) `hit`.
fn click(scene: &mut RosterManager<String>, at: Position, hit: MouseHits) -> Vec<Option<SceneTarget>> {
    let mut out = Vec::new();
    out.push(scene.handle_input(InputEvent::Mouse(MouseHits { moved_to: Some(at), ..no_hits() })).transition);
    out.push(scene.handle_input(InputEvent::Mouse(no_hits())).transition);
    out.push(scene.handle_input(InputEvent::Mouse(hit)).transition);
    out
}

// --- arrow keys ---------------------------------------------------------

#[test]
fn roster_manager_right_arrow_wraps_from_last_to_zero() {
    let mut scene = scene();
    scene.set_current_index(5);
    let e = scene.handle_input(key(Key::Right));
    assert_eq!(scene.current_index(), 0, "right arrow at index 5 must wrap to 0");
    assert!(e.transition.is_none(), "arrow keys must not produce a Transition");
}

#[test]
fn arrow_key_navigation_tests_right_arrow_wraps_from_last_to_zero() {
    let mut scene = scene();
    scene.set_current_index(5);
    let e = scene.handle_input(key(Key::Right));
    assert_eq!(scene.current_index(), 0, "right arrow at index 5 must wrap to 0");
    assert!(e.transition.is_none(), "arrow keys must not produce a Transition");
}

#[test]
fn roster_manager_left_arrow_wraps_from_zero_to_last() {
    let mut scene = scene();
    scene.set_current_index(0);
    let e = scene.handle_input(key(Key::Left));
    assert_eq!(scene.current_index(), 5, "left arrow at index 0 must wrap to 5");
    assert!(e.transition.is_none(), "arrow keys must not produce a Transition");
}

#[test]
fn arrow_key_navigation_tests_left_arrow_wraps_from_zero_to_last() {
    let mut scene = scene();
    scene.set_current_index(0);
    let e = scene.handle_input(key(Key::Left));
    assert_eq!(scene.current_index(), 5, "left arrow at index 0 must wrap to 5");
    assert!(e.transition.is_none(), "arrow keys must not produce a Transition");
}

#[test]
fn roster_manager_right_arrow_advances_without_wrap() {
    let mut scene = scene();
    scene.set_current_index(2);
    let e = scene.handle_input(key(Key::Right));
    assert_eq!(scene.current_index(), 3, "right arrow at index 2 must advance to 3");
    assert!(e.transition.is_none(), "arrow keys must not produce a Transition");
}

#[test]
fn arrow_key_navigation_tests_right_arrow_advances_without_wrap() {
    let mut scene = scene();
    scene.set_current_index(2);
    let e = scene.handle_input(key(Key::Right));
    assert_eq!(scene.current_index(), 3, "right arrow at index 2 must advance to 3");
    assert!(e.transition.is_none(), "arrow keys must not produce a Transition");
}

#[test]
fn roster_manager_unrelated_key_leaves_index_unchanged() {
    let mut scene = scene();
    scene.set_current_index(2);
    let e = scene.handle_input(key(Key::Other));
    assert_eq!(scene.current_index(), 2, "unrelated key must not change current_index");
    assert!(e.transition.is_none(), "unrelated key must not produce a Transition");
}

#[test]
fn arrow_key_navigation_tests_unrelated_key_leaves_index_unchanged() {
    let mut scene = scene();
    scene.set_current_index(2);
    let e = scene.handle_input(key(Key::Other));
    assert_eq!(scene.current_index(), 2, "unrelated key must not change current_index");
    assert!(e.transition.is_none(), "unrelated key must not produce a Transition");
}

// --- slides -------------------------------------------------------------

#[test]
fn roster_manager_nav_ignored_during_active_slide() {
    let mut scene = scene();
    scene.handle_input(key(Key::Right));
    assert_eq!(scene.current_index(), 1, "first nav must update current_index immediately");
    scene.update(50 * MS);
    scene.handle_input(key(Key::Right));
    assert_eq!(
        scene.current_index(),
        1,
        "a nav fired while a slide transition is active must be ignored until it settles"
    );
}

#[test]
fn slide_transition_tests_nav_ignored_during_active_slide() {
    let mut scene = scene();
    scene.handle_input(key(Key::Right));
    assert_eq!(scene.current_index(), 1, "first nav must update current_index immediately");
    scene.update(50 * MS);
    scene.handle_input(key(Key::Right));
    assert_eq!(
        scene.current_index(),
        1,
        "a nav fired while a slide transition is active must be ignored until it settles"
    );
}

#[test]
fn slide_settles_after_its_duration_and_nav_resumes() {
    let mut scene = scene();
    scene.handle_input(key(Key::Right));
    let s = scene.active_slide().expect("a nav at rest starts a slide");
    assert_eq!(s.prev_index, 0);
    assert!(!scene.update(SLIDE_DUR_NANOS - 1), "one ns short of the duration, the slide is still in flight");
    assert!(scene.active_slide().is_some());
    assert!(scene.update(1), "reaching the duration settles the slide");
    assert!(scene.active_slide().is_none());
    scene.handle_input(key(Key::Left));
    assert_eq!(scene.current_index(), 0, "left after a settled right returns to the start");
}

// --- mouse buttons ------------------------------------------------------

#[test]
fn roster_manager_mouse_click_right_button_wraps_like_right_key() {
    let mut scene = scene();
    scene.set_current_index(5);
    let t = click(&mut scene, Position { x: 30, y: 17 }, MouseHits { right: true, ..no_hits() });
    assert_eq!(scene.current_index(), 0, "a completed click on the right button at index 5 must wrap current_index to 0");
    assert!(t.iter().all(|t| t.is_none()), "arrow buttons must never produce a Transition");
}

#[test]
fn chrome_mouse_click_right_button_wraps_like_right_key() {
    let mut scene = scene();
    scene.set_current_index(5);
    let t = click(&mut scene, Position { x: 30, y: 17 }, MouseHits { right: true, ..no_hits() });
    assert_eq!(scene.current_index(), 0, "a completed click on the right button at index 5 must wrap current_index to 0");
    assert!(t.iter().all(|t| t.is_none()), "arrow buttons must never produce a Transition");
}

#[test]
fn roster_manager_mouse_click_left_button_wraps_like_left_key() {
    let mut scene = scene();
    scene.set_current_index(0);
    let t = click(&mut scene, Position { x: 5, y: 17 }, MouseHits { left: true, ..no_hits() });
    assert_eq!(scene.current_index(), 5, "a completed click on the left button at index 0 must wrap current_index to 5");
    assert!(t[2].is_none(), "arrow buttons must never produce a Transition");
}

#[test]
fn chrome_mouse_click_left_button_wraps_like_left_key() {
    let mut scene = scene();
    scene.set_current_index(0);
    let t = click(&mut scene, Position { x: 5, y: 17 }, MouseHits { left: true, ..no_hits() });
    assert_eq!(scene.current_index(), 5, "a completed click on the left button at index 0 must wrap current_index to 5");
    assert!(t[2].is_none(), "arrow buttons must never produce a Transition");
}

#[test]
fn roster_manager_click_outside_buttons_is_noop() {
    let mut scene = scene();
    scene.set_current_index(2);
    let t = click(&mut scene, Position { x: 20, y: 17 }, no_hits());
    assert_eq!(scene.current_index(), 2, "a click completed outside both button rects must not change current_index");
    assert!(t[2].is_none());
}

#[test]
fn chrome_click_outside_buttons_is_noop() {
    let mut scene = scene();
    scene.set_current_index(2);
    let t = click(&mut scene, Position { x: 20, y: 17 }, no_hits());
    assert_eq!(scene.current_index(), 2, "a click completed outside both button rects must not change current_index");
    assert!(t[2].is_none());
}

#[test]
fn roster_manager_home_click_transitions_to_main_hub() {
    let mut scene = scene();
    let t = click(&mut scene, Position { x: 33, y: 0 }, MouseHits { home: true, ..no_hits() });
    let t = t[2].expect("a completed click on the home button must return a Transition");
    assert_eq!(t, SceneTarget::MainHub, "home button must transition to MainHub");
}

#[test]
fn chrome_home_click_transitions_to_main_hub() {
    let mut scene = scene();
    let t = click(&mut scene, Position { x: 33, y: 0 }, MouseHits { home: true, ..no_hits() });
    let t = t[2].expect("a completed click on the home button must return a Transition");
    assert_eq!(t, SceneTarget::MainHub, "home button must transition to MainHub");
}

#[test]
fn roster_manager_home_click_not_completed_returns_none() {
    let mut scene = scene();
    scene.set_current_index(2);
    // Down inside the button, Up outside it: the button reports no click.
    let t = click(&mut scene, Position { x: 33, y: 0 }, MouseHits { moved_to: None, ..no_hits() });
    assert!(t[2].is_none(), "a click that does not complete inside the home button rect must not return a Transition");
    assert_eq!(scene.current_index(), 2, "an incomplete home-button click must not change current_index");
}

#[test]
fn chrome_home_click_not_completed_returns_none() {
    let mut scene = scene();
    scene.set_current_index(2);
    let t = click(&mut scene, Position { x: 33, y: 0 }, MouseHits { moved_to: None, ..no_hits() });
    assert!(t[2].is_none(), "a click that does not complete inside the home button rect must not return a Transition");
    assert_eq!(scene.current_index(), 2, "an incomplete home-button click must not change current_index");
}

#[test]
fn hatchery_button_click_transitions_to_hatchery() {
    let mut scene = scene();
    let t = click(&mut scene, Position { x: 70, y: 1 }, MouseHits { hatchery: true, ..no_hits() });
    let t = t[2].expect("a completed click on the Hatchery button must return a Transition");
    assert_eq!(t, SceneTarget::Hatchery, "Hatchery button must transition to Hatchery");
}

#[test]
fn edit_button_click_opens_prompt_editor() {
    let mut scene = scene();
    assert!(!scene.editor_open());
    let mut opened = false;
    scene.handle_input(InputEvent::Mouse(MouseHits { moved_to: Some(Position { x: 70, y: 20 }), ..no_hits() }));
    scene.handle_input(InputEvent::Mouse(no_hits()));
    let e = scene.handle_input(InputEvent::Mouse(MouseHits { edit: true, ..no_hits() }));
    opened |= e.open_editor;
    assert!(opened && scene.editor_open(), "a completed click on the Edit button must open the prompt editor");
}

#[test]
fn home_wins_over_other_buttons_in_the_same_event() {
    let mut scene = scene();
    let e = scene.handle_input(InputEvent::Mouse(MouseHits { home: true, right: true, dot: true, ..no_hits() }));
    assert_eq!(e.transition, Some(SceneTarget::MainHub));
    assert_eq!(scene.current_index(), 0, "nothing else acts once Home switches screens");
    assert_eq!(scene.selected_index(), None);
}
