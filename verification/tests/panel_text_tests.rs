use roster_manager::details::{
    ability_cell_texts, edit_button_geometry, level_text, stamina_row_label, stamina_text, Ability,
    EDIT_BOX_H_DOTS, SECS_PER_DAY,
};
use roster_manager::dots::DotRect;
use roster_manager::Rect;

#[test]
fn rested_label_is_stamina() {
    let label = stamina_row_label(None);
    assert_eq!(label, "Stamina");
    assert!(!label.contains("days remain"));
}

#[test]
fn injured_label_is_the_days_remain_line() {
    assert_eq!(stamina_row_label(Some(90_000)), "Exhausted: 2 days remain");
}

#[test]
fn stamina_text_rounds_days_up() {
    assert_eq!(stamina_text(None, 80), "Stamina: 80%");
    assert_eq!(stamina_text(None, 0), "Stamina: 0%");
    assert_eq!(stamina_text(Some(0), 0), "Exhausted: 0 days remain");
    assert_eq!(stamina_text(Some(1), 0), "Exhausted: 1 days remain");
    assert_eq!(stamina_text(Some(SECS_PER_DAY), 0), "Exhausted: 1 days remain");
    assert_eq!(stamina_text(Some(SECS_PER_DAY + 1), 0), "Exhausted: 2 days remain");
    assert_eq!(stamina_text(Some(3 * SECS_PER_DAY), 100), "Exhausted: 3 days remain");
}

#[test]
fn abilities_fill_the_grid_in_reading_order() {
    let abilities: Vec<Ability> = ["Fire Breath", "Howl", "Bite"]
        .iter()
        .map(|d| Ability { description: d.to_string() })
        .collect();
    assert_eq!(
        ability_cell_texts(&abilities),
        vec![Some("Fire Breath".to_string()), Some("Howl".to_string()), Some("Bite".to_string()), None]
    );
    assert_eq!(ability_cell_texts(&[]), vec![None, None, None, None]);
    let five: Vec<Ability> = (0..5).map(|i| Ability { description: format!("A{i}") }).collect();
    assert_eq!(ability_cell_texts(&five)[3], Some("A3".to_string()));
    assert_eq!(ability_cell_texts(&five).len(), 4);
}

#[test]
fn edit_button_box_hugs_the_label_row() {
    let (outline, label) = edit_button_geometry(Rect::new(10, 3, 8, 2));
    assert_eq!(outline, Some(DotRect { x: 20, y: 15, w: 16, h: EDIT_BOX_H_DOTS }));
    assert_eq!(label, Rect::new(11, 3, 6, 2));
    let (outline, label) = edit_button_geometry(Rect::new(4, 4, 0, 2));
    assert_eq!(outline, None);
    assert_eq!(label.width, 0);
}

#[test]
fn level_line_reads_lvl_and_the_number() {
    assert_eq!(level_text(5), "LVL 5");
    assert_eq!(level_text(0), "LVL 0");
    assert_eq!(level_text(120), "LVL 120");
}
