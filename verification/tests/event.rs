use tetanes::event::{format_date_time, handle_key_pressed, handle_key_released, screenshot_file, screenshot_path, Keybind};

#[test]
fn key_press_always_succeeds() {
    assert!(handle_key_pressed(false, Some(Keybind::TogglePause)).is_ok());
    assert!(handle_key_pressed(true, Some(Keybind::SetSaveSlot(2))).is_ok());
    assert!(handle_key_pressed(true, None).is_ok());
}

#[test]
fn key_release_always_succeeds() {
    assert!(handle_key_released(true).is_ok());
    assert!(handle_key_released(false).is_ok());
}

#[test]
fn screenshot_is_a_png() {
    assert_eq!(screenshot_path("Screen_Shot_2024-01-02_at_03_04_05"), "Screen_Shot_2024-01-02_at_03_04_05.png");
}

#[test]
fn screenshot_file_is_named_after_the_time() {
    assert_eq!(
        screenshot_file(2024, 1, 2, 3, 4, 5),
        Some("Screen_Shot_2024-01-02_at_03_04_05.png".to_string())
    );
    assert_eq!(
        screenshot_file(1999, 12, 31, 23, 59, 58),
        Some("Screen_Shot_1999-12-31_at_23_59_58.png".to_string())
    );
}

#[test]
fn screenshot_file_of_a_time_that_does_not_exist() {
    assert_eq!(screenshot_file(2023, 2, 29, 12, 0, 0), None);
    assert_eq!(screenshot_file(2024, 1, 1, 24, 0, 0), None);
    assert!(screenshot_file(2024, 2, 29, 12, 0, 0).is_some());
}

#[test]
fn format_date_time_uses_the_pattern() {
    assert_eq!(format_date_time(2021, 7, 4, 9, 8, 7, "%d/%m/%Y %H:%M:%S"), Some("04/07/2021 09:08:07".to_string()));
    assert_eq!(format_date_time(2021, 13, 4, 9, 8, 7, "%Y"), None);
}

#[test]
fn screenshot_file_of_years_outside_four_digits() {
    assert_eq!(screenshot_file(10000, 1, 1, 0, 0, 0), Some("Screen_Shot_+10000-01-01_at_00_00_00.png".to_string()));
    assert_eq!(screenshot_file(7, 3, 9, 1, 2, 3), Some("Screen_Shot_0007-03-09_at_01_02_03.png".to_string()));
}
