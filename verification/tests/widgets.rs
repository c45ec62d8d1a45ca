use mash::path::partition_path;
use mash::tui::form_input::{InputField, InputMode};
use mash::tui::types::{KeyCode, KeyEvent};
use mash::tui::widgets::{base_disk, CheckboxState};

fn ctrl(c: char) -> KeyEvent {
    KeyEvent { code: KeyCode::Char(c), control: true }
}

#[test]
fn test_input_field_basic() {
    let mut field = InputField::new("hello".to_string(), "test");
    assert_eq!(field.value(), "hello");
    assert_eq!(field.cursor(), 5);

    field.insert_char('!');
    assert_eq!(field.value(), "hello!");
    assert_eq!(field.cursor(), 6);

    field.delete_char_backward();
    assert_eq!(field.value(), "hello");
    assert_eq!(field.cursor(), 5);
}

#[test]
fn test_cursor_movement() {
    let mut field = InputField::new("hello world".to_string(), "test");
    field.cursor = 5;

    field.move_cursor_left();
    assert_eq!(field.cursor(), 4);

    field.move_cursor_right();
    assert_eq!(field.cursor(), 5);

    field.cursor = 0;
    field.move_cursor_left();
    assert_eq!(field.cursor(), 0); // Should stay at 0.
}

#[test]
fn input_field_starts_in_normal_mode_with_placeholder() {
    let field = InputField::new(String::new(), "Disk");
    assert_eq!(field.placeholder, "Disk");
    assert_eq!(field.mode, InputMode::Normal);
    assert_eq!(field.cursor(), 0);
}

#[test]
fn cursor_counts_bytes_of_multibyte_characters() {
    let mut field = InputField::new("é".to_string(), "x");
    assert_eq!(field.cursor(), 2);
    field.insert_char('€');
    assert_eq!(field.value(), "é€");
    assert_eq!(field.cursor(), 5);
    field.move_cursor_left();
    assert_eq!(field.cursor(), 2);
    field.delete_char_forward();
    assert_eq!(field.value(), "é");
    field.delete_char_backward();
    assert_eq!(field.value(), "");
    assert_eq!(field.cursor(), 0);
}

#[test]
fn word_movement_skips_whitespace_and_words() {
    let mut field = InputField::new("one two  three".to_string(), "x");
    field.move_word_backward();
    assert_eq!(field.cursor(), 9);
    field.move_word_backward();
    assert_eq!(field.cursor(), 4);
    field.move_word_forward();
    assert_eq!(field.cursor(), 9);
    field.move_word_forward();
    assert_eq!(field.cursor(), 14);
}

#[test]
fn ctrl_w_deletes_previous_word() {
    let mut field = InputField::new("mount /dev/sda1".to_string(), "x");
    assert!(field.handle_key(ctrl('w')));
    assert_eq!(field.value(), "mount ");
    assert_eq!(field.cursor(), 6);
}

#[test]
fn control_keys_move_clear_and_kill() {
    let mut field = InputField::new("abcdef".to_string(), "x");
    assert!(field.handle_key(ctrl('a')));
    assert_eq!(field.cursor(), 0);
    assert!(field.handle_key(ctrl('e')));
    assert_eq!(field.cursor(), 6);
    field.cursor = 3;
    assert!(field.handle_key(ctrl('k')));
    assert_eq!(field.value(), "abc");
    assert_eq!(field.cursor(), 3);
    assert!(field.handle_key(ctrl('u')));
    assert_eq!(field.value(), "");
    assert_eq!(field.cursor(), 0);
}

#[test]
fn handle_key_edits_and_ignores_unrelated_keys() {
    let mut field = InputField::new("ab".to_string(), "x");
    assert!(field.handle_key(KeyEvent::new(KeyCode::Home)));
    assert!(field.handle_key(KeyEvent::new(KeyCode::Char('z'))));
    assert_eq!(field.value(), "zab");
    assert!(field.handle_key(KeyEvent::new(KeyCode::End)));
    assert!(field.handle_key(KeyEvent::new(KeyCode::Backspace)));
    assert_eq!(field.value(), "za");
    assert!(!field.handle_key(KeyEvent::new(KeyCode::Tab)));
    assert!(!field.handle_key(KeyEvent::new(KeyCode::Enter)));
    assert_eq!(field.value(), "za");
}

#[test]
fn set_value_moves_cursor_to_end() {
    let mut field = InputField::new("x".to_string(), "y");
    field.set_value("hello".to_string());
    assert_eq!(field.value(), "hello");
    assert_eq!(field.cursor(), 5);
}

#[test]
fn test_base_disk() {
    assert_eq!(base_disk("/dev/sda1"), "/dev/sda");
    assert_eq!(base_disk("/dev/sda"), "/dev/sda");
    assert_eq!(base_disk("/dev/nvme0n1p2"), "/dev/nvme0n1");
    assert_eq!(base_disk("/dev/nvme0n1"), "/dev/nvme0n1");
    assert_eq!(base_disk("/dev/mmcblk0p2"), "/dev/mmcblk0");
}

#[test]
fn base_disk_keeps_nvme_name_with_non_digit_suffix() {
    assert_eq!(base_disk("/dev/nvme0n1px"), "/dev/nvme0n1px");
    assert_eq!(base_disk("/dev/mmcblk0"), "/dev/mmcblk0");
}

#[test]
fn test_checkbox() {
    let mut cb = CheckboxState::Unchecked;
    assert!(!cb.is_checked());
    assert_eq!(cb.symbol(), "[ ]");

    cb.toggle();
    assert!(cb.is_checked());
    assert_eq!(cb.symbol(), "[x]");
}

#[test]
fn checkbox_from_bool_and_double_toggle() {
    assert_eq!(CheckboxState::from(true), CheckboxState::Checked);
    assert_eq!(CheckboxState::from(false), CheckboxState::Unchecked);
    let mut cb = CheckboxState::Checked;
    cb.toggle();
    cb.toggle();
    assert_eq!(cb, CheckboxState::Checked);
}

#[test]
fn base_disk_undoes_partition_path() {
    for disk in ["/dev/sda", "/dev/nvme0n1", "/dev/mmcblk0", "/dev/vdb"] {
        for n in [1u32, 2, 10, 128] {
            assert_eq!(base_disk(&partition_path(disk, n)), disk);
        }
    }
}

#[test]
fn insert_then_backspace_restores_text_and_cursor() {
    let mut field = InputField::new("abc".to_string(), "x");
    field.cursor = 1;
    field.insert_char('Z');
    field.delete_char_backward();
    assert_eq!(field.value(), "abc");
    assert_eq!(field.cursor(), 1);
}
