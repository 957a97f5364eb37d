use pueue::truncate::truncate_text;
use pueue::widths::{allocate_variable_widths, VariableColumnWidths};

#[test]
fn truncate_text_keeps_short_text() {
    assert_eq!(truncate_text("abc", Some(5)), "abc");
}

#[test]
fn truncate_text_applies_ellipsis() {
    assert_eq!(truncate_text("abcdefgh", Some(6)), "a...gh");
}

#[test]
fn truncate_text_trims_whitespace_around_split() {
    assert_eq!(truncate_text("1234 5678", Some(7)), "12...78");
}

#[test]
fn allocation_prefers_column_with_higher_demand() {
    let widths = allocate_variable_widths(
        40,
        Some(VariableColumnWidths {
            min: 7,
            desired: 10,
        }),
        Some(VariableColumnWidths {
            min: 4,
            desired: 35,
        }),
    );

    assert_eq!(widths.command, Some(9));
    assert_eq!(widths.path, Some(31));
}

#[test]
fn allocation_uses_desired_when_enough_space() {
    let widths = allocate_variable_widths(
        80,
        Some(VariableColumnWidths {
            min: 7,
            desired: 12,
        }),
        Some(VariableColumnWidths {
            min: 4,
            desired: 16,
        }),
    );

    assert_eq!(widths.command, Some(12));
    assert_eq!(widths.path, Some(16));
}

#[test]
fn more_space_never_narrows_a_column() {
    let command = Some(VariableColumnWidths { min: 7, desired: 30 });
    let path = Some(VariableColumnWidths { min: 4, desired: 35 });
    let mut last = allocate_variable_widths(0, command, path);
    for available in 1..100 {
        let widths = allocate_variable_widths(available, command, path);
        assert!(widths.command.unwrap() >= last.command.unwrap());
        assert!(widths.path.unwrap() >= last.path.unwrap());
        last = widths;
    }
    assert_eq!((last.command, last.path), (Some(30), Some(35)));
}
