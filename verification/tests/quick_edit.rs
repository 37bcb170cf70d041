use agent_ui::buffer::BufferSnapshot;
use agent_ui::quick_edit::{
    extract, ContextInfo, ExtractionError, OpenQuickEditForSelection, QuickEdit, QuickEditState,
    SendSelectionToAgent, SEPARATOR,
};

fn context(path: Option<&str>, start_line: u32, end_line: u32) -> ContextInfo {
    ContextInfo {
        file_path: path.map(|p| p.to_string()),
        start_line,
        end_line,
        start_column: 0,
        end_column: 0,
    }
}

fn snapshot(text: &str, path: Option<&str>) -> BufferSnapshot {
    BufferSnapshot::new(text.to_string(), path.map(|p| p.to_string())).unwrap()
}

#[test]
fn test_context_info_format() {
    let context = ContextInfo {
        file_path: Some("src/main.rs".to_string()),
        start_line: 5,
        end_line: 10,
        start_column: 0,
        end_column: 20,
    };

    let formatted = context.format();
    assert!(formatted.contains("src/main.rs"));
    assert!(formatted.contains("Lines 6-11")); // 1-indexed for display
}

#[test]
fn test_context_info_single_line() {
    let context = ContextInfo {
        file_path: Some("utils.rs".to_string()),
        start_line: 42,
        end_line: 42,
        start_column: 10,
        end_column: 30,
    };

    let formatted = context.format();
    assert!(formatted.contains("Line 43")); // 1-indexed
    assert!(formatted.contains("utils.rs"));
}

#[test]
fn test_format_for_agent_with_rust() {
    let context = ContextInfo {
        file_path: Some("src/lib.rs".to_string()),
        start_line: 0,
        end_line: 5,
        start_column: 0,
        end_column: 0,
    };

    let code = "fn hello() {\n    println!(\"Hello\");\n}";
    let formatted = context.format_for_agent(code);

    assert!(formatted.contains("```rust"));
    assert!(formatted.contains("src/lib.rs"));
    assert!(formatted.contains(code));
}

#[test]
fn test_infer_language() {
    let contexts = vec![
        ("src/main.rs", "rust"),
        ("app.tsx", "typescript"),
        ("utils.py", "python"),
        ("main.go", "go"),
    ];

    for (path, expected_lang) in contexts {
        let context = ContextInfo {
            file_path: Some(path.to_string()),
            start_line: 0,
            end_line: 0,
            start_column: 0,
            end_column: 0,
        };
        assert_eq!(context.infer_language(), expected_lang);
    }
}

#[test]
fn test_format_exact_with_path() {
    assert_eq!(SEPARATOR, " â€¢ ");
    assert_eq!(
        context(Some("src/main.rs"), 5, 10).format(),
        format!("File: src/main.rs{}Lines 6-11", SEPARATOR)
    );
    assert_eq!(
        context(Some("utils.rs"), 42, 42).format(),
        format!("File: utils.rs{}Line 43", SEPARATOR)
    );
}

#[test]
fn test_format_exact_without_path() {
    assert_eq!(context(None, 0, 0).format(), "Line 1");
    assert_eq!(context(None, 0, 1).format(), "Lines 1-2");
    assert_eq!(context(None, 9, 99).format(), "Lines 10-100");
}

#[test]
fn test_format_counts_from_one_at_the_largest_line() {
    assert_eq!(context(None, u32::MAX, u32::MAX).format(), "Line 4294967296");
    assert_eq!(context(None, u32::MAX - 1, u32::MAX).format(), "Lines 4294967295-4294967296");
}

#[test]
fn test_format_keeps_reversed_lines_as_given() {
    assert_eq!(context(None, 10, 5).format(), "Lines 11-6");
}

#[test]
fn test_format_for_agent_exact() {
    let text = context(Some("src/lib.rs"), 0, 5).format_for_agent("fn hello() {}");
    assert_eq!(
        text,
        format!(
            "```\nFile: src/lib.rs{}Lines 1-6\n```\n\n```rust\nfn hello() {{}}\n```",
            SEPARATOR
        )
    );
}

#[test]
fn test_format_for_agent_without_path_has_empty_tag() {
    let text = context(None, 2, 2).format_for_agent("x = 1");
    assert_eq!(text, "```\nLine 3\n```\n\n```\nx = 1\n```");
}

#[test]
fn test_format_for_agent_with_empty_code() {
    let text = context(Some("a.py"), 0, 0).format_for_agent("");
    assert_eq!(text, format!("```\nFile: a.py{}Line 1\n```\n\n```python\n\n```", SEPARATOR));
}

#[test]
fn test_infer_language_every_extension() {
    let table = [
        ("a.rs", "rust"),
        ("a.ts", "typescript"),
        ("a.tsx", "typescript"),
        ("a.js", "javascript"),
        ("a.jsx", "javascript"),
        ("a.py", "python"),
        ("a.go", "go"),
        ("a.c", "c"),
        ("a.h", "c"),
        ("a.cpp", "cpp"),
        ("a.cc", "cpp"),
        ("a.java", "java"),
        ("a.sql", "sql"),
    ];
    for (path, language) in table {
        assert_eq!(context(Some(path), 0, 0).infer_language(), language);
    }
}

#[test]
fn test_infer_language_unknown_or_absent() {
    assert_eq!(context(Some("notes.txt"), 0, 0).infer_language(), "");
    assert_eq!(context(Some("Makefile"), 0, 0).infer_language(), "");
    assert_eq!(context(Some(""), 0, 0).infer_language(), "");
    assert_eq!(context(Some("rs"), 0, 0).infer_language(), "");
    assert_eq!(context(Some("main.RS"), 0, 0).infer_language(), "");
    assert_eq!(context(Some("main.rs.bak"), 0, 0).infer_language(), "");
    assert_eq!(context(None, 0, 0).infer_language(), "");
}

#[test]
fn test_infer_language_looks_only_at_the_end() {
    assert_eq!(context(Some(".rs"), 0, 0).infer_language(), "rust");
    assert_eq!(context(Some("dir.py/main.go"), 0, 0).infer_language(), "go");
    assert_eq!(context(Some("caf\u{e9}.sql"), 0, 0).infer_language(), "sql");
    assert_eq!(context(Some("archive.c\u{e9}"), 0, 0).infer_language(), "");
}

#[test]
fn test_context_info_clone() {
    let first = context(Some("a.rs"), 1, 2);
    let copy = first.clone();
    assert_eq!(copy.file_path, first.file_path);
    assert_eq!(copy.start_line, 1);
    assert_eq!(copy.end_line, 2);
    assert_eq!(copy.format(), first.format());
}

#[test]
fn test_extract_empty_selection_in_empty_buffer() {
    let buffer = snapshot("", None);
    let info = extract(&buffer, &(0..0)).unwrap();
    assert_eq!(info.file_path, None);
    assert_eq!((info.start_line, info.start_column), (0, 0));
    assert_eq!((info.end_line, info.end_column), (0, 0));
}

#[test]
fn test_extract_start_behind_the_end_is_out_of_bounds() {
    let buffer = snapshot("abc", Some("a.rs"));
    assert_eq!(extract(&buffer, &(4..4)).err(), Some(ExtractionError::OutOfBounds));
    assert_eq!(extract(&buffer, &(4..9)).err(), Some(ExtractionError::OutOfBounds));
    assert_eq!(extract(&snapshot("", None), &(1..1)).err(), Some(ExtractionError::OutOfBounds));
}

#[test]
fn test_extract_end_behind_the_end_is_out_of_bounds() {
    let buffer = snapshot("abc", None);
    assert_eq!(extract(&buffer, &(0..4)).err(), Some(ExtractionError::OutOfBounds));
    assert_eq!(extract(&buffer, &(3..usize::MAX)).err(), Some(ExtractionError::OutOfBounds));
}

#[test]
fn test_extract_reversed_selection_is_out_of_bounds() {
    let buffer = snapshot("abc", None);
    assert_eq!(extract(&buffer, &(2..1)).err(), Some(ExtractionError::OutOfBounds));
}

#[test]
fn test_extract_selection_up_to_the_end_is_in_bounds() {
    let buffer = snapshot("abc", None);
    assert!(extract(&buffer, &(3..3)).is_ok());
    assert!(extract(&buffer, &(0..3)).is_ok());
}

#[test]
fn test_extract_lines_and_columns() {
    let buffer = snapshot("fn a() {\n    b();\n}\n", Some("src/a.rs"));
    let info = extract(&buffer, &(13..20)).unwrap();
    assert_eq!(info.file_path.as_deref(), Some("src/a.rs"));
    assert_eq!((info.start_line, info.start_column), (1, 4));
    assert_eq!((info.end_line, info.end_column), (3, 0));
    assert_eq!(info.format(), format!("File: src/a.rs{}Lines 2-4", SEPARATOR));
}

#[test]
fn test_extract_counts_columns_in_bytes() {
    let buffer = snapshot("\u{e9}\u{e9}x\ny", None);
    let info = extract(&buffer, &(4..7)).unwrap();
    assert_eq!((info.start_line, info.start_column), (0, 4));
    assert_eq!((info.end_line, info.end_column), (1, 1));
}

#[test]
fn test_get_context_info_with_live_editor() {
    let buffer = snapshot("one\ntwo\nthree", Some("n.txt"));
    let state = QuickEditState::new(4..7);
    let info = state.get_context_info(Some(&buffer)).unwrap();
    assert_eq!(info.file_path.as_deref(), Some("n.txt"));
    assert_eq!((info.start_line, info.start_column), (1, 0));
    assert_eq!((info.end_line, info.end_column), (1, 3));
}

#[test]
fn test_get_context_info_without_editor_or_out_of_bounds() {
    let buffer = snapshot("one", None);
    assert!(QuickEditState::new(0..1).get_context_info(None).is_none());
    assert!(QuickEditState::new(0..4).get_context_info(Some(&buffer)).is_none());
    assert!(QuickEditState::new(2..1).get_context_info(Some(&buffer)).is_none());
    assert!(QuickEditState::new(3..3).get_context_info(Some(&buffer)).is_some());
}

#[test]
fn test_selected_text() {
    let buffer = snapshot("one\ntwo\nthree", None);
    assert_eq!(QuickEditState::new(4..7).selected_text(Some(&buffer)).as_deref(), Some("two"));
    assert_eq!(QuickEditState::new(0..13).selected_text(Some(&buffer)).as_deref(), Some("one\ntwo\nthree"));
    assert_eq!(QuickEditState::new(5..5).selected_text(Some(&buffer)).as_deref(), Some(""));
}

#[test]
fn test_selected_text_none() {
    let buffer = snapshot("one", None);
    assert_eq!(QuickEditState::new(0..1).selected_text(None), None);
    assert_eq!(QuickEditState::new(0..0).selected_text(None), None);
    assert_eq!(QuickEditState::new(4..4).selected_text(Some(&buffer)), None);
    assert_eq!(QuickEditState::new(0..4).selected_text(Some(&buffer)), None);
    assert_eq!(QuickEditState::new(2..1).selected_text(Some(&buffer)), None);
    assert_eq!(QuickEditState::new(1..1).selected_text(Some(&snapshot("", None))), None);
}

#[test]
fn test_selected_text_of_the_empty_selection_at_the_end() {
    let buffer = snapshot("one", None);
    assert_eq!(QuickEditState::new(3..3).selected_text(Some(&buffer)).as_deref(), Some(""));
    let empty = snapshot("", None);
    assert_eq!(QuickEditState::new(0..0).selected_text(Some(&empty)), Some(String::new()));
}

#[test]
fn test_selected_text_and_context_agree_on_what_is_in_bounds() {
    let buffer = snapshot("ab\ncd", None);
    assert_eq!(buffer.len(), 5);
    for start in 0..=6usize {
        for end in 0..=6usize {
            let state = QuickEditState::new(start..end);
            let valid = start <= end && end <= 5;
            assert_eq!(state.selected_text(Some(&buffer)).is_some(), valid);
            assert_eq!(state.get_context_info(Some(&buffer)).is_some(), valid);
        }
    }
}

#[test]
fn test_selected_text_never_splits_a_character() {
    let buffer = snapshot("a\u{e9}b", None);
    assert_eq!(QuickEditState::new(1..3).selected_text(Some(&buffer)).as_deref(), Some("\u{e9}"));
    assert_eq!(QuickEditState::new(1..2).selected_text(Some(&buffer)), None);
    assert_eq!(QuickEditState::new(2..4).selected_text(Some(&buffer)), None);
}

#[test]
fn test_actions_compare_and_clone() {
    let action = QuickEdit { prompt: "rename".to_string() };
    assert!(action.clone() == action);
    assert!(action != QuickEdit { prompt: "inline".to_string() });
    assert!(SendSelectionToAgent == SendSelectionToAgent.clone());
    assert!(OpenQuickEditForSelection == OpenQuickEditForSelection.clone());
}
