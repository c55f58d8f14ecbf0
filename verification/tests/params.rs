use bench_matrix::params::{AbstractCombination, MatrixCellValue};
use std::collections::HashSet;

#[test]
fn test_abstract_combination_id_suffix() {
    let combo = AbstractCombination {
        cells: vec![
            MatrixCellValue::Tag("StdTokio".to_string()),
            MatrixCellValue::Tag("HWM-Low".to_string()), // Tags with hyphens are fine
            MatrixCellValue::Int(1024),
            MatrixCellValue::Unsigned(4096),
            MatrixCellValue::Bool(true),
        ],
    };
    // Expected: _StdTokio_HWM-Low_Int1024_Uint4096_Booltrue
    assert_eq!(combo.id_suffix(), "_StdTokio_HWM-Low_Int1024_Uint4096_Booltrue");

    let combo2 = AbstractCombination {
        cells: vec![
            MatrixCellValue::String("My Param With Spaces".to_string()), // Strings get sanitized
        ],
    };
    // Expected: _My_Param_With_Spaces
    assert_eq!(combo2.id_suffix(), "_My_Param_With_Spaces");

    let combo3 = AbstractCombination { cells: vec![] };
    assert_eq!(
        combo3.id_suffix(),
        "_",
        "Should produce a minimal suffix for empty combo"
    );
}

#[test]
fn test_abstract_combination_id_suffix_with_names() {
    let combo = AbstractCombination {
        cells: vec![
            MatrixCellValue::Tag("Uring".to_string()),
            MatrixCellValue::Unsigned(512),
        ],
    };
    let names = vec!["Backend".to_string(), "BlockSize".to_string()];

    // Expected: _Backend-Uring_BlockSize-512
    assert_eq!(combo.id_suffix_with_names(&names), "_Backend-Uring_BlockSize-512");

    let names_mismatch = vec!["Backend".to_string()];
    // Should fall back to the default suffix and print a warning
    assert_eq!(combo.id_suffix_with_names(&names_mismatch), "_Uring_Uint512");
}

#[test]
fn unnamed_suffix_of_three_cells() {
    let combo = AbstractCombination {
        cells: vec![
            MatrixCellValue::Tag("StdTokio".to_string()),
            MatrixCellValue::Int(1024),
            MatrixCellValue::Bool(true),
        ],
    };
    assert_eq!(combo.id_suffix(), "_StdTokio_Int1024_Booltrue");
}

#[test]
fn names_fit_only_with_one_name_per_cell() {
    let combo = AbstractCombination {
        cells: vec![MatrixCellValue::Int(-3), MatrixCellValue::Bool(false)],
    };
    let two = vec!["Depth".to_string(), "Sync".to_string()];
    let three = vec!["a".to_string(), "b".to_string(), "c".to_string()];
    assert!(combo.names_fit(&two));
    assert!(!combo.names_fit(&three));
    assert!(!combo.names_fit(&[]));
    assert_eq!(combo.id_suffix_with_names(&two), "_Depth--3_Sync-false");
    assert_eq!(combo.id_suffix_with_names(&three), "_Int-3_Boolfalse");
    let empty = AbstractCombination { cells: vec![] };
    assert!(empty.names_fit(&[]));
    assert_eq!(empty.id_suffix_with_names(&[]), "_");
}

#[test]
fn label_is_the_suffix_without_its_separator() {
    let combo = AbstractCombination {
        cells: vec![
            MatrixCellValue::Tag("Uring".to_string()),
            MatrixCellValue::Unsigned(512),
        ],
    };
    let names = vec!["Backend".to_string(), "BlockSize".to_string()];
    let short = vec!["Backend".to_string()];
    assert_eq!(combo.label(Some(&names)), "Backend-Uring_BlockSize-512");
    assert_eq!(combo.label(Some(&short)), "Uring_Uint512");
    assert_eq!(combo.label(None), "Uring_Uint512");
    let empty = AbstractCombination { cells: vec![] };
    assert_eq!(empty.label(None), "");
}

#[test]
fn sanitizing_keeps_letters_and_digits_of_any_script() {
    let combo = AbstractCombination {
        cells: vec![MatrixCellValue::String("caf\u{e9} 4/7-x_\u{663}!".to_string())],
    };
    assert_eq!(combo.id_suffix(), "_caf\u{e9}_4_7_x_\u{663}_");
    let names = vec!["Where".to_string()];
    assert_eq!(combo.id_suffix_with_names(&names), "_Where-caf\u{e9}_4_7_x_\u{663}_");
    let blank = AbstractCombination { cells: vec![MatrixCellValue::String(String::new())] };
    assert_eq!(blank.id_suffix(), "_");
}

#[test]
fn tags_are_not_sanitized() {
    let combo = AbstractCombination {
        cells: vec![MatrixCellValue::Tag("a b/c".to_string())],
    };
    assert_eq!(combo.id_suffix(), "_a b/c");
}

#[test]
fn numbers_render_in_decimal() {
    let combo = AbstractCombination {
        cells: vec![
            MatrixCellValue::Int(0),
            MatrixCellValue::Int(-1),
            MatrixCellValue::Int(i64::MIN),
            MatrixCellValue::Int(i64::MAX),
            MatrixCellValue::Unsigned(0),
            MatrixCellValue::Unsigned(10),
            MatrixCellValue::Unsigned(u64::MAX),
        ],
    };
    assert_eq!(
        combo.id_suffix(),
        "_Int0_Int-1_Int-9223372036854775808_Int9223372036854775807_Uint0_Uint10_Uint18446744073709551615"
    );
}

#[test]
fn display_form_of_each_variant() {
    assert_eq!(MatrixCellValue::Tag("HWM-Low".to_string()).display_string(), "HWM-Low");
    assert_eq!(MatrixCellValue::String("a b".to_string()).display_string(), "\"a b\"");
    assert_eq!(MatrixCellValue::Int(-42).display_string(), "-42");
    assert_eq!(MatrixCellValue::Unsigned(4096).display_string(), "4096");
    assert_eq!(MatrixCellValue::Bool(true).display_string(), "true");
    assert_eq!(MatrixCellValue::Bool(false).display_string(), "false");
}

#[test]
fn diagnostic_form_of_each_variant() {
    assert_eq!(MatrixCellValue::Tag("A".to_string()).debug_string(), "Tag(A)");
    assert_eq!(MatrixCellValue::String("a b".to_string()).debug_string(), "String(\"a b\")");
    assert_eq!(MatrixCellValue::Int(-42).debug_string(), "Int(-42)");
    assert_eq!(MatrixCellValue::Unsigned(7).debug_string(), "Unsigned(7)");
    assert_eq!(MatrixCellValue::Bool(false).debug_string(), "Bool(false)");
}

fn sample_row() -> AbstractCombination {
    AbstractCombination {
        cells: vec![
            MatrixCellValue::Tag("StdTokio".to_string()),
            MatrixCellValue::String("some text".to_string()),
            MatrixCellValue::Int(-1024),
            MatrixCellValue::Unsigned(512),
            MatrixCellValue::Bool(true),
        ],
    }
}

#[test]
fn accessors_give_the_payload_of_the_matching_variant() {
    let row = sample_row();
    assert_eq!(row.get_tag(0), Ok("StdTokio"));
    assert_eq!(row.get_string(1), Ok("some text"));
    assert_eq!(row.get_i64(2), Ok(-1024));
    assert_eq!(row.get_u64(3), Ok(512));
    assert_eq!(row.get_bool(4), Ok(true));
}

#[test]
fn accessors_name_the_index_and_the_cell_found() {
    let row = sample_row();
    assert_eq!(
        row.get_tag(1),
        Err("Expected Tag at index 1, found String(\"some text\")".to_string())
    );
    assert_eq!(
        row.get_string(0),
        Err("Expected String at index 0, found Tag(StdTokio)".to_string())
    );
    assert_eq!(
        row.get_i64(3),
        Err("Expected Int at index 3, found Unsigned(512)".to_string())
    );
    assert_eq!(
        row.get_u64(2),
        Err("Expected Unsigned at index 2, found Int(-1024)".to_string())
    );
    assert_eq!(
        row.get_bool(2),
        Err("Expected Bool at index 2, found Int(-1024)".to_string())
    );
    assert_eq!(
        row.get_i64(4),
        Err("Expected Int at index 4, found Bool(true)".to_string())
    );
}

#[test]
fn accessors_report_a_missing_cell() {
    let row = sample_row();
    assert_eq!(row.get_tag(5), Err("No cell at index 5".to_string()));
    assert_eq!(row.get_string(17), Err("No cell at index 17".to_string()));
    assert_eq!(row.get_i64(5), Err("No cell at index 5".to_string()));
    assert_eq!(row.get_u64(100), Err("No cell at index 100".to_string()));
    assert_eq!(
        row.get_bool(usize::MAX),
        Err(format!("No cell at index {}", usize::MAX))
    );
    let empty = AbstractCombination { cells: vec![] };
    assert_eq!(empty.get_bool(0), Err("No cell at index 0".to_string()));
}

#[test]
fn conversions_pick_the_variant() {
    assert_eq!(MatrixCellValue::from("Uring"), MatrixCellValue::Tag("Uring".to_string()));
    assert_eq!(
        MatrixCellValue::from("text".to_string()),
        MatrixCellValue::String("text".to_string())
    );
    assert_eq!(MatrixCellValue::from(-5i64), MatrixCellValue::Int(-5));
    assert_eq!(MatrixCellValue::from(-5i32), MatrixCellValue::Int(-5));
    assert_eq!(MatrixCellValue::from(5u64), MatrixCellValue::Unsigned(5));
    assert_eq!(MatrixCellValue::from(5u32), MatrixCellValue::Unsigned(5));
    assert_eq!(MatrixCellValue::from(true), MatrixCellValue::Bool(true));
}

#[test]
fn clones_are_equal_to_their_source() {
    let row = sample_row();
    let copy = row.clone();
    assert_eq!(copy.cells, row.cells);
    assert_eq!(copy.id_suffix(), row.id_suffix());
    assert_ne!(MatrixCellValue::Tag("1".to_string()), MatrixCellValue::String("1".to_string()));
    assert_ne!(MatrixCellValue::Int(1), MatrixCellValue::Unsigned(1));
}

#[test]
fn cells_are_equal_by_variant_and_payload() {
    assert!(MatrixCellValue::Tag("a".to_string()) == MatrixCellValue::Tag("a".to_string()));
    assert!(MatrixCellValue::Tag("a".to_string()) != MatrixCellValue::Tag("b".to_string()));
    assert!(MatrixCellValue::Tag("a".to_string()) != MatrixCellValue::String("a".to_string()));
    assert!(MatrixCellValue::String("".to_string()) == MatrixCellValue::String(String::new()));
    assert!(MatrixCellValue::Int(0) != MatrixCellValue::Unsigned(0));
    assert!(MatrixCellValue::Int(-7) == MatrixCellValue::Int(-7));
    assert!(MatrixCellValue::Unsigned(7) != MatrixCellValue::Unsigned(8));
    assert!(MatrixCellValue::Bool(true) != MatrixCellValue::Bool(false));
    assert!(MatrixCellValue::Bool(false) == MatrixCellValue::Bool(false));
    assert!(MatrixCellValue::Bool(true) != MatrixCellValue::Int(1));
}

#[test]
fn equal_cells_hash_alike() {
    let mut seen = HashSet::new();
    assert!(seen.insert(MatrixCellValue::Tag("a".to_string())));
    assert!(!seen.insert(MatrixCellValue::Tag("a".to_string())));
    assert!(seen.insert(MatrixCellValue::String("a".to_string())));
    assert!(seen.insert(MatrixCellValue::Int(1)));
    assert!(seen.insert(MatrixCellValue::Unsigned(1)));
    assert!(!seen.insert(MatrixCellValue::Int(1)));
    assert_eq!(seen.len(), 4);
}
