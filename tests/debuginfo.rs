use debugger::dwarf::{
    get_die_addr_range, AttrValue, DebugInfo, DieRecord, FileRecord, LineRow, UnitRecord,
    DW_TAG_COMPILE_UNIT, DW_TAG_SUBPROGRAM,
};
use debugger::error::DebugError;

fn die(offset: u64, tag: u16, low: u64, len: u64) -> DieRecord {
    DieRecord { offset, tag, low_pc: AttrValue::Addr(low), high_pc: AttrValue::Udata(len) }
}

fn row(address: u64, line: u64, column: u64) -> LineRow {
    LineRow {
        address,
        file: Some(FileRecord { dir_index: 0, dir: None, name: "main.c".to_string() }),
        line,
        column,
        decoded: true,
    }
}

fn sample() -> DebugInfo {
    let other = UnitRecord {
        entries: vec![die(0xb, DW_TAG_COMPILE_UNIT, 0x2000, 0x100)],
        comp_dir: None,
        rows: vec![row(0x2000, 1, 0)],
    };
    let main = UnitRecord {
        entries: vec![
            die(0xb, DW_TAG_COMPILE_UNIT, 0x1000, 0x400),
            DieRecord { offset: 0x20, tag: 0x24, low_pc: AttrValue::Absent, high_pc: AttrValue::Absent },
            die(0x2a, DW_TAG_SUBPROGRAM, 0x1150, 0x80),
            die(0x50, DW_TAG_SUBPROGRAM, 0x1200, 0x40),
        ],
        comp_dir: Some("/src".to_string()),
        rows: vec![
            row(0x1140, 10, 1),
            row(0x1150, 10, 5),
            row(0x11a0, 11, 5),
            row(0x11b8, 12, 5),
            row(0x11c8, 20, 1),
            row(0x11d0, 20, 1),
            row(0x1200, 30, 1),
            row(0x1220, 31, 3),
        ],
    };
    DebugInfo { units: vec![other, main] }
}

#[test]
fn compile_unit_is_found_by_range() {
    let info = sample();
    assert_eq!(info.get_compile_unit_for_pc(0x1150), Ok(Some(1)));
    assert_eq!(info.get_compile_unit_for_pc(0x2050), Ok(Some(0)));
    assert_eq!(info.get_compile_unit_for_pc(0x1400), Ok(None));
    assert_eq!(info.get_compile_unit_for_pc(0x0fff), Ok(None));
}

#[test]
fn subprogram_is_found_by_range() {
    let info = sample();
    assert_eq!(info.get_function_from_pc(0x1150), Ok(Some((1, 2))));
    assert_eq!(info.get_function_from_pc(0x11cf), Ok(Some((1, 2))));
    assert_eq!(info.get_function_from_pc(0x1210), Ok(Some((1, 3))));
    assert_eq!(info.get_function_from_pc(0x1300), Ok(None));
    assert_eq!(info.units[1].entries[2].offset, 0x2a);
}

#[test]
fn stripped_binary_has_no_lookups() {
    let info = DebugInfo { units: Vec::new() };
    assert_eq!(info.get_compile_unit_for_pc(0x1150), Ok(None));
    assert_eq!(info.get_function_from_pc(0x1150), Ok(None));
    assert!(matches!(info.get_line_entry_from_pc(0x1150), Ok(None)));
}

#[test]
fn line_entry_is_the_last_row_below_the_pc() {
    let info = sample();
    let e = info.get_line_entry_from_pc(0x11a0).unwrap().unwrap();
    assert_eq!(e.line, 10);
    assert_eq!(e.col, 5);
    assert_eq!(e.path, vec!["/src".to_string(), "main.c".to_string()]);
    let e = info.get_line_entry_from_pc(0x11a1).unwrap().unwrap();
    assert_eq!(e.line, 11);
    let e = info.get_line_entry_from_pc(0x1150).unwrap().unwrap();
    assert_eq!(e.line, 10);
    assert_eq!(e.col, 1);
    assert!(matches!(info.get_line_entry_from_pc(0x1140), Ok(None)));
}

#[test]
fn line_entry_path_uses_directory_table() {
    let unit = UnitRecord {
        entries: vec![die(0xb, DW_TAG_COMPILE_UNIT, 0x1000, 0x100)],
        comp_dir: Some("/work".to_string()),
        rows: vec![
            LineRow {
                address: 0x1000,
                file: Some(FileRecord { dir_index: 1, dir: Some("include".to_string()), name: "a.h".to_string() }),
                line: 3,
                column: 0,
                decoded: true,
            },
            LineRow { address: 0x1010, file: None, line: 0, column: 0, decoded: true },
        ],
    };
    let info = DebugInfo { units: vec![unit] };
    let e = info.get_line_entry_from_pc(0x1004).unwrap().unwrap();
    assert_eq!(e.path, vec!["/work".to_string(), "include".to_string(), "a.h".to_string()]);
    assert_eq!(e.line, 3);
    let e = info.get_line_entry_from_pc(0x1020).unwrap().unwrap();
    assert!(e.path.is_empty());
    assert_eq!(e.line, 0);
}

#[test]
fn line_entries_compare_by_position() {
    let info = sample();
    let a = info.get_line_entry_from_pc(0x1160).unwrap().unwrap();
    let b = info.get_line_entry_from_pc(0x1190).unwrap().unwrap();
    let c = info.get_line_entry_from_pc(0x11b0).unwrap().unwrap();
    assert!(a.same_as(&b));
    assert!(!a.same_as(&c));
}

#[test]
fn line_map_takes_the_first_row_of_each_line() {
    let info = sample();
    let m = info.get_lines_for_unit(1);
    assert_eq!(m.get(&10), Some(&0x1140));
    assert_eq!(m.get(&11), Some(&0x11a0));
    assert_eq!(m.get(&12), Some(&0x11b8));
    assert_eq!(m.get(&20), Some(&0x11c8));
    assert_eq!(m.get(&13), None);
    assert_eq!(m.len(), 6);
}

#[test]
fn die_range_needs_address_and_offset() {
    assert_eq!(get_die_addr_range(&die(0, DW_TAG_SUBPROGRAM, 0x1150, 0x80)), Ok((0x1150, 0x11d0)));
    let bad = DieRecord { offset: 0, tag: DW_TAG_SUBPROGRAM, low_pc: AttrValue::Addr(0x1150), high_pc: AttrValue::Addr(0x11d0) };
    assert_eq!(get_die_addr_range(&bad), Err(DebugError::MalformedDebugInfo));
    let missing = DieRecord { offset: 0, tag: DW_TAG_SUBPROGRAM, low_pc: AttrValue::Absent, high_pc: AttrValue::Udata(1) };
    assert_eq!(get_die_addr_range(&missing), Err(DebugError::MalformedDebugInfo));
    assert_eq!(get_die_addr_range(&die(0, DW_TAG_SUBPROGRAM, u64::MAX, 2)), Err(DebugError::MalformedDebugInfo));
}

#[test]
fn malformed_subprogram_fails_the_lookup() {
    let unit = UnitRecord {
        entries: vec![
            die(0xb, DW_TAG_COMPILE_UNIT, 0x1000, 0x100),
            DieRecord { offset: 0x30, tag: DW_TAG_SUBPROGRAM, low_pc: AttrValue::Addr(0x1000), high_pc: AttrValue::Other },
        ],
        comp_dir: None,
        rows: Vec::new(),
    };
    let info = DebugInfo { units: vec![unit] };
    assert_eq!(info.get_function_from_pc(0x1010), Err(DebugError::MalformedDebugInfo));
    let bad_cu = UnitRecord {
        entries: vec![DieRecord { offset: 0xb, tag: DW_TAG_COMPILE_UNIT, low_pc: AttrValue::Other, high_pc: AttrValue::Udata(4) }],
        comp_dir: None,
        rows: Vec::new(),
    };
    let info = DebugInfo { units: vec![bad_cu] };
    assert_eq!(info.get_compile_unit_for_pc(0x1010), Err(DebugError::MalformedDebugInfo));
}

#[test]
fn unreadable_row_fails_only_the_walk_over_it() {
    let mut bad = row(0x1010, 4, 0);
    bad.decoded = false;
    let unit = UnitRecord {
        entries: vec![die(0xb, DW_TAG_COMPILE_UNIT, 0x1000, 0x100)],
        comp_dir: None,
        rows: vec![row(0x1000, 3, 0), bad, row(0x1020, 5, 0)],
    };
    let info = DebugInfo { units: vec![unit] };
    assert_eq!(info.get_line_entry_from_pc(0x1008).unwrap().unwrap().line, 3);
    assert_eq!(info.get_line_entry_from_pc(0x1010).unwrap().unwrap().line, 3);
    assert!(matches!(info.get_line_entry_from_pc(0x1011), Err(DebugError::MalformedDebugInfo)));
    assert!(matches!(info.get_line_entry_from_pc(0x1030), Err(DebugError::MalformedDebugInfo)));
}
