use vstd::prelude::*;
use std::collections::HashMap;
use crate::error::DebugError;

verus! {

broadcast use vstd::std_specs::hash::group_hash_axioms;

/// The DWARF tag of a compilation unit's root entry.
pub const DW_TAG_COMPILE_UNIT: u16 = 0x11;

/// The DWARF tag of a subprogram (function) entry.
pub const DW_TAG_SUBPROGRAM: u16 = 0x2e;

/// How an address attribute of a debugging entry is encoded.
#[derive(Clone, Copy, Debug, PartialEq, Eq, Structural)]
pub enum AttrValue {
    /// The entry has no such attribute.
    Absent,
    /// An address (the form of `DW_AT_low_pc`).
    Addr(u64),
    /// An unsigned constant (the common form of `DW_AT_high_pc`: an offset from `low_pc`).
    Udata(u64),
    /// Any other form.
    Other,
}

/// One debugging-information entry, as far as the lookups read it.
#[derive(Clone, Copy, Debug, PartialEq, Eq, Structural)]
pub struct DieRecord {
    /// Offset of the entry within its unit.
    pub offset: u64,
    pub tag: u16,
    pub low_pc: AttrValue,
    pub high_pc: AttrValue,
}

/// The file that a line-table row names.
#[derive(Debug)]
pub struct FileRecord {
    /// Index into the line program's directory table; 0 is the unit's own directory.
    pub dir_index: u64,
    /// The directory that the index names, if the table has it.
    pub dir: Option<String>,
    pub name: String,
}

/// One row of a unit's line program.
#[derive(Debug)]
pub struct LineRow {
    pub address: u64,
    pub file: Option<FileRecord>,
    /// Source line, 1-based; 0 when unknown.
    pub line: u64,
    /// Source column, 1-based; 0 for the left edge.
    pub column: u64,
    /// Whether the names of the row's file and directory could be read.
    pub decoded: bool,
}

/// One compilation unit: its entries in depth-first order (the unit's own
/// root entry first), its compilation directory and its line-program rows.
#[derive(Debug)]
pub struct UnitRecord {
    pub entries: Vec<DieRecord>,
    pub comp_dir: Option<String>,
    pub rows: Vec<LineRow>,
}

/// The debug information of an object file. Missing sections give no units.
#[derive(Debug)]
pub struct DebugInfo {
    pub units: Vec<UnitRecord>,
}

/// A source position: the path (as the parts pushed one after another onto
/// an empty path), a 1-based line and a 1-based column; 0 means unknown.
#[derive(Debug)]
pub struct LineEntry {
    pub path: Vec<String>,
    pub line: u64,
    pub col: u64,
}

/// What a line entry denotes.
pub struct LineEntryView {
    pub path: Seq<Seq<char>>,
    pub line: u64,
    pub col: u64,
}

impl View for LineEntry {
    type V = LineEntryView;

    open spec fn view(&self) -> LineEntryView {
        LineEntryView { path: self.path@.map_values(|p: String| p@), line: self.line, col: self.col }
    }
}

/// The address range `[low, high)` of an entry: `DW_AT_low_pc` must be an
/// address and `DW_AT_high_pc` an unsigned offset from it; `None` when the
/// entry is not encoded so.
pub open spec fn die_range(d: DieRecord) -> Option<(u64, u64)> {
    match (d.low_pc, d.high_pc) {
        (AttrValue::Addr(lo), AttrValue::Udata(len)) => if lo + len <= u64::MAX {
            Some((lo, (lo + len) as u64))
        } else {
            None
        },
        _ => None,
    }
}

/// How a search for the entry of some tag that covers a pc regards one entry.
#[derive(Clone, Copy, Debug, PartialEq, Eq, Structural)]
pub enum Verdict {
    /// Not the tag, or a range that does not hold the pc.
    Skip,
    /// The tag, with a range that holds the pc.
    Hit,
    /// The tag, with a range that is not encoded as expected.
    Fail,
}

pub open spec fn die_verdict(d: DieRecord, tag: u16, pc: u64) -> Verdict {
    if d.tag != tag {
        Verdict::Skip
    } else {
        match die_range(d) {
            None => Verdict::Fail,
            Some((lo, hi)) => if lo <= pc < hi {
                Verdict::Hit
            } else {
                Verdict::Skip
            },
        }
    }
}

/// A unit is judged by its root entry, which must be a compilation unit.
pub open spec fn unit_verdict(u: UnitRecord, pc: u64) -> Verdict {
    if u.entries@.len() == 0 {
        Verdict::Skip
    } else {
        die_verdict(u.entries@[0], DW_TAG_COMPILE_UNIT, pc)
    }
}

/// The first entry, from `i` on, that is not skipped decides: a hit gives its
/// index, a failure gives an error; when every one is skipped, none is found.
pub open spec fn scan_from(vs: Seq<Verdict>, i: int) -> Result<Option<usize>, DebugError>
    decreases vs.len() - i,
{
    if i < 0 || i >= vs.len() {
        Ok(None)
    } else if vs[i] == Verdict::Hit {
        Ok(Some(i as usize))
    } else if vs[i] == Verdict::Fail {
        Err(DebugError::MalformedDebugInfo)
    } else {
        scan_from(vs, i + 1)
    }
}

/// The index just past the rows, from `i` on, whose address lies below `pc`.
pub open spec fn rows_below_end(rows: Seq<LineRow>, pc: u64, i: int) -> int
    decreases rows.len() - i,
{
    if i < 0 || i >= rows.len() {
        rows.len() as int
    } else if rows[i].address >= pc {
        i
    } else {
        rows_below_end(rows, pc, i + 1)
    }
}

/// The path of a row: the compilation directory, then the row's directory
/// unless its index is 0, then the file name; empty when the row names no file.
pub open spec fn row_path(row: LineRow, comp_dir: Option<String>) -> Seq<Seq<char>> {
    match row.file {
        None => Seq::empty(),
        Some(f) => {
            let base = match comp_dir {
                Some(c) => seq![c@],
                None => Seq::empty(),
            };
            let with_dir = if f.dir_index != 0 && f.dir is Some {
                base.push(f.dir.unwrap()@)
            } else {
                base
            };
            with_dir.push(f.name@)
        },
    }
}

pub open spec fn row_entry(row: LineRow, comp_dir: Option<String>) -> LineEntryView {
    LineEntryView { path: row_path(row, comp_dir), line: row.line, col: row.column }
}

/// The index of the first row from `i` on whose line is `line`, if any.
pub open spec fn first_row_for_line(rows: Seq<LineRow>, line: u64, i: int) -> Option<int>
    decreases rows.len() - i,
{
    if i < 0 || i >= rows.len() {
        None
    } else if rows[i].line == line {
        Some(i)
    } else {
        first_row_for_line(rows, line, i + 1)
    }
}

proof fn lemma_rows_below_end_bounds(rows: Seq<LineRow>, pc: u64, i: int)
    requires
        0 <= i <= rows.len(),
    ensures
        i <= rows_below_end(rows, pc, i) <= rows.len(),
    decreases rows.len() - i,
{
    if i < rows.len() && rows[i].address < pc {
        lemma_rows_below_end_bounds(rows, pc, i + 1);
    }
}

proof fn lemma_first_row_bounds(rows: Seq<LineRow>, line: u64, i: int)
    requires
        0 <= i,
    ensures
        first_row_for_line(rows, line, i) matches Some(j) ==> i <= j < rows.len() && rows[j].line == line,
    decreases rows.len() - i,
{
    if i < rows.len() && rows[i].line != line {
        lemma_first_row_bounds(rows, line, i + 1);
    }
}

/// Two line entries denote the same source position.
pub open spec fn same_entry(a: LineEntryView, b: LineEntryView) -> bool {
    a.path =~~= b.path && a.line == b.line && a.col == b.col
}

/// The address range of an entry, `[low_pc, low_pc + high_pc)`.
pub fn get_die_addr_range(entry: &DieRecord) -> (r: Result<(u64, u64), DebugError>)
    ensures
        match die_range(*entry) {
            Some(range) => r == Ok::<(u64, u64), DebugError>(range),
            None => r == Err::<(u64, u64), DebugError>(DebugError::MalformedDebugInfo),
        },
{
    match (entry.low_pc, entry.high_pc) {
        (AttrValue::Addr(lo), AttrValue::Udata(len)) => match lo.checked_add(len) {
            Some(hi) => Ok((lo, hi)),
            None => Err(DebugError::MalformedDebugInfo),
        },
        _ => Err(DebugError::MalformedDebugInfo),
    }
}

fn judge(d: &DieRecord, tag: u16, pc: u64) -> (v: Verdict)
    ensures
        v == die_verdict(*d, tag, pc),
{
    if d.tag != tag {
        return Verdict::Skip;
    }
    match get_die_addr_range(d) {
        Err(_) => Verdict::Fail,
        Ok((lo, hi)) => if lo <= pc && pc < hi {
            Verdict::Hit
        } else {
            Verdict::Skip
        },
    }
}

fn clone_text(s: &String) -> (r: String)
    ensures
        r@ == s@,
{
    s.clone()
}

/// Two strings hold the same characters.
fn same_text(a: &String, b: &String) -> (r: bool)
    ensures
        r == (a@ == b@),
{
    *a == *b
}

impl LineEntry {
    /// Whether two line entries denote the same source position.
    pub fn same_as(&self, other: &LineEntry) -> (r: bool)
        ensures
            r == same_entry(self@, other@),
    {
        if self.line != other.line || self.col != other.col || self.path.len() != other.path.len() {
            return false;
        }
        let mut i: usize = 0;
        while i < self.path.len()
            invariant
                self.path@.len() == other.path@.len(),
                i <= self.path@.len(),
                forall|j: int| 0 <= j < i ==> (#[trigger] self.path@[j])@ == other.path@[j]@,
            decreases self.path@.len() - i,
        {
            if !same_text(&self.path[i], &other.path[i]) {
                assert(self@.path[i as int] != other@.path[i as int]);
                return false;
            }
            i = i + 1;
        }
        assert(self@.path =~~= other@.path);
        true
    }
}

impl DebugInfo {
    /// How the search for the compilation unit that covers `pc` regards each unit.
    pub open spec fn unit_verdicts(&self, pc: u64) -> Seq<Verdict> {
        self.units@.map_values(|u: UnitRecord| unit_verdict(u, pc))
    }

    /// How the search for the subprogram that covers `pc` regards each entry of unit `u`.
    pub open spec fn subprogram_verdicts(&self, u: int, pc: u64) -> Seq<Verdict> {
        self.units@[u].entries@.map_values(|d: DieRecord| die_verdict(d, DW_TAG_SUBPROGRAM, pc))
    }

    /// The compilation unit that covers a file-relative pc: the first unit
    /// whose root entry is a compilation unit with a range that holds it.
    pub open spec fn unit_for_pc(&self, pc: u64) -> Result<Option<usize>, DebugError> {
        scan_from(self.unit_verdicts(pc), 0)
    }

    /// The subprogram that covers a file-relative pc: the first subprogram
    /// entry, depth first, of the unit that covers it whose range holds it.
    pub open spec fn subprogram_for_pc(&self, pc: u64) -> Result<Option<(usize, usize)>, DebugError> {
        match self.unit_for_pc(pc) {
            Err(e) => Err(e),
            Ok(None) => Ok(None),
            Ok(Some(u)) => match scan_from(self.subprogram_verdicts(u as int, pc), 0) {
                Err(e) => Err(e),
                Ok(None) => Ok(None),
                Ok(Some(k)) => Ok(Some((u, k))),
            },
        }
    }

    /// The line entry active at a file-relative pc: that of the last row, in
    /// the covering unit's line program, of those before the first row whose
    /// address is not below `pc`. The walk fails on a row whose names could
    /// not be read.
    pub open spec fn line_entry_for_pc(&self, pc: u64) -> Result<Option<LineEntryView>, DebugError> {
        match self.unit_for_pc(pc) {
            Err(e) => Err(e),
            Ok(None) => Ok(None),
            Ok(Some(u)) => {
                let unit = self.units@[u as int];
                let end = rows_below_end(unit.rows@, pc, 0);
                if exists|j: int| 0 <= j < end && !(#[trigger] unit.rows@[j]).decoded {
                    Err(DebugError::MalformedDebugInfo)
                } else if end == 0 {
                    Ok(None)
                } else {
                    Ok(Some(row_entry(unit.rows@[end - 1], unit.comp_dir)))
                }
            },
        }
    }

    /// Finds the compilation unit that covers a file-relative pc.
    pub fn get_compile_unit_for_pc(&self, pc: u64) -> (r: Result<Option<usize>, DebugError>)
        ensures
            r == self.unit_for_pc(pc),
            r matches Ok(Some(u)) ==> u < self.units@.len(),
    {
        let ghost vs = self.unit_verdicts(pc);
        let mut i: usize = 0;
        while i < self.units.len()
            invariant
                vs == self.unit_verdicts(pc),
                i <= self.units@.len(),
                scan_from(vs, 0) == scan_from(vs, i as int),
            decreases self.units@.len() - i,
        {
            let unit = &self.units[i];
            let v = if unit.entries.len() == 0 {
                Verdict::Skip
            } else {
                judge(&unit.entries[0], DW_TAG_COMPILE_UNIT, pc)
            };
            assert(v == vs[i as int]);
            match v {
                Verdict::Hit => {
                    return Ok(Some(i));
                },
                Verdict::Fail => {
                    return Err(DebugError::MalformedDebugInfo);
                },
                Verdict::Skip => {},
            }
            i = i + 1;
        }
        Ok(None)
    }

    /// Finds the subprogram entry that covers a file-relative pc, as the index
    /// of its unit and its index among the unit's entries.
    pub fn get_function_from_pc(&self, pc: u64) -> (r: Result<Option<(usize, usize)>, DebugError>)
        ensures
            r == self.subprogram_for_pc(pc),
            r matches Ok(Some((u, k))) ==> u < self.units@.len() && k < self.units@[u as int].entries@.len(),
    {
        let u = match self.get_compile_unit_for_pc(pc) {
            Err(e) => {
                return Err(e);
            },
            Ok(None) => {
                return Ok(None);
            },
            Ok(Some(u)) => u,
        };
        let entries = &self.units[u].entries;
        let ghost vs = self.subprogram_verdicts(u as int, pc);
        let mut k: usize = 0;
        while k < entries.len()
            invariant
                u < self.units@.len(),
                self.unit_for_pc(pc) == Ok::<Option<usize>, DebugError>(Some(u)),
                entries == self.units@[u as int].entries,
                vs == self.subprogram_verdicts(u as int, pc),
                k <= entries@.len(),
                scan_from(vs, 0) == scan_from(vs, k as int),
            decreases entries@.len() - k,
        {
            let v = judge(&entries[k], DW_TAG_SUBPROGRAM, pc);
            assert(v == vs[k as int]);
            match v {
                Verdict::Hit => {
                    return Ok(Some((u, k)));
                },
                Verdict::Fail => {
                    return Err(DebugError::MalformedDebugInfo);
                },
                Verdict::Skip => {},
            }
            k = k + 1;
        }
        Ok(None)
    }

    /// Finds the line entry active at a file-relative pc.
    pub fn get_line_entry_from_pc(&self, pc: u64) -> (r: Result<Option<LineEntry>, DebugError>)
        ensures
            match self.line_entry_for_pc(pc) {
                Err(e) => r == Err::<Option<LineEntry>, DebugError>(e),
                Ok(None) => r matches Ok(None),
                Ok(Some(v)) => r matches Ok(Some(e)) && e@ == v,
            },
    {
        let u = match self.get_compile_unit_for_pc(pc) {
            Err(e) => {
                return Err(e);
            },
            Ok(None) => {
                return Ok(None);
            },
            Ok(Some(u)) => u,
        };
        let unit = &self.units[u];
        let rows = &unit.rows;
        let mut end: usize = 0;
        while end < rows.len() && rows[end].address < pc
            invariant
                end <= rows@.len(),
                rows_below_end(rows@, pc, 0) == rows_below_end(rows@, pc, end as int),
                forall|j: int| 0 <= j < end ==> (#[trigger] rows@[j]).decoded,
                u < self.units@.len(),
                self.unit_for_pc(pc) == Ok::<Option<usize>, DebugError>(Some(u)),
                rows@ == self.units@[u as int].rows@,
            decreases rows@.len() - end,
        {
            if !rows[end].decoded {
                proof {
                    lemma_rows_below_end_bounds(rows@, pc, end as int + 1);
                    assert(rows_below_end(rows@, pc, end as int) == rows_below_end(rows@, pc, end as int + 1));
                    assert(!rows@[end as int].decoded);
                }
                return Err(DebugError::MalformedDebugInfo);
            }
            end = end + 1;
        }
        proof {
            lemma_rows_below_end_bounds(rows@, pc, end as int);
        }
        if end == 0 {
            return Ok(None);
        }
        Ok(Some(entry_for_row(&rows[end - 1], &unit.comp_dir)))
    }

    /// The line table of unit `u`: each line that some row names, mapped to
    /// the address of the first row that names it.
    pub fn get_lines_for_unit(&self, u: usize) -> (m: HashMap<u64, u64>)
        requires
            u < self.units@.len(),
        ensures
            forall|line: u64|
                #[trigger] m@.contains_key(line) <==> first_row_for_line(self.units@[u as int].rows@, line, 0) is Some,
            forall|line: u64|
                #[trigger] m@.contains_key(line) ==> m@[line] == self.units@[u as int].rows@[first_row_for_line(
                    self.units@[u as int].rows@,
                    line,
                    0,
                ).unwrap()].address,
    {
        let rows = &self.units[u].rows;
        let mut m: HashMap<u64, u64> = HashMap::new();
        let mut k: usize = 0;
        assert forall|line: u64| !(#[trigger] first_row_for_line(rows@, line, 0) matches Some(j) && j < 0) by {
            lemma_first_row_bounds(rows@, line, 0);
        }
        while k < rows.len()
            invariant
                k <= rows@.len(),
                forall|line: u64| #[trigger]
                    m@.contains_key(line) <==> (first_row_for_line(rows@, line, 0) matches Some(j) && j < k),
                forall|line: u64| #[trigger]
                    m@.contains_key(line) ==> m@[line] == rows@[first_row_for_line(rows@, line, 0).unwrap()].address,
                forall|line: u64|
                    !m@.contains_key(line) ==> #[trigger] first_row_for_line(rows@, line, 0)
                        == first_row_for_line(rows@, line, k as int),
            decreases rows@.len() - k,
        {
            let line = rows[k].line;
            let address = rows[k].address;
            if !m.contains_key(&line) {
                assert(first_row_for_line(rows@, line, k as int) == Some(k as int));
                m.insert(line, address);
            }
            assert forall|l: u64| !m@.contains_key(l) implies #[trigger] first_row_for_line(rows@, l, 0)
                == first_row_for_line(rows@, l, k + 1) by {
                assert(l != line);
            }
            assert forall|l: u64| #[trigger] m@.contains_key(l) <==> (first_row_for_line(rows@, l, 0) matches Some(j) && j < k + 1) by {
                lemma_first_row_bounds(rows@, l, 0);
                lemma_first_row_bounds(rows@, l, k + 1);
            }
            k = k + 1;
        }
        assert forall|line: u64| first_row_for_line(rows@, line, 0) is Some implies #[trigger] m@.contains_key(line) by {
            if !m@.contains_key(line) {
                assert(first_row_for_line(rows@, line, k as int) is None);
            }
        }
        m
    }
}

/// The line entry that a row gives, with its path assembled as `row_path` says.
fn entry_for_row(row: &LineRow, comp_dir: &Option<String>) -> (e: LineEntry)
    ensures
        e@ == row_entry(*row, *comp_dir),
{
    let mut path: Vec<String> = Vec::new();
    match &row.file {
        None => {},
        Some(f) => {
            match comp_dir {
                Some(c) => path.push(clone_text(c)),
                None => {},
            }
            if f.dir_index != 0 {
                match &f.dir {
                    Some(d) => path.push(clone_text(d)),
                    None => {},
                }
            }
            path.push(clone_text(&f.name));
        },
    }
    let e = LineEntry { path, line: row.line, col: row.column };
    assert(e@.path =~= row_path(*row, *comp_dir));
    e
}

} // verus!
