//! Translation among the ASCII point-cloud formats PLY, PCD and XYZ, on the
//! lines of a file.
use vstd::prelude::*;
use crate::errors::HylaeanError;
use crate::formats::{DataFormat, FormatConverter, PointCloudFormat};
use crate::text::{
    lemma_views_all, lemma_views_prefix, lemma_views_push, push_text,
    decimal_of, decimal_text, is_blank, is_blank_line, parse_unsigned, same_text, split_words,
    starts_with, unsigned_parse, views, words_of, has_prefix, is_solid, lemma_not_blank,
    lemma_words_solid,
};

verus! {

// ---------------------------------------------------------------------------
// The model
// ---------------------------------------------------------------------------

/// The vertex count that an `element vertex` header line declares: its third
/// word read as a `usize`, or 0 where there is none or it does not read.
pub open spec fn declared_vertices(line: Seq<char>) -> nat {
    let w = words_of(line);
    if w.len() > 2 {
        match unsigned_parse(w[2], usize::MAX as nat) {
            Some(v) => v,
            None => 0,
        }
    } else {
        0
    }
}

/// The state of a PLY reader: past `end_header` or not, the declared vertex
/// count, and the data rows accepted so far.
pub type PlyScan = (bool, nat, Seq<Seq<char>>);

pub open spec fn ply_step(st: PlyScan, line: Seq<char>) -> PlyScan {
    if has_prefix(line, "element vertex"@) {
        (st.0, declared_vertices(line), st.2)
    } else if line == "end_header"@ {
        (true, st.1, st.2)
    } else if st.0 && st.2.len() < st.1 && words_of(line).len() >= 3 {
        (st.0, st.1, st.2.push(line))
    } else {
        st
    }
}

/// The PLY reader after the given lines.
pub open spec fn ply_scan(lines: Seq<Seq<char>>) -> PlyScan
    decreases lines.len(),
{
    if lines.len() == 0 {
        (false, 0, Seq::empty())
    } else {
        ply_step(ply_scan(lines.drop_last()), lines.last())
    }
}

/// The vertex rows of a PLY file: after `end_header`, up to the declared
/// count, the lines with at least three words, kept whole.
pub open spec fn ply_rows(lines: Seq<Seq<char>>) -> Seq<Seq<char>> {
    ply_scan(lines).2
}

/// The state of a PCD reader: past `DATA ascii` or not, and the data rows so
/// far; `skip_points` says whether a `POINTS` line is passed over after the
/// data marker too.
pub type PcdScan = (bool, Seq<Seq<char>>);

pub open spec fn pcd_step(st: PcdScan, line: Seq<char>, skip_points: bool) -> PcdScan {
    if skip_points && has_prefix(line, "POINTS"@) {
        st
    } else if line == "DATA ascii"@ {
        (true, st.1)
    } else if st.0 && !is_blank_line(line) {
        (st.0, st.1.push(line))
    } else {
        st
    }
}

pub open spec fn pcd_scan(lines: Seq<Seq<char>>, skip_points: bool) -> PcdScan
    decreases lines.len(),
{
    if lines.len() == 0 {
        (false, Seq::empty())
    } else {
        pcd_step(pcd_scan(lines.drop_last(), skip_points), lines.last(), skip_points)
    }
}

/// The lines of `lines` that are not blank, in order.
pub open spec fn nonblank_rows(lines: Seq<Seq<char>>) -> Seq<Seq<char>>
    decreases lines.len(),
{
    if lines.len() == 0 {
        Seq::empty()
    } else if is_blank_line(lines.last()) {
        nonblank_rows(lines.drop_last())
    } else {
        nonblank_rows(lines.drop_last()).push(lines.last())
    }
}

/// The first three words of a row, joined by single spaces.
pub open spec fn xyz_row(line: Seq<char>) -> Seq<char> {
    let w = words_of(line);
    w[0] + " "@ + w[1] + " "@ + w[2]
}

pub open spec fn ply_header(n: nat) -> Seq<Seq<char>> {
    seq![
        "ply"@,
        "format ascii 1.0"@,
        "element vertex "@ + decimal_of(n),
        "property float x"@,
        "property float y"@,
        "property float z"@,
        "end_header"@,
    ]
}

pub open spec fn pcd_header(n: nat) -> Seq<Seq<char>> {
    seq![
        "# .PCD v0.7 - Point Cloud Data file format"@,
        "VERSION 0.7"@,
        "FIELDS x y z"@,
        "SIZE 4 4 4"@,
        "TYPE F F F"@,
        "COUNT 1 1 1"@,
        "WIDTH "@ + decimal_of(n),
        "HEIGHT 1"@,
        "VIEWPOINT 0 0 0 1 0 0 0"@,
        "POINTS "@ + decimal_of(n),
        "DATA ascii"@,
    ]
}

/// A PLY file holding `rows`, its header declaring their number.
pub open spec fn ply_document(rows: Seq<Seq<char>>) -> Seq<Seq<char>> {
    ply_header(rows.len()) + rows
}

/// A PCD file holding `rows`, its header declaring their number.
pub open spec fn pcd_document(rows: Seq<Seq<char>>) -> Seq<Seq<char>> {
    pcd_header(rows.len()) + rows
}

pub open spec fn ply_to_xyz_lines(lines: Seq<Seq<char>>) -> Seq<Seq<char>> {
    ply_rows(lines).map_values(|l: Seq<char>| xyz_row(l))
}

pub open spec fn xyz_to_ply_lines(lines: Seq<Seq<char>>) -> Seq<Seq<char>> {
    ply_document(nonblank_rows(lines))
}

pub open spec fn ply_to_pcd_lines(lines: Seq<Seq<char>>) -> Seq<Seq<char>> {
    pcd_document(ply_rows(lines))
}

pub open spec fn pcd_to_ply_lines(lines: Seq<Seq<char>>) -> Seq<Seq<char>> {
    ply_document(pcd_scan(lines, true).1)
}

pub open spec fn xyz_to_pcd_lines(lines: Seq<Seq<char>>) -> Seq<Seq<char>> {
    pcd_document(nonblank_rows(lines))
}

pub open spec fn pcd_to_xyz_lines(lines: Seq<Seq<char>>) -> Seq<Seq<char>> {
    pcd_scan(lines, false).1
}

/// The output lines for a pair of point-cloud formats, or `None` where the
/// pair has no conversion.
pub open spec fn point_cloud_output(
    from: PointCloudFormat,
    to: PointCloudFormat,
    lines: Seq<Seq<char>>,
) -> Option<Seq<Seq<char>>> {
    match (from, to) {
        (PointCloudFormat::PLY, PointCloudFormat::XYZ) => Some(ply_to_xyz_lines(lines)),
        (PointCloudFormat::XYZ, PointCloudFormat::PLY) => Some(xyz_to_ply_lines(lines)),
        (PointCloudFormat::PLY, PointCloudFormat::PCD) => Some(ply_to_pcd_lines(lines)),
        (PointCloudFormat::PCD, PointCloudFormat::PLY) => Some(pcd_to_ply_lines(lines)),
        (PointCloudFormat::XYZ, PointCloudFormat::PCD) => Some(xyz_to_pcd_lines(lines)),
        (PointCloudFormat::PCD, PointCloudFormat::XYZ) => Some(pcd_to_xyz_lines(lines)),
        _ => None,
    }
}

// ---------------------------------------------------------------------------
// Lemmas
// ---------------------------------------------------------------------------

/// Every accepted PLY row has at least three words.
proof fn lemma_ply_rows_wide(lines: Seq<Seq<char>>)
    ensures
        forall|k: int|
            0 <= k < ply_scan(lines).2.len() ==> words_of(#[trigger] ply_scan(lines).2[k]).len()
                >= 3,
    decreases lines.len(),
{
    if lines.len() > 0 {
        let st = ply_scan(lines.drop_last());
        lemma_ply_rows_wide(lines.drop_last());
        assert forall|k: int| 0 <= k < ply_scan(lines).2.len() implies words_of(
            #[trigger] ply_scan(lines).2[k],
        ).len() >= 3 by {
            if k < st.2.len() {
                assert(ply_scan(lines).2[k] == st.2[k]);
            }
        }
    }
}

// ---------------------------------------------------------------------------
// Executable parts
// ---------------------------------------------------------------------------

fn push_counted(out: &mut Vec<String>, label: &str, n: usize)
    ensures
        views(final(out)@) == views(old(out)@).push(label@ + decimal_of(n as nat)),
{
    let mut t = String::from_str(label);
    t.append(decimal_text(n).as_str());
    proof {
        lemma_views_push(out@, t);
    }
    out.push(t);
}

fn append_rows(out: &mut Vec<String>, rows: Vec<String>)
    ensures
        views(final(out)@) == views(old(out)@) + views(rows@),
{
    let ghost start = views(out@);
    let mut i: usize = 0;
    while i < rows.len()
        invariant
            i <= rows.len(),
            views(out@) == start + views(rows@).take(i as int),
        decreases rows.len() - i,
    {
        proof {
            lemma_views_push(out@, rows@[i as int]);
            lemma_views_prefix(rows@, i as int);
            assert(views(rows@).take(i + 1) == views(rows@).take(i as int).push(rows@[i as int]@));
        }
        out.push(rows[i].clone());
        i = i + 1;
    }
    proof {
        lemma_views_all(rows@);
    }
}

fn ply_header_lines(n: usize) -> (r: Vec<String>)
    ensures
        views(r@) == ply_header(n as nat),
{
    let mut r: Vec<String> = Vec::new();
    push_text(&mut r, "ply");
    push_text(&mut r, "format ascii 1.0");
    push_counted(&mut r, "element vertex ", n);
    push_text(&mut r, "property float x");
    push_text(&mut r, "property float y");
    push_text(&mut r, "property float z");
    push_text(&mut r, "end_header");
    assert(views(r@) =~= ply_header(n as nat));
    r
}

fn pcd_header_lines(n: usize) -> (r: Vec<String>)
    ensures
        views(r@) == pcd_header(n as nat),
{
    let mut r: Vec<String> = Vec::new();
    push_text(&mut r, "# .PCD v0.7 - Point Cloud Data file format");
    push_text(&mut r, "VERSION 0.7");
    push_text(&mut r, "FIELDS x y z");
    push_text(&mut r, "SIZE 4 4 4");
    push_text(&mut r, "TYPE F F F");
    push_text(&mut r, "COUNT 1 1 1");
    push_counted(&mut r, "WIDTH ", n);
    push_text(&mut r, "HEIGHT 1");
    push_text(&mut r, "VIEWPOINT 0 0 0 1 0 0 0");
    push_counted(&mut r, "POINTS ", n);
    push_text(&mut r, "DATA ascii");
    assert(views(r@) =~= pcd_header(n as nat));
    r
}

/// The vertex count that an `element vertex` line declares.
fn vertex_count_of(line: &str) -> (r: usize)
    ensures
        r == declared_vertices(line@),
{
    let w = split_words(line);
    if w.len() > 2 {
        assert(views(w@)[2] == w@[2]@);
        match parse_unsigned(w[2].as_str(), usize::MAX as u64) {
            Some(v) => v as usize,
            None => 0,
        }
    } else {
        0
    }
}

/// The vertex rows of a PLY file, kept whole.
fn scan_ply_rows(lines: &Vec<String>) -> (r: Vec<String>)
    ensures
        views(r@) == ply_rows(views(lines@)),
{
    let mut in_data = false;
    let mut declared: usize = 0;
    let mut rows: Vec<String> = Vec::new();
    let mut i: usize = 0;
    while i < lines.len()
        invariant
            i <= lines.len(),
            ply_scan(views(lines@).take(i as int)) == (in_data, declared as nat, views(rows@)),
        decreases lines.len() - i,
    {
        let line = lines[i].as_str();
        proof {
            lemma_views_prefix(lines@, i as int);
        }
        if starts_with(line, "element vertex") {
            declared = vertex_count_of(line);
        } else if same_text(line, "end_header") {
            in_data = true;
        } else if in_data && rows.len() < declared {
            let w = split_words(line);
            if w.len() >= 3 {
                proof {
                    lemma_views_push(rows@, lines@[i as int]);
                }
                rows.push(lines[i].clone());
            }
        }
        i = i + 1;
    }
    proof {
        lemma_views_all(lines@);
    }
    rows
}

/// The data rows of a PCD file, after its `DATA ascii` line.
fn scan_pcd_rows(lines: &Vec<String>, skip_points: bool) -> (r: Vec<String>)
    ensures
        views(r@) == pcd_scan(views(lines@), skip_points).1,
{
    let mut in_data = false;
    let mut rows: Vec<String> = Vec::new();
    let mut i: usize = 0;
    while i < lines.len()
        invariant
            i <= lines.len(),
            pcd_scan(views(lines@).take(i as int), skip_points) == (in_data, views(rows@)),
        decreases lines.len() - i,
    {
        let line = lines[i].as_str();
        proof {
            lemma_views_prefix(lines@, i as int);
        }
        if skip_points && starts_with(line, "POINTS") {
        } else if same_text(line, "DATA ascii") {
            in_data = true;
        } else if in_data && !is_blank(line) {
            proof {
                lemma_views_push(rows@, lines@[i as int]);
            }
            rows.push(lines[i].clone());
        }
        i = i + 1;
    }
    proof {
        lemma_views_all(lines@);
    }
    rows
}

/// The lines that are not blank, in order.
fn scan_nonblank_rows(lines: &Vec<String>) -> (r: Vec<String>)
    ensures
        views(r@) == nonblank_rows(views(lines@)),
{
    let mut rows: Vec<String> = Vec::new();
    let mut i: usize = 0;
    while i < lines.len()
        invariant
            i <= lines.len(),
            nonblank_rows(views(lines@).take(i as int)) == views(rows@),
        decreases lines.len() - i,
    {
        proof {
            lemma_views_prefix(lines@, i as int);
        }
        if !is_blank(lines[i].as_str()) {
            proof {
                lemma_views_push(rows@, lines@[i as int]);
            }
            rows.push(lines[i].clone());
        }
        i = i + 1;
    }
    proof {
        lemma_views_all(lines@);
    }
    rows
}

/// The first three words of a row, joined by single spaces.
fn xyz_row_text(line: &str) -> (r: String)
    requires
        words_of(line@).len() >= 3,
    ensures
        r@ == xyz_row(line@),
{
    let w = split_words(line);
    assert(views(w@)[0] == w@[0]@);
    assert(views(w@)[1] == w@[1]@);
    assert(views(w@)[2] == w@[2]@);
    let mut r = w[0].clone();
    r.append(" ");
    r.append(w[1].as_str());
    r.append(" ");
    r.append(w[2].as_str());
    r
}

fn ply_document_lines(rows: Vec<String>) -> (r: Vec<String>)
    ensures
        views(r@) == ply_document(views(rows@)),
{
    let mut out = ply_header_lines(rows.len());
    append_rows(&mut out, rows);
    out
}

fn pcd_document_lines(rows: Vec<String>) -> (r: Vec<String>)
    ensures
        views(r@) == pcd_document(views(rows@)),
{
    let mut out = pcd_header_lines(rows.len());
    append_rows(&mut out, rows);
    out
}

/// Converts between the ASCII point-cloud formats.
pub struct PointCloudConverter;

impl FormatConverter for PointCloudConverter {
    open spec fn accepts(&self, from: DataFormat, to: DataFormat) -> bool {
        from is PointCloud && to is PointCloud
    }

    fn can_convert(&self, from: &DataFormat, to: &DataFormat) -> (r: bool) {
        match (from, to) {
            (DataFormat::PointCloud(_), DataFormat::PointCloud(_)) => true,
            _ => false,
        }
    }
}

impl PointCloudConverter {
    pub fn new() -> Self {
        PointCloudConverter
    }

    /// PLY to XYZ: the first three words of each vertex row.
    pub fn ply_to_xyz(&self, lines: &Vec<String>) -> (r: Vec<String>)
        ensures
            views(r@) == ply_to_xyz_lines(views(lines@)),
    {
        let rows = scan_ply_rows(lines);
        proof {
            lemma_ply_rows_wide(views(lines@));
        }
        let mut out: Vec<String> = Vec::new();
        let mut i: usize = 0;
        while i < rows.len()
            invariant
                i <= rows.len(),
                views(rows@) == ply_rows(views(lines@)),
                forall|k: int|
                    0 <= k < views(rows@).len() ==> words_of(#[trigger] views(rows@)[k]).len() >= 3,
                views(out@) == views(rows@).take(i as int).map_values(|l: Seq<char>| xyz_row(l)),
            decreases rows.len() - i,
        {
            assert(views(rows@)[i as int] == rows@[i as int]@);
            let t = xyz_row_text(rows[i].as_str());
            proof {
                lemma_views_push(out@, t);
                assert(views(rows@).take(i + 1).map_values(|l: Seq<char>| xyz_row(l))
                    =~= views(rows@).take(i as int).map_values(|l: Seq<char>| xyz_row(l)).push(
                    xyz_row(rows@[i as int]@),
                ));
            }
            out.push(t);
            i = i + 1;
        }
        proof {
            lemma_views_all(rows@);
        }
        out
    }

    /// XYZ to PLY: every non-blank line, under a header counting them.
    pub fn xyz_to_ply(&self, lines: &Vec<String>) -> (r: Vec<String>)
        ensures
            views(r@) == xyz_to_ply_lines(views(lines@)),
    {
        ply_document_lines(scan_nonblank_rows(lines))
    }

    /// PLY to PCD: the vertex rows kept whole, under a PCD header.
    pub fn ply_to_pcd(&self, lines: &Vec<String>) -> (r: Vec<String>)
        ensures
            views(r@) == ply_to_pcd_lines(views(lines@)),
    {
        pcd_document_lines(scan_ply_rows(lines))
    }

    /// PCD to PLY: the data rows, under a header counting the rows found
    /// rather than the declared `POINTS`.
    pub fn pcd_to_ply(&self, lines: &Vec<String>) -> (r: Vec<String>)
        ensures
            views(r@) == pcd_to_ply_lines(views(lines@)),
    {
        ply_document_lines(scan_pcd_rows(lines, true))
    }

    /// XYZ to PCD: every non-blank line, under a PCD header counting them.
    pub fn xyz_to_pcd(&self, lines: &Vec<String>) -> (r: Vec<String>)
        ensures
            views(r@) == xyz_to_pcd_lines(views(lines@)),
    {
        pcd_document_lines(scan_nonblank_rows(lines))
    }

    /// PCD to XYZ: the non-blank lines after the `DATA ascii` marker.
    pub fn pcd_to_xyz(&self, lines: &Vec<String>) -> (r: Vec<String>)
        ensures
            views(r@) == pcd_to_xyz_lines(views(lines@)),
    {
        scan_pcd_rows(lines, false)
    }

    /// Converts the lines of a point-cloud file between two formats; a pair
    /// without a conversion fails with `ConversionFailed`, naming both.
    pub fn convert_point_cloud(
        &self,
        lines: &Vec<String>,
        from_format: &PointCloudFormat,
        to_format: &PointCloudFormat,
    ) -> (r: Result<Vec<String>, HylaeanError>)
        ensures
            point_cloud_output(*from_format, *to_format, views(lines@)) matches Some(out) ==> (r
                matches Ok(v) && views(v@) == out),
            point_cloud_output(*from_format, *to_format, views(lines@)) is None ==> (r matches Err(
                HylaeanError::ConversionFailed { source_format, target_format },
            ) && source_format@ == from_format.spec_label() && target_format@
                == to_format.spec_label()),
    {
        match (from_format, to_format) {
            (PointCloudFormat::PLY, PointCloudFormat::XYZ) => Ok(self.ply_to_xyz(lines)),
            (PointCloudFormat::XYZ, PointCloudFormat::PLY) => Ok(self.xyz_to_ply(lines)),
            (PointCloudFormat::PLY, PointCloudFormat::PCD) => Ok(self.ply_to_pcd(lines)),
            (PointCloudFormat::PCD, PointCloudFormat::PLY) => Ok(self.pcd_to_ply(lines)),
            (PointCloudFormat::XYZ, PointCloudFormat::PCD) => Ok(self.xyz_to_pcd(lines)),
            (PointCloudFormat::PCD, PointCloudFormat::XYZ) => Ok(self.pcd_to_xyz(lines)),
            _ => Err(
                HylaeanError::ConversionFailed {
                    source_format: from_format.label(),
                    target_format: to_format.label(),
                },
            ),
        }
    }

    /// Converts the lines of a file between two formats of the point-cloud
    /// family; anything else fails with `ConversionFailed`, naming both.
    pub fn convert(&self, lines: &Vec<String>, from: &DataFormat, to: &DataFormat) -> (r: Result<
        Vec<String>,
        HylaeanError,
    >)
        ensures
            (*from, *to) matches (DataFormat::PointCloud(f), DataFormat::PointCloud(t)) ==> (
            point_cloud_output(f, t, views(lines@)) matches Some(out) ==> (r matches Ok(v)
                && views(v@) == out)),
            (*from, *to) matches (DataFormat::PointCloud(f), DataFormat::PointCloud(t)) ==> (
            point_cloud_output(f, t, views(lines@)) is None ==> (r matches Err(
                HylaeanError::ConversionFailed { source_format, target_format },
            ) && source_format@ == f.spec_label() && target_format@ == t.spec_label())),
            !((*from, *to) matches (DataFormat::PointCloud(_), DataFormat::PointCloud(_))) ==> (r matches Err(
                HylaeanError::ConversionFailed { source_format, target_format },
            ) && source_format@ == from.spec_label() && target_format@ == to.spec_label()),
    {
        match (from, to) {
            (DataFormat::PointCloud(f), DataFormat::PointCloud(t)) => {
                self.convert_point_cloud(lines, f, t)
            },
            _ => Err(
                HylaeanError::ConversionFailed {
                    source_format: from.label(),
                    target_format: to.label(),
                },
            ),
        }
    }
}

// ---------------------------------------------------------------------------
// Laws
// ---------------------------------------------------------------------------

/// A PCD file whose `WIDTH` and `POINTS` fields both give the number of rows
/// after its eleven header lines.
pub open spec fn pcd_counts_agree(out: Seq<Seq<char>>) -> bool {
    &&& out.len() >= 11
    &&& out[6] == "WIDTH "@ + decimal_of((out.len() - 11) as nat)
    &&& out[9] == "POINTS "@ + decimal_of((out.len() - 11) as nat)
}

proof fn lemma_pcd_document_counts(rows: Seq<Seq<char>>)
    ensures
        pcd_counts_agree(pcd_document(rows)),
        pcd_document(rows).subrange(11, pcd_document(rows).len() as int) == rows,
{
    assert(pcd_document(rows).subrange(11, pcd_document(rows).len() as int) =~= rows);
}

/// Every PCD file the converter writes declares in `WIDTH` and in `POINTS`
/// the number of rows it then holds.
pub proof fn lemma_pcd_output_counts(lines: Seq<Seq<char>>)
    ensures
        pcd_counts_agree(ply_to_pcd_lines(lines)),
        pcd_counts_agree(xyz_to_pcd_lines(lines)),
{
    lemma_pcd_document_counts(ply_rows(lines));
    lemma_pcd_document_counts(nonblank_rows(lines));
}

proof fn lemma_nonblank_rows_keeps_all(lines: Seq<Seq<char>>)
    requires
        forall|i: int| 0 <= i < lines.len() ==> !is_blank_line(#[trigger] lines[i]),
    ensures
        nonblank_rows(lines) == lines,
    decreases lines.len(),
{
    if lines.len() > 0 {
        let prev = lines.drop_last();
        assert forall|i: int| 0 <= i < prev.len() implies !is_blank_line(#[trigger] prev[i]) by {
            assert(prev[i] == lines[i]);
        }
        lemma_nonblank_rows_keeps_all(prev);
        assert(!is_blank_line(lines[lines.len() - 1]));
        assert(prev.push(lines.last()) =~= lines);
    }
}

/// Every XYZ row made from a PLY vertex row holds a word.
proof fn lemma_xyz_rows_not_blank(lines: Seq<Seq<char>>)
    ensures
        forall|i: int|
            0 <= i < ply_to_xyz_lines(lines).len() ==> !is_blank_line(
                #[trigger] ply_to_xyz_lines(lines)[i],
            ),
{
    lemma_ply_rows_wide(lines);
    let rows = ply_rows(lines);
    assert forall|i: int| 0 <= i < ply_to_xyz_lines(lines).len() implies !is_blank_line(
        #[trigger] ply_to_xyz_lines(lines)[i],
    ) by {
        let l = rows[i];
        let w = words_of(l);
        lemma_words_solid(l);
        assert(is_solid(w[0]));
        let row = xyz_row(l);
        assert(row == ply_to_xyz_lines(lines)[i]);
        assert(row[0] == w[0][0]);
        lemma_not_blank(row, 0);
    }
}

/// Converting PLY to XYZ and back to PLY gives a header that declares as
/// many vertices as the intermediate XYZ lines have non-blank rows, which is
/// all of them: the number of vertex rows read from the first PLY. Those
/// rows follow the header unchanged.
pub proof fn lemma_ply_xyz_round_trip_count(lines: Seq<Seq<char>>)
    ensures
        xyz_to_ply_lines(ply_to_xyz_lines(lines))[2] == "element vertex "@ + decimal_of(
            nonblank_rows(ply_to_xyz_lines(lines)).len(),
        ),
        nonblank_rows(ply_to_xyz_lines(lines)) == ply_to_xyz_lines(lines),
        nonblank_rows(ply_to_xyz_lines(lines)).len() == ply_rows(lines).len(),
        xyz_to_ply_lines(ply_to_xyz_lines(lines)).subrange(
            7,
            xyz_to_ply_lines(ply_to_xyz_lines(lines)).len() as int,
        ) == ply_to_xyz_lines(lines),
{
    let x = ply_to_xyz_lines(lines);
    lemma_xyz_rows_not_blank(lines);
    lemma_nonblank_rows_keeps_all(x);
    assert(xyz_to_ply_lines(x).subrange(7, xyz_to_ply_lines(x).len() as int) =~= x);
}

} // verus!
