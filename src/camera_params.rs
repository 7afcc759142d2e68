//! Camera-parameter files: which conversions exist, reading the rows of
//! COLMAP text files, and laying out the lines of COLMAP and OpenCV text
//! files. Numeric pose and intrinsic fields travel as text here; turning them
//! into numbers is left to the caller.
use vstd::prelude::*;
use crate::errors::HylaeanError;
use crate::formats::{CameraFormat, DataFormat, FormatConverter};
use crate::text::{
    lemma_views_all, lemma_views_prefix, lemma_views_push, push_text,
    decimal_of, decimal_text, has_prefix, is_blank, is_blank_line, parse_unsigned, split_words,
    starts_with, unsigned_parse, views, words_of,
};

verus! {

/// The conversions between camera-parameter formats that exist.
#[derive(Debug, Clone, Copy, PartialEq, Eq)]
pub enum CameraRoute {
    ColmapToNerf,
    NerfToColmap,
    ColmapToOpenCv,
    OpenCvToColmap,
}

pub open spec fn camera_route(from: CameraFormat, to: CameraFormat) -> Option<CameraRoute> {
    match (from, to) {
        (CameraFormat::COLMAP, CameraFormat::NeRF) => Some(CameraRoute::ColmapToNerf),
        (CameraFormat::NeRF, CameraFormat::COLMAP) => Some(CameraRoute::NerfToColmap),
        (CameraFormat::COLMAP, CameraFormat::OpenCV) => Some(CameraRoute::ColmapToOpenCv),
        (CameraFormat::OpenCV, CameraFormat::COLMAP) => Some(CameraRoute::OpenCvToColmap),
        _ => None,
    }
}

/// A row of a COLMAP `cameras.txt`, its parameters still as text.
#[derive(Debug, Clone)]
pub struct CameraRow {
    pub camera_id: u32,
    pub model: String,
    pub width: u32,
    pub height: u32,
    pub params: Vec<String>,
}

/// A row of a COLMAP `images.txt`; `pose` holds the texts of
/// `QW QX QY QZ TX TY TZ`.
#[derive(Debug, Clone)]
pub struct ImageRow {
    pub image_id: u32,
    pub pose: Vec<String>,
    pub camera_id: u32,
    pub name: String,
}

/// A NeRF frame as a COLMAP image needs it: its file path, and the texts of
/// its pose `QW QX QY QZ TX TY TZ`.
#[derive(Debug, Clone)]
pub struct FramePose {
    pub file_path: String,
    pub pose: Vec<String>,
}

/// The `images.txt` line for the frame at index `i`: image `i + 1` (kept to
/// 32 bits, as the id is a `u32`), of camera 1, named by its file path.
pub open spec fn nerf_image_line(i: int, frame: FramePose) -> Seq<char> {
    joined(
        seq![decimal_of(((i + 1) % 0x1_0000_0000) as nat)] + views(frame.pose@) + seq![
            decimal_of(1),
            frame.file_path@,
        ],
    )
}

/// A line that holds a record: neither a `#` comment nor blank.
pub open spec fn is_record_line(line: Seq<char>) -> bool {
    !has_prefix(line, "#"@) && !is_blank_line(line)
}

/// The record lines of a COLMAP text file that have at least `min_words`
/// words, in order.
pub open spec fn record_lines(lines: Seq<Seq<char>>, min_words: nat) -> Seq<Seq<char>>
    decreases lines.len(),
{
    if lines.len() == 0 {
        Seq::empty()
    } else {
        let prev = record_lines(lines.drop_last(), min_words);
        let l = lines.last();
        if is_record_line(l) && words_of(l).len() >= min_words {
            prev.push(l)
        } else {
            prev
        }
    }
}

/// A `u32` field read leniently: its value, or 0 where it does not read.
pub open spec fn u32_or_zero(t: Seq<char>) -> u32 {
    match unsigned_parse(t, u32::MAX as nat) {
        Some(v) => v as u32,
        None => 0,
    }
}

/// `row` is what the line `CAMERA_ID MODEL WIDTH HEIGHT PARAMS...` holds.
pub open spec fn camera_row_of(row: CameraRow, line: Seq<char>) -> bool {
    let w = words_of(line);
    &&& w.len() >= 5
    &&& row.camera_id == u32_or_zero(w[0])
    &&& row.model@ == w[1]
    &&& row.width == u32_or_zero(w[2])
    &&& row.height == u32_or_zero(w[3])
    &&& views(row.params@) == w.subrange(4, w.len() as int)
}

/// `row` is what the line `IMAGE_ID QW QX QY QZ TX TY TZ CAMERA_ID NAME`
/// holds; words after the tenth are ignored.
pub open spec fn image_row_of(row: ImageRow, line: Seq<char>) -> bool {
    let w = words_of(line);
    &&& w.len() >= 10
    &&& row.image_id == u32_or_zero(w[0])
    &&& views(row.pose@) == w.subrange(1, 8)
    &&& row.camera_id == u32_or_zero(w[8])
    &&& row.name@ == w[9]
}

/// `words` joined by single spaces.
pub open spec fn joined(words: Seq<Seq<char>>) -> Seq<char>
    decreases words.len(),
{
    if words.len() == 0 {
        Seq::empty()
    } else if words.len() == 1 {
        words[0]
    } else {
        joined(words.drop_last()) + " "@ + words.last()
    }
}

/// Each of `rows` followed by an empty line.
pub open spec fn with_blank_lines(rows: Seq<Seq<char>>) -> Seq<Seq<char>>
    decreases rows.len(),
{
    if rows.len() == 0 {
        Seq::empty()
    } else {
        with_blank_lines(rows.drop_last()) + seq![rows.last(), Seq::empty()]
    }
}

pub open spec fn colmap_cameras_header() -> Seq<Seq<char>> {
    seq![
        "# Camera list with one line of data per camera:"@,
        "# CAMERA_ID, MODEL, WIDTH, HEIGHT, PARAMS[]"@,
    ]
}

pub open spec fn colmap_images_header() -> Seq<Seq<char>> {
    seq![
        "# Image list with two lines of data per image:"@,
        "# IMAGE_ID, QW, QX, QY, QZ, TX, TY, TZ, CAMERA_ID, NAME"@,
    ]
}

pub open spec fn opencv_header() -> Seq<Seq<char>> {
    seq![
        "# OpenCV camera parameters converted from COLMAP"@,
        "# Format: camera_id width height fx fy cx cy"@,
    ]
}

// ---------------------------------------------------------------------------
// Executable parts
// ---------------------------------------------------------------------------

/// Whether a line of a COLMAP text file holds a record.
fn holds_record(line: &str) -> (r: bool)
    ensures
        r == is_record_line(line@),
{
    !starts_with(line, "#") && !is_blank(line)
}

/// A `u32` field read leniently: its value, or 0 where it does not read.
pub fn parse_u32_or_zero(t: &str) -> (r: u32)
    ensures
        r == u32_or_zero(t@),
{
    match parse_unsigned(t, u32::MAX as u64) {
        Some(v) => v as u32,
        None => 0,
    }
}

/// The words `words[from..to]`, copied.
fn word_range(words: &Vec<String>, from: usize, to: usize) -> (r: Vec<String>)
    requires
        from <= to <= words.len(),
    ensures
        views(r@) == views(words@).subrange(from as int, to as int),
{
    let mut r: Vec<String> = Vec::new();
    let mut i: usize = from;
    while i < to
        invariant
            from <= i <= to <= words.len(),
            views(r@) == views(words@).subrange(from as int, i as int),
        decreases to - i,
    {
        proof {
            lemma_views_push(r@, words@[i as int]);
            assert(views(words@).subrange(from as int, i + 1) =~= views(words@).subrange(
                from as int,
                i as int,
            ).push(words@[i as int]@));
        }
        r.push(words[i].clone());
        i = i + 1;
    }
    r
}

/// Reads one record line of `cameras.txt`; `None` where it has fewer than
/// five words.
pub fn parse_camera_line(line: &str) -> (r: Option<CameraRow>)
    ensures
        r matches Some(row) ==> camera_row_of(row, line@),
        r is None <==> words_of(line@).len() < 5,
{
    let w = split_words(line);
    if w.len() < 5 {
        return None;
    }
    assert(views(w@)[0] == w@[0]@);
    assert(views(w@)[1] == w@[1]@);
    assert(views(w@)[2] == w@[2]@);
    assert(views(w@)[3] == w@[3]@);
    let params = word_range(&w, 4, w.len());
    Some(
        CameraRow {
            camera_id: parse_u32_or_zero(w[0].as_str()),
            model: String::from_str(w[1].as_str()),
            width: parse_u32_or_zero(w[2].as_str()),
            height: parse_u32_or_zero(w[3].as_str()),
            params,
        },
    )
}

/// Reads one record line of `images.txt`; `None` where it has fewer than ten
/// words.
pub fn parse_image_line(line: &str) -> (r: Option<ImageRow>)
    ensures
        r matches Some(row) ==> image_row_of(row, line@),
        r is None <==> words_of(line@).len() < 10,
{
    let w = split_words(line);
    if w.len() < 10 {
        return None;
    }
    assert(views(w@)[0] == w@[0]@);
    assert(views(w@)[8] == w@[8]@);
    assert(views(w@)[9] == w@[9]@);
    let pose = word_range(&w, 1, 8);
    Some(
        ImageRow {
            image_id: parse_u32_or_zero(w[0].as_str()),
            pose,
            camera_id: parse_u32_or_zero(w[8].as_str()),
            name: String::from_str(w[9].as_str()),
        },
    )
}

/// Joins words with single spaces.
pub fn join_words(words: &Vec<String>) -> (r: String)
    ensures
        r@ == joined(views(words@)),
{
    let mut r = String::new();
    let mut i: usize = 0;
    while i < words.len()
        invariant
            i <= words.len(),
            r@ == joined(views(words@).take(i as int)),
        decreases words.len() - i,
    {
        proof {
            lemma_views_prefix(words@, i as int);
        }
        if i > 0 {
            r.append(" ");
        }
        r.append(words[i].as_str());
        proof {
            if i == 0 {
                assert(views(words@).take(1) =~= seq![words@[0]@]);
            }
        }
        i = i + 1;
    }
    proof {
        lemma_views_all(words@);
    }
    r
}

/// The line `CAMERA_ID MODEL WIDTH HEIGHT PARAMS...` of `cameras.txt`, the
/// parameters given as text.
pub fn colmap_camera_line(camera_id: u32, model: &str, width: u32, height: u32, params: &Vec<
    String,
>) -> (r: String)
    ensures
        r@ == joined(
            seq![
                decimal_of(camera_id as nat),
                model@,
                decimal_of(width as nat),
                decimal_of(height as nat),
            ] + views(params@),
        ),
{
    let mut w: Vec<String> = Vec::new();
    w.push(decimal_text(camera_id as usize));
    w.push(String::from_str(model));
    w.push(decimal_text(width as usize));
    w.push(decimal_text(height as usize));
    let mut i: usize = 0;
    while i < params.len()
        invariant
            i <= params.len(),
            views(w@) == seq![
                decimal_of(camera_id as nat),
                model@,
                decimal_of(width as nat),
                decimal_of(height as nat),
            ] + views(params@).take(i as int),
        decreases params.len() - i,
    {
        proof {
            lemma_views_push(w@, params@[i as int]);
            lemma_views_prefix(params@, i as int);
            assert(views(params@).take(i + 1) == views(params@).take(i as int).push(
                params@[i as int]@,
            ));
        }
        w.push(params[i].clone());
        i = i + 1;
    }
    proof {
        lemma_views_all(params@);
    }
    join_words(&w)
}

/// The line `IMAGE_ID QW QX QY QZ TX TY TZ CAMERA_ID NAME` of `images.txt`,
/// the seven pose values given as text.
pub fn colmap_image_line(image_id: u32, pose: &Vec<String>, camera_id: u32, name: &str) -> (r:
    String)
    ensures
        r@ == joined(
            seq![decimal_of(image_id as nat)] + views(pose@) + seq![
                decimal_of(camera_id as nat),
                name@,
            ],
        ),
{
    let mut w: Vec<String> = Vec::new();
    w.push(decimal_text(image_id as usize));
    let mut i: usize = 0;
    while i < pose.len()
        invariant
            i <= pose.len(),
            views(w@) == seq![decimal_of(image_id as nat)] + views(pose@).take(i as int),
        decreases pose.len() - i,
    {
        proof {
            lemma_views_push(w@, pose@[i as int]);
            lemma_views_prefix(pose@, i as int);
            assert(views(pose@).take(i + 1) == views(pose@).take(i as int).push(pose@[i as int]@));
        }
        w.push(pose[i].clone());
        i = i + 1;
    }
    proof {
        lemma_views_all(pose@);
    }
    let id_text = decimal_text(camera_id as usize);
    proof {
        lemma_views_push(w@, id_text);
    }
    w.push(id_text);
    let name_text = String::from_str(name);
    proof {
        lemma_views_push(w@, name_text);
    }
    w.push(name_text);
    assert(views(w@) =~= seq![decimal_of(image_id as nat)] + views(pose@) + seq![
        decimal_of(camera_id as nat),
        name@,
    ]);
    join_words(&w)
}

/// Converts between camera-parameter formats.
pub struct CameraParamsConverter;

impl FormatConverter for CameraParamsConverter {
    open spec fn accepts(&self, from: DataFormat, to: DataFormat) -> bool {
        from is CameraParameters && to is CameraParameters
    }

    fn can_convert(&self, from: &DataFormat, to: &DataFormat) -> (r: bool) {
        match (from, to) {
            (DataFormat::CameraParameters(_), DataFormat::CameraParameters(_)) => true,
            _ => false,
        }
    }
}

impl CameraParamsConverter {
    pub fn new() -> Self {
        CameraParamsConverter
    }

    /// The conversion between two camera formats; a pair without one fails
    /// with `ConversionFailed`, naming both.
    pub fn camera_route(&self, from_format: &CameraFormat, to_format: &CameraFormat) -> (r: Result<
        CameraRoute,
        HylaeanError,
    >)
        ensures
            camera_route(*from_format, *to_format) matches Some(c) ==> r == Ok::<
                CameraRoute,
                HylaeanError,
            >(c),
            camera_route(*from_format, *to_format) is None ==> (r matches Err(
                HylaeanError::ConversionFailed { source_format, target_format },
            ) && source_format@ == from_format.spec_label() && target_format@
                == to_format.spec_label()),
    {
        match (from_format, to_format) {
            (CameraFormat::COLMAP, CameraFormat::NeRF) => Ok(CameraRoute::ColmapToNerf),
            (CameraFormat::NeRF, CameraFormat::COLMAP) => Ok(CameraRoute::NerfToColmap),
            (CameraFormat::COLMAP, CameraFormat::OpenCV) => Ok(CameraRoute::ColmapToOpenCv),
            (CameraFormat::OpenCV, CameraFormat::COLMAP) => Ok(CameraRoute::OpenCvToColmap),
            _ => Err(
                HylaeanError::ConversionFailed {
                    source_format: from_format.label(),
                    target_format: to_format.label(),
                },
            ),
        }
    }

    /// The rows of a COLMAP `cameras.txt`: one for each record line with at
    /// least five words, in order.
    pub fn read_colmap_cameras(&self, lines: &Vec<String>) -> (r: Vec<CameraRow>)
        ensures
            r.len() == record_lines(views(lines@), 5).len(),
            forall|k: int|
                0 <= k < r.len() ==> camera_row_of(#[trigger] r@[k], record_lines(views(lines@), 5)[k]),
    {
        let mut rows: Vec<CameraRow> = Vec::new();
        let mut i: usize = 0;
        while i < lines.len()
            invariant
                i <= lines.len(),
                rows.len() == record_lines(views(lines@).take(i as int), 5).len(),
                forall|k: int|
                    0 <= k < rows.len() ==> camera_row_of(
                        #[trigger] rows@[k],
                        record_lines(views(lines@).take(i as int), 5)[k],
                    ),
            decreases lines.len() - i,
        {
            proof {
                lemma_views_prefix(lines@, i as int);
            }
            let line = lines[i].as_str();
            if holds_record(line) {
                match parse_camera_line(line) {
                    Some(row) => {
                        rows.push(row);
                    },
                    None => {},
                }
            }
            i = i + 1;
        }
        proof {
            lemma_views_all(lines@);
        }
        rows
    }

    /// The rows of a COLMAP `images.txt`: one for each record line with at
    /// least ten words, in order.
    pub fn read_colmap_images(&self, lines: &Vec<String>) -> (r: Vec<ImageRow>)
        ensures
            r.len() == record_lines(views(lines@), 10).len(),
            forall|k: int|
                0 <= k < r.len() ==> image_row_of(#[trigger] r@[k], record_lines(views(lines@), 10)[k]),
    {
        let mut rows: Vec<ImageRow> = Vec::new();
        let mut i: usize = 0;
        while i < lines.len()
            invariant
                i <= lines.len(),
                rows.len() == record_lines(views(lines@).take(i as int), 10).len(),
                forall|k: int|
                    0 <= k < rows.len() ==> image_row_of(
                        #[trigger] rows@[k],
                        record_lines(views(lines@).take(i as int), 10)[k],
                    ),
            decreases lines.len() - i,
        {
            proof {
                lemma_views_prefix(lines@, i as int);
            }
            let line = lines[i].as_str();
            if holds_record(line) {
                match parse_image_line(line) {
                    Some(row) => {
                        rows.push(row);
                    },
                    None => {},
                }
            }
            i = i + 1;
        }
        proof {
            lemma_views_all(lines@);
        }
        rows
    }

    /// The index of the camera whose intrinsics a NeRF file takes: the
    /// first; `ConversionFailed` from COLMAP to NeRF where there is none.
    pub fn nerf_camera_index(&self, cameras: &Vec<CameraRow>) -> (r: Result<usize, HylaeanError>)
        ensures
            cameras.len() > 0 ==> r == Ok::<usize, HylaeanError>(0),
            cameras.len() == 0 ==> (r matches Err(
                HylaeanError::ConversionFailed { source_format, target_format },
            ) && source_format@ == "COLMAP"@ && target_format@ == "NeRF"@),
    {
        if cameras.len() > 0 {
            Ok(0)
        } else {
            Err(
                HylaeanError::ConversionFailed {
                    source_format: String::from_str("COLMAP"),
                    target_format: String::from_str("NeRF"),
                },
            )
        }
    }

    /// The one `cameras.txt` line written for a NeRF file: camera 1, a
    /// 640 by 480 `PINHOLE`, with the given parameter texts.
    pub fn nerf_camera_lines(&self, params: &Vec<String>) -> (r: Vec<String>)
        ensures
            r.len() == 1,
            r[0]@ == joined(
                seq![decimal_of(1), "PINHOLE"@, decimal_of(640), decimal_of(480)] + views(params@),
            ),
    {
        let mut r: Vec<String> = Vec::new();
        r.push(colmap_camera_line(1, "PINHOLE", 640, 480, params));
        r
    }

    /// The `images.txt` lines for NeRF frames, one for each, in order.
    pub fn nerf_image_lines(&self, frames: &Vec<FramePose>) -> (r: Vec<String>)
        ensures
            r.len() == frames.len(),
            forall|i: int| 0 <= i < r.len() ==> #[trigger] r[i]@ == nerf_image_line(i, frames[i]),
    {
        let mut r: Vec<String> = Vec::new();
        let mut i: usize = 0;
        while i < frames.len()
            invariant
                i <= frames.len(),
                r.len() == i,
                forall|k: int| 0 <= k < i ==> #[trigger] r[k]@ == nerf_image_line(k, frames[k]),
            decreases frames.len() - i,
        {
            let id: u32 = (((i as u64) + 1) % 0x1_0000_0000) as u32;
            let line = colmap_image_line(id, &frames[i].pose, 1, frames[i].file_path.as_str());
            r.push(line);
            i = i + 1;
        }
        r
    }

    /// The lines of a COLMAP `cameras.txt` holding the given camera lines.
    pub fn colmap_cameras_file(&self, camera_lines: &Vec<String>) -> (r: Vec<String>)
        ensures
            views(r@) == colmap_cameras_header() + views(camera_lines@),
    {
        let mut out: Vec<String> = Vec::new();
        push_text(&mut out, "# Camera list with one line of data per camera:");
        push_text(&mut out, "# CAMERA_ID, MODEL, WIDTH, HEIGHT, PARAMS[]");
        let mut i: usize = 0;
        while i < camera_lines.len()
            invariant
                i <= camera_lines.len(),
                views(out@) == colmap_cameras_header() + views(camera_lines@).take(i as int),
            decreases camera_lines.len() - i,
        {
            proof {
                lemma_views_push(out@, camera_lines@[i as int]);
                lemma_views_prefix(camera_lines@, i as int);
                assert(views(camera_lines@).take(i + 1) == views(camera_lines@).take(
                    i as int,
                ).push(camera_lines@[i as int]@));
            }
            out.push(camera_lines[i].clone());
            i = i + 1;
        }
        proof {
            lemma_views_all(camera_lines@);
        }
        out
    }

    /// The lines of a COLMAP `images.txt` holding the given image lines, each
    /// followed by the empty line that stands for its unread point list.
    pub fn colmap_images_file(&self, image_lines: &Vec<String>) -> (r: Vec<String>)
        ensures
            views(r@) == colmap_images_header() + with_blank_lines(views(image_lines@)),
    {
        let mut out: Vec<String> = Vec::new();
        push_text(&mut out, "# Image list with two lines of data per image:");
        push_text(&mut out, "# IMAGE_ID, QW, QX, QY, QZ, TX, TY, TZ, CAMERA_ID, NAME");
        let mut i: usize = 0;
        while i < image_lines.len()
            invariant
                i <= image_lines.len(),
                views(out@) == colmap_images_header() + with_blank_lines(
                    views(image_lines@).take(i as int),
                ),
            decreases image_lines.len() - i,
        {
            proof {
                lemma_views_push(out@, image_lines@[i as int]);
                lemma_views_prefix(image_lines@, i as int);
            }
            out.push(image_lines[i].clone());
            let empty = String::new();
            proof {
                lemma_views_push(out@, empty);
            }
            out.push(empty);
            assert(views(out@) =~= colmap_images_header() + with_blank_lines(
                views(image_lines@).take(i + 1),
            ));
            i = i + 1;
        }
        proof {
            lemma_views_all(image_lines@);
        }
        out
    }

    /// The lines of the OpenCV text file holding the given camera lines.
    pub fn opencv_file(&self, camera_lines: &Vec<String>) -> (r: Vec<String>)
        ensures
            views(r@) == opencv_header() + views(camera_lines@),
    {
        let mut out: Vec<String> = Vec::new();
        push_text(&mut out, "# OpenCV camera parameters converted from COLMAP");
        push_text(&mut out, "# Format: camera_id width height fx fy cx cy");
        let mut i: usize = 0;
        while i < camera_lines.len()
            invariant
                i <= camera_lines.len(),
                views(out@) == opencv_header() + views(camera_lines@).take(i as int),
            decreases camera_lines.len() - i,
        {
            proof {
                lemma_views_push(out@, camera_lines@[i as int]);
                lemma_views_prefix(camera_lines@, i as int);
                assert(views(camera_lines@).take(i + 1) == views(camera_lines@).take(
                    i as int,
                ).push(camera_lines@[i as int]@));
            }
            out.push(camera_lines[i].clone());
            i = i + 1;
        }
        proof {
            lemma_views_all(camera_lines@);
        }
        out
    }

    /// What OpenCV to COLMAP writes: the `cameras.txt` header alone, the
    /// conversion itself being a placeholder.
    pub fn opencv_to_colmap(&self) -> (r: Vec<String>)
        ensures
            views(r@) == colmap_cameras_header(),
    {
        let mut out: Vec<String> = Vec::new();
        push_text(&mut out, "# Camera list with one line of data per camera:");
        push_text(&mut out, "# CAMERA_ID, MODEL, WIDTH, HEIGHT, PARAMS[]");
        assert(views(out@) =~= colmap_cameras_header());
        out
    }
}

} // verus!
