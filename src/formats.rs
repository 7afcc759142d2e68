//! The recognised data formats, and how a format is named or detected.
use vstd::prelude::*;
use crate::errors::HylaeanError;
use crate::text::{contains_text, debug_of, debug_text, lower_of, lowercase, occurs_in, same_text, views};

verus! {

#[derive(Debug, Clone, PartialEq, Eq)]
pub enum DataFormat {
    PointCloud(PointCloudFormat),
    CameraParameters(CameraFormat),
    Dataset(DatasetFormat),
}

#[derive(Debug, Clone, PartialEq, Eq)]
pub enum PointCloudFormat {
    PLY,
    PCD,
    XYZ,
    LAZ,
    Custom(String),
}

#[derive(Debug, Clone, PartialEq, Eq)]
pub enum CameraFormat {
    COLMAP,
    NeRF,
    OpenCV,
    Blender,
    Custom(String),
}

#[derive(Debug, Clone, PartialEq, Eq)]
pub enum DatasetFormat {
    NeRFSynthetic,
    LLFF,
    TanksAndTemples,
    Custom(String),
}

/// A converter between the formats of one family.
pub trait FormatConverter {
    /// The pairs of formats that this converter takes on.
    spec fn accepts(&self, from: DataFormat, to: DataFormat) -> bool;

    fn can_convert(&self, from: &DataFormat, to: &DataFormat) -> (r: bool)
        ensures
            r == self.accepts(*from, *to),
    ;
}

/// The text `Custom("name")` that names a format outside the fixed set, the
/// name printed as `{:?}` prints a string.
pub open spec fn custom_label(name: Seq<char>) -> Seq<char> {
    "Custom("@ + debug_of(name) + ")"@
}

fn make_custom_label(name: &String) -> (r: String)
    ensures
        r@ == custom_label(name@),
{
    let mut r = String::from_str("Custom(");
    r.append(debug_text(name.as_str()).as_str());
    r.append(")");
    r
}

fn enclosed(opening: &str, inner: String) -> (r: String)
    ensures
        r@ == opening@ + inner@ + ")"@,
{
    let mut r = String::from_str(opening);
    r.append(inner.as_str());
    r.append(")");
    r
}

impl PointCloudFormat {
    pub open spec fn spec_label(&self) -> Seq<char> {
        match self {
            PointCloudFormat::PLY => "PLY"@,
            PointCloudFormat::PCD => "PCD"@,
            PointCloudFormat::XYZ => "XYZ"@,
            PointCloudFormat::LAZ => "LAZ"@,
            PointCloudFormat::Custom(name) => custom_label(name@),
        }
    }

    /// The name under which the format appears in messages.
    pub fn label(&self) -> (r: String)
        ensures
            r@ == self.spec_label(),
    {
        match self {
            PointCloudFormat::PLY => String::from_str("PLY"),
            PointCloudFormat::PCD => String::from_str("PCD"),
            PointCloudFormat::XYZ => String::from_str("XYZ"),
            PointCloudFormat::LAZ => String::from_str("LAZ"),
            PointCloudFormat::Custom(name) => make_custom_label(name),
        }
    }
}

impl CameraFormat {
    pub open spec fn spec_label(&self) -> Seq<char> {
        match self {
            CameraFormat::COLMAP => "COLMAP"@,
            CameraFormat::NeRF => "NeRF"@,
            CameraFormat::OpenCV => "OpenCV"@,
            CameraFormat::Blender => "Blender"@,
            CameraFormat::Custom(name) => custom_label(name@),
        }
    }

    /// The name under which the format appears in messages.
    pub fn label(&self) -> (r: String)
        ensures
            r@ == self.spec_label(),
    {
        match self {
            CameraFormat::COLMAP => String::from_str("COLMAP"),
            CameraFormat::NeRF => String::from_str("NeRF"),
            CameraFormat::OpenCV => String::from_str("OpenCV"),
            CameraFormat::Blender => String::from_str("Blender"),
            CameraFormat::Custom(name) => make_custom_label(name),
        }
    }
}

impl DatasetFormat {
    pub open spec fn spec_label(&self) -> Seq<char> {
        match self {
            DatasetFormat::NeRFSynthetic => "NeRFSynthetic"@,
            DatasetFormat::LLFF => "LLFF"@,
            DatasetFormat::TanksAndTemples => "TanksAndTemples"@,
            DatasetFormat::Custom(name) => custom_label(name@),
        }
    }

    /// The name under which the format appears in messages.
    pub fn label(&self) -> (r: String)
        ensures
            r@ == self.spec_label(),
    {
        match self {
            DatasetFormat::NeRFSynthetic => String::from_str("NeRFSynthetic"),
            DatasetFormat::LLFF => String::from_str("LLFF"),
            DatasetFormat::TanksAndTemples => String::from_str("TanksAndTemples"),
            DatasetFormat::Custom(name) => make_custom_label(name),
        }
    }
}

impl DataFormat {
    pub open spec fn spec_label(&self) -> Seq<char> {
        match self {
            DataFormat::PointCloud(f) => "PointCloud("@ + f.spec_label() + ")"@,
            DataFormat::CameraParameters(f) => "CameraParameters("@ + f.spec_label() + ")"@,
            DataFormat::Dataset(f) => "Dataset("@ + f.spec_label() + ")"@,
        }
    }

    /// The name under which the format appears in messages, with its family.
    pub fn label(&self) -> (r: String)
        ensures
            r@ == self.spec_label(),
    {
        match self {
            DataFormat::PointCloud(f) => enclosed("PointCloud(", f.label()),
            DataFormat::CameraParameters(f) => enclosed("CameraParameters(", f.label()),
            DataFormat::Dataset(f) => enclosed("Dataset(", f.label()),
        }
    }
}

/// The format that an explicit, already lower-cased format token names.
pub open spec fn token_format(t: Seq<char>) -> Option<DataFormat> {
    if t == "ply"@ {
        Some(DataFormat::PointCloud(PointCloudFormat::PLY))
    } else if t == "pcd"@ {
        Some(DataFormat::PointCloud(PointCloudFormat::PCD))
    } else if t == "xyz"@ {
        Some(DataFormat::PointCloud(PointCloudFormat::XYZ))
    } else if t == "laz"@ {
        Some(DataFormat::PointCloud(PointCloudFormat::LAZ))
    } else if t == "colmap"@ {
        Some(DataFormat::CameraParameters(CameraFormat::COLMAP))
    } else if t == "nerf"@ {
        Some(DataFormat::CameraParameters(CameraFormat::NeRF))
    } else if t == "opencv"@ {
        Some(DataFormat::CameraParameters(CameraFormat::OpenCV))
    } else if t == "blender"@ {
        Some(DataFormat::CameraParameters(CameraFormat::Blender))
    } else {
        None
    }
}

/// Among its first five lines, `head` has one that marks a COLMAP text file.
pub open spec fn mentions_camera_list(head: Seq<Seq<char>>) -> bool {
    exists|i: int|
        0 <= i < head.len() && i < 5 && (occurs_in(#[trigger] head[i], "# Camera list"@)
            || occurs_in(head[i], "# Image list"@))
}

/// The format that an already lower-cased file extension stands for; `head`
/// holds the file's leading lines, consulted for `txt` alone.
pub open spec fn extension_format(ext: Seq<char>, head: Seq<Seq<char>>) -> Option<DataFormat> {
    if ext == "ply"@ {
        Some(DataFormat::PointCloud(PointCloudFormat::PLY))
    } else if ext == "pcd"@ {
        Some(DataFormat::PointCloud(PointCloudFormat::PCD))
    } else if ext == "xyz"@ {
        Some(DataFormat::PointCloud(PointCloudFormat::XYZ))
    } else if ext == "laz"@ {
        Some(DataFormat::PointCloud(PointCloudFormat::LAZ))
    } else if ext == "txt"@ {
        if mentions_camera_list(head) {
            Some(DataFormat::CameraParameters(CameraFormat::COLMAP))
        } else {
            Some(DataFormat::PointCloud(PointCloudFormat::XYZ))
        }
    } else if ext == "json"@ {
        Some(DataFormat::CameraParameters(CameraFormat::NeRF))
    } else {
        None
    }
}

/// What `Path::extension` yields for a path: the text after the last `.` of
/// its final component, where there is one.
pub uninterp spec fn extension_of(path: Seq<char>) -> Option<Seq<char>>;

/// The extension of a path, or nothing where it has none.
pub open spec fn extension_text(path: Seq<char>) -> Seq<char> {
    match extension_of(path) {
        Some(e) => e,
        None => Seq::empty(),
    }
}

/// Relies on `Path::extension`, read as text (a `&str` path is valid UTF-8,
/// so nothing is lost).
#[verifier::external_body]
fn path_extension(path: &str) -> (r: Option<String>)
    ensures
        r matches Some(e) ==> extension_of(path@) == Some(e@),
        r is None ==> extension_of(path@) is None,
{
    match std::path::Path::new(path).extension() {
        Some(e) => Some(e.to_string_lossy().into_owned()),
        None => None,
    }
}

/// The extension of a path, or the empty string where it has none.
fn extension(path: &str) -> (r: String)
    ensures
        r@ == extension_text(path@),
{
    match path_extension(path) {
        Some(e) => e,
        None => String::new(),
    }
}

/// The format that an explicit, already lower-cased token names.
pub fn format_for_token(token: &str) -> (r: Option<DataFormat>)
    ensures
        r == token_format(token@),
{
    if same_text(token, "ply") {
        Some(DataFormat::PointCloud(PointCloudFormat::PLY))
    } else if same_text(token, "pcd") {
        Some(DataFormat::PointCloud(PointCloudFormat::PCD))
    } else if same_text(token, "xyz") {
        Some(DataFormat::PointCloud(PointCloudFormat::XYZ))
    } else if same_text(token, "laz") {
        Some(DataFormat::PointCloud(PointCloudFormat::LAZ))
    } else if same_text(token, "colmap") {
        Some(DataFormat::CameraParameters(CameraFormat::COLMAP))
    } else if same_text(token, "nerf") {
        Some(DataFormat::CameraParameters(CameraFormat::NeRF))
    } else if same_text(token, "opencv") {
        Some(DataFormat::CameraParameters(CameraFormat::OpenCV))
    } else if same_text(token, "blender") {
        Some(DataFormat::CameraParameters(CameraFormat::Blender))
    } else {
        None
    }
}

/// Reads an explicit format token, without regard to case.
pub fn parse_format(format_str: &str) -> (r: Result<DataFormat, HylaeanError>)
    ensures
        token_format(lower_of(format_str@)) matches Some(f) ==> r == Ok::<
            DataFormat,
            HylaeanError,
        >(f),
        token_format(lower_of(format_str@)) is None ==> (r matches Err(
            HylaeanError::UnsupportedFormat { format },
        ) && format@ == format_str@),
{
    let lowered = lowercase(format_str);
    match format_for_token(lowered.as_str()) {
        Some(f) => Ok(f),
        None => Err(HylaeanError::UnsupportedFormat { format: String::from_str(format_str) }),
    }
}

/// Whether one of the first five lines of `head` marks a COLMAP text file.
pub fn looks_like_camera_params(head: &Vec<String>) -> (r: bool)
    ensures
        r == mentions_camera_list(views(head@)),
{
    let mut i: usize = 0;
    while i < head.len() && i < 5
        invariant
            i <= head.len(),
            i <= 5,
            forall|k: int|
                0 <= k < i ==> !(occurs_in(#[trigger] views(head@)[k], "# Camera list"@)
                    || occurs_in(views(head@)[k], "# Image list"@)),
        decreases head.len() - i,
    {
        let line = head[i].as_str();
        if contains_text(line, "# Camera list") || contains_text(line, "# Image list") {
            assert(views(head@)[i as int] == head@[i as int]@);
            return true;
        }
        assert(views(head@)[i as int] == head@[i as int]@);
        i = i + 1;
    }
    false
}

/// The format that an already lower-cased extension stands for, the leading
/// lines `head` of the file deciding between the two readings of `txt`.
pub fn format_for_extension(ext: &str, head: &Vec<String>) -> (r: Option<DataFormat>)
    ensures
        r == extension_format(ext@, views(head@)),
{
    if same_text(ext, "ply") {
        Some(DataFormat::PointCloud(PointCloudFormat::PLY))
    } else if same_text(ext, "pcd") {
        Some(DataFormat::PointCloud(PointCloudFormat::PCD))
    } else if same_text(ext, "xyz") {
        Some(DataFormat::PointCloud(PointCloudFormat::XYZ))
    } else if same_text(ext, "laz") {
        Some(DataFormat::PointCloud(PointCloudFormat::LAZ))
    } else if same_text(ext, "txt") {
        if looks_like_camera_params(head) {
            Some(DataFormat::CameraParameters(CameraFormat::COLMAP))
        } else {
            Some(DataFormat::PointCloud(PointCloudFormat::XYZ))
        }
    } else if same_text(ext, "json") {
        Some(DataFormat::CameraParameters(CameraFormat::NeRF))
    } else {
        None
    }
}

/// Whether detecting the format of `path` reads the file's leading lines,
/// which is so for the `txt` extension alone.
pub fn sniffs_content(path: &str) -> (r: bool)
    ensures
        r == (lower_of(extension_text(path@)) == "txt"@),
{
    let ext = extension(path);
    let lowered = lowercase(ext.as_str());
    same_text(lowered.as_str(), "txt")
}

/// Detects the format of `path` from its extension, without regard to case;
/// `head` holds the file's leading lines (it may be empty where
/// `sniffs_content(path)` is false).
pub fn detect_format(path: &str, head: &Vec<String>) -> (r: Result<DataFormat, HylaeanError>)
    ensures
        extension_format(lower_of(extension_text(path@)), views(head@)) matches Some(f) ==> r
            == Ok::<DataFormat, HylaeanError>(f),
        extension_format(lower_of(extension_text(path@)), views(head@)) is None ==> (r matches Err(
            HylaeanError::UnsupportedFormat { format },
        ) && format@ == extension_text(path@)),
{
    let ext = extension(path);
    let lowered = lowercase(ext.as_str());
    match format_for_extension(lowered.as_str(), head) {
        Some(f) => Ok(f),
        None => Err(HylaeanError::UnsupportedFormat { format: ext }),
    }
}

} // verus!
