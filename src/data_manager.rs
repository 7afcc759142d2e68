//! The conversion dispatcher: resolves the two formats of a request and picks
//! the conversion, refusing an unsupported request before any file is
//! touched.
use vstd::prelude::*;
use crate::camera_params::{camera_route, CameraParamsConverter, CameraRoute};
use crate::errors::HylaeanError;
use crate::formats::{
    detect_format, extension_format, extension_text, parse_format, token_format, CameraFormat,
    DataFormat, PointCloudFormat,
};
use crate::text::{lower_of, views};

verus! {

/// What a conversion request resolves to.
#[derive(Debug, Clone, PartialEq, Eq)]
pub enum ConversionPlan {
    PointCloud(PointCloudFormat, PointCloudFormat),
    Camera(CameraRoute),
}

/// The pairs of point-cloud formats that have a conversion.
pub open spec fn point_cloud_pair_supported(from: PointCloudFormat, to: PointCloudFormat) -> bool {
    match (from, to) {
        (PointCloudFormat::PLY, PointCloudFormat::XYZ) => true,
        (PointCloudFormat::XYZ, PointCloudFormat::PLY) => true,
        (PointCloudFormat::PLY, PointCloudFormat::PCD) => true,
        (PointCloudFormat::PCD, PointCloudFormat::PLY) => true,
        (PointCloudFormat::XYZ, PointCloudFormat::PCD) => true,
        (PointCloudFormat::PCD, PointCloudFormat::XYZ) => true,
        _ => false,
    }
}

/// The conversion between two resolved formats, if there is one.
pub open spec fn plan_for(from: DataFormat, to: DataFormat) -> Option<ConversionPlan> {
    match (from, to) {
        (DataFormat::PointCloud(f), DataFormat::PointCloud(t)) => {
            if point_cloud_pair_supported(f, t) {
                Some(ConversionPlan::PointCloud(f, t))
            } else {
                None
            }
        },
        (DataFormat::CameraParameters(f), DataFormat::CameraParameters(t)) => {
            match camera_route(f, t) {
                Some(c) => Some(ConversionPlan::Camera(c)),
                None => None,
            }
        },
        _ => None,
    }
}

/// The two names that a refused request reports: the formats themselves
/// within one family, with their family across two.
pub open spec fn refusal_names(from: DataFormat, to: DataFormat) -> (Seq<char>, Seq<char>) {
    match (from, to) {
        (DataFormat::PointCloud(f), DataFormat::PointCloud(t)) => (f.spec_label(), t.spec_label()),
        (DataFormat::CameraParameters(f), DataFormat::CameraParameters(t)) => (
            f.spec_label(),
            t.spec_label(),
        ),
        _ => (from.spec_label(), to.spec_label()),
    }
}

/// The input format of a request: the given token's, else the one detected
/// from the path (and, for `txt`, the file's leading lines `head`).
pub open spec fn requested_input(
    path: Seq<char>,
    head: Seq<Seq<char>>,
    given: Option<Seq<char>>,
) -> Option<DataFormat> {
    match given {
        Some(g) => token_format(lower_of(g)),
        None => extension_format(lower_of(extension_text(path)), head),
    }
}

/// The text an unrecognised input format is reported under.
pub open spec fn input_format_name(path: Seq<char>, given: Option<Seq<char>>) -> Seq<char> {
    match given {
        Some(g) => g,
        None => extension_text(path),
    }
}

pub open spec fn given_view(given: Option<&str>) -> Option<Seq<char>> {
    match given {
        Some(g) => Some(g@),
        None => None,
    }
}

/// Resolves and checks conversion requests.
pub struct DataManager {
    conversion_cache: String,
}

impl DataManager {
    pub closed spec fn spec_conversion_cache(&self) -> Seq<char> {
        self.conversion_cache@
    }

    /// A dispatcher whose conversions are cached under the given directory.
    pub fn new(conversion_cache: String) -> (r: Self)
        ensures
            r.spec_conversion_cache() == conversion_cache@,
    {
        DataManager { conversion_cache }
    }

    /// The directory under which conversions are cached.
    pub fn conversion_cache(&self) -> (r: &str)
        ensures
            r@ == self.spec_conversion_cache(),
    {
        self.conversion_cache.as_str()
    }

    /// Reads an explicit format token.
    pub fn parse_format(&self, format_str: &str) -> (r: Result<DataFormat, HylaeanError>)
        ensures
            token_format(lower_of(format_str@)) matches Some(f) ==> r == Ok::<
                DataFormat,
                HylaeanError,
            >(f),
            token_format(lower_of(format_str@)) is None ==> (r matches Err(
                HylaeanError::UnsupportedFormat { format },
            ) && format@ == format_str@),
    {
        parse_format(format_str)
    }

    /// Detects the format of a file from its path and leading lines.
    pub fn detect_format(&self, path: &str, head: &Vec<String>) -> (r: Result<
        DataFormat,
        HylaeanError,
    >)
        ensures
            extension_format(lower_of(extension_text(path@)), views(head@)) matches Some(f) ==> r
                == Ok::<DataFormat, HylaeanError>(f),
            extension_format(lower_of(extension_text(path@)), views(head@)) is None ==> (r matches Err(
                HylaeanError::UnsupportedFormat { format },
            ) && format@ == extension_text(path@)),
    {
        detect_format(path, head)
    }

    /// The conversion between two resolved formats; an unsupported pair
    /// fails with `ConversionFailed`.
    pub fn plan_conversion(&self, from: &DataFormat, to: &DataFormat) -> (r: Result<
        ConversionPlan,
        HylaeanError,
    >)
        ensures
            plan_for(*from, *to) matches Some(p) ==> r == Ok::<ConversionPlan, HylaeanError>(p),
            plan_for(*from, *to) is None ==> (r matches Err(
                HylaeanError::ConversionFailed { source_format, target_format },
            ) && source_format@ == refusal_names(*from, *to).0 && target_format@ == refusal_names(
                *from,
                *to,
            ).1),
    {
        match (from, to) {
            (DataFormat::PointCloud(f), DataFormat::PointCloud(t)) => {
                match (f, t) {
                    (PointCloudFormat::PLY, PointCloudFormat::XYZ) => Ok(
                        ConversionPlan::PointCloud(PointCloudFormat::PLY, PointCloudFormat::XYZ),
                    ),
                    (PointCloudFormat::XYZ, PointCloudFormat::PLY) => Ok(
                        ConversionPlan::PointCloud(PointCloudFormat::XYZ, PointCloudFormat::PLY),
                    ),
                    (PointCloudFormat::PLY, PointCloudFormat::PCD) => Ok(
                        ConversionPlan::PointCloud(PointCloudFormat::PLY, PointCloudFormat::PCD),
                    ),
                    (PointCloudFormat::PCD, PointCloudFormat::PLY) => Ok(
                        ConversionPlan::PointCloud(PointCloudFormat::PCD, PointCloudFormat::PLY),
                    ),
                    (PointCloudFormat::XYZ, PointCloudFormat::PCD) => Ok(
                        ConversionPlan::PointCloud(PointCloudFormat::XYZ, PointCloudFormat::PCD),
                    ),
                    (PointCloudFormat::PCD, PointCloudFormat::XYZ) => Ok(
                        ConversionPlan::PointCloud(PointCloudFormat::PCD, PointCloudFormat::XYZ),
                    ),
                    _ => Err(
                        HylaeanError::ConversionFailed {
                            source_format: f.label(),
                            target_format: t.label(),
                        },
                    ),
                }
            },
            (DataFormat::CameraParameters(f), DataFormat::CameraParameters(t)) => {
                let converter = CameraParamsConverter::new();
                match converter.camera_route(f, t) {
                    Ok(c) => Ok(ConversionPlan::Camera(c)),
                    Err(e) => Err(e),
                }
            },
            _ => Err(
                HylaeanError::ConversionFailed {
                    source_format: from.label(),
                    target_format: to.label(),
                },
            ),
        }
    }

    /// Resolves a conversion request: the input format from `input_format`
    /// where given, else detected from `input_path` (with `head`, the file's
    /// leading lines); the output format from `output_format`; then the
    /// conversion between them. Nothing here touches a file, so a request
    /// that fails leaves none behind.
    pub fn plan_file_conversion(
        &self,
        input_path: &str,
        head: &Vec<String>,
        input_format: Option<&str>,
        output_format: &str,
    ) -> (r: Result<ConversionPlan, HylaeanError>)
        ensures
            requested_input(input_path@, views(head@), given_view(input_format)) is None ==> (r matches Err(
                HylaeanError::UnsupportedFormat { format },
            ) && format@ == input_format_name(input_path@, given_view(input_format))),
            requested_input(input_path@, views(head@), given_view(input_format)) is Some
                && token_format(lower_of(output_format@)) is None ==> (r matches Err(
                HylaeanError::UnsupportedFormat { format },
            ) && format@ == output_format@),
            requested_input(input_path@, views(head@), given_view(input_format)) matches Some(i)
                ==> (token_format(lower_of(output_format@)) matches Some(o) ==> (plan_for(i, o) matches Some(p) ==> r
                == Ok::<ConversionPlan, HylaeanError>(p))),
            requested_input(input_path@, views(head@), given_view(input_format)) matches Some(i)
                ==> (token_format(lower_of(output_format@)) matches Some(o) ==> (plan_for(i, o) is None ==> (r matches Err(
                HylaeanError::ConversionFailed { source_format, target_format },
            ) && source_format@ == refusal_names(i, o).0 && target_format@ == refusal_names(
                i,
                o,
            ).1))),
    {
        let input = match input_format {
            Some(name) => self.parse_format(name),
            None => self.detect_format(input_path, head),
        };
        let input = match input {
            Ok(f) => f,
            Err(e) => {
                return Err(e);
            },
        };
        let output = match self.parse_format(output_format) {
            Ok(f) => f,
            Err(e) => {
                return Err(e);
            },
        };
        self.plan_conversion(&input, &output)
    }
}

/// Asking for LAZ output is refused whatever the input, and so is a
/// conversion between COLMAP and Blender in either direction: no plan is
/// made, so no file is opened.
pub proof fn lemma_unsupported_pairs_rejected(from: DataFormat)
    ensures
        token_format("laz"@) == Some(DataFormat::PointCloud(PointCloudFormat::LAZ)),
        plan_for(from, DataFormat::PointCloud(PointCloudFormat::LAZ)) is None,
        plan_for(
            DataFormat::CameraParameters(CameraFormat::COLMAP),
            DataFormat::CameraParameters(CameraFormat::Blender),
        ) is None,
        plan_for(
            DataFormat::CameraParameters(CameraFormat::Blender),
            DataFormat::CameraParameters(CameraFormat::COLMAP),
        ) is None,
{
    reveal_strlit("laz");
    reveal_strlit("ply");
    reveal_strlit("pcd");
    reveal_strlit("xyz");
    assert("laz"@[0] != "ply"@[0]);
    assert("laz"@[0] != "pcd"@[0]);
    assert("laz"@[0] != "xyz"@[0]);
}

} // verus!
