use hylaean_splat::point_cloud::PointCloudConverter;
use hylaean_splat::formats::{DataFormat, FormatConverter, PointCloudFormat};
use hylaean_splat::errors::HylaeanError;
use hylaean_splat::text::{char_is_space, is_blank, split_words};

fn lines(text: &[&str]) -> Vec<String> {
    text.iter().map(|s| s.to_string()).collect()
}

fn sample_ply() -> Vec<String> {
    lines(&[
        "ply",
        "format ascii 1.0",
        "element vertex 2",
        "property float x",
        "property float y",
        "property float z",
        "end_header",
        "1.0 2.0 3.0",
        "4.0 5.0 6.0",
    ])
}

#[test]
fn ply_to_xyz_end_to_end_example() {
    let c = PointCloudConverter::new();
    let out = c.ply_to_xyz(&sample_ply());
    assert_eq!(out, lines(&["1.0 2.0 3.0", "4.0 5.0 6.0"]));
}

#[test]
fn ply_to_xyz_drops_extra_columns_and_normalises_spacing() {
    let c = PointCloudConverter::new();
    let input = lines(&[
        "ply",
        "element vertex 2",
        "end_header",
        "1 2 3 255 0 0",
        "  4\t5   6  ",
    ]);
    assert_eq!(c.ply_to_xyz(&input), lines(&["1 2 3", "4 5 6"]));
}

#[test]
fn ply_to_xyz_stops_at_declared_count() {
    let c = PointCloudConverter::new();
    let input = lines(&["element vertex 1", "end_header", "1 2 3", "4 5 6", "garbage"]);
    assert_eq!(c.ply_to_xyz(&input), lines(&["1 2 3"]));
}

#[test]
fn ply_to_xyz_tolerates_fewer_rows_than_declared() {
    let c = PointCloudConverter::new();
    let input = lines(&["element vertex 5", "end_header", "1 2 3", "short row", ""]);
    assert_eq!(c.ply_to_xyz(&input), lines(&["1 2 3"]));
}

#[test]
fn ply_to_xyz_unreadable_count_is_zero() {
    let c = PointCloudConverter::new();
    let input = lines(&["element vertex many", "end_header", "1 2 3"]);
    assert!(c.ply_to_xyz(&input).is_empty());
}

#[test]
fn xyz_to_ply_counts_non_blank_rows() {
    let c = PointCloudConverter::new();
    let input = lines(&["1 2 3", "", "   ", "4 5 6"]);
    assert_eq!(
        c.xyz_to_ply(&input),
        lines(&[
            "ply",
            "format ascii 1.0",
            "element vertex 2",
            "property float x",
            "property float y",
            "property float z",
            "end_header",
            "1 2 3",
            "4 5 6",
        ])
    );
}

#[test]
fn xyz_to_ply_empty_input() {
    let c = PointCloudConverter::new();
    let out = c.xyz_to_ply(&Vec::new());
    assert_eq!(out.len(), 7);
    assert_eq!(out[2], "element vertex 0");
}

#[test]
fn round_trip_ply_xyz_ply_keeps_row_count() {
    let c = PointCloudConverter::new();
    let xyz = c.ply_to_xyz(&sample_ply());
    let ply = c.xyz_to_ply(&xyz);
    assert_eq!(ply[2], "element vertex 2");
    assert_eq!(&ply[7..], &xyz[..]);
}

#[test]
fn ply_to_pcd_keeps_rows_whole() {
    let c = PointCloudConverter::new();
    let input = lines(&["element vertex 2", "end_header", "1 2 3 9", "4 5 6 9"]);
    assert_eq!(
        c.ply_to_pcd(&input),
        lines(&[
            "# .PCD v0.7 - Point Cloud Data file format",
            "VERSION 0.7",
            "FIELDS x y z",
            "SIZE 4 4 4",
            "TYPE F F F",
            "COUNT 1 1 1",
            "WIDTH 2",
            "HEIGHT 1",
            "VIEWPOINT 0 0 0 1 0 0 0",
            "POINTS 2",
            "DATA ascii",
            "1 2 3 9",
            "4 5 6 9",
        ])
    );
}

#[test]
fn pcd_header_counts_agree_with_rows() {
    let c = PointCloudConverter::new();
    let xyz: Vec<String> = (0..12).map(|i| format!("{} {} {}", i, i + 1, i + 2)).collect();
    let out = c.xyz_to_pcd(&xyz);
    assert_eq!(out.len(), 11 + 12);
    assert_eq!(out[6], "WIDTH 12");
    assert_eq!(out[9], "POINTS 12");
    assert_eq!(&out[11..], &xyz[..]);
}

#[test]
fn pcd_to_ply_uses_rows_found_not_declared() {
    let c = PointCloudConverter::new();
    let input = lines(&["POINTS 10", "DATA ascii", "1 2 3", "", "4 5 6"]);
    let out = c.pcd_to_ply(&input);
    assert_eq!(out[2], "element vertex 2");
    assert_eq!(&out[7..], &lines(&["1 2 3", "4 5 6"])[..]);
}

#[test]
fn pcd_to_xyz_copies_rows_after_marker() {
    let c = PointCloudConverter::new();
    let input = lines(&["VERSION 0.7", "POINTS 2", "DATA ascii", "1 2 3", "  ", "4 5 6"]);
    assert_eq!(c.pcd_to_xyz(&input), lines(&["1 2 3", "4 5 6"]));
}

#[test]
fn pcd_without_marker_has_no_rows() {
    let c = PointCloudConverter::new();
    let input = lines(&["1 2 3", "4 5 6"]);
    assert!(c.pcd_to_xyz(&input).is_empty());
}

#[test]
fn convert_point_cloud_dispatches_supported_pairs() {
    let c = PointCloudConverter::new();
    let out = c
        .convert_point_cloud(&sample_ply(), &PointCloudFormat::PLY, &PointCloudFormat::XYZ)
        .unwrap();
    assert_eq!(out, lines(&["1.0 2.0 3.0", "4.0 5.0 6.0"]));
}

#[test]
fn convert_point_cloud_refuses_laz_and_identity() {
    let c = PointCloudConverter::new();
    match c.convert_point_cloud(&sample_ply(), &PointCloudFormat::PLY, &PointCloudFormat::LAZ) {
        Err(HylaeanError::ConversionFailed { source_format, target_format }) => {
            assert_eq!(source_format, "PLY");
            assert_eq!(target_format, "LAZ");
        }
        other => panic!("unexpected: {:?}", other),
    }
    assert!(matches!(
        c.convert_point_cloud(&sample_ply(), &PointCloudFormat::PLY, &PointCloudFormat::PLY),
        Err(HylaeanError::ConversionFailed { .. })
    ));
    match c.convert_point_cloud(
        &sample_ply(),
        &PointCloudFormat::Custom("e57".to_string()),
        &PointCloudFormat::XYZ,
    ) {
        Err(HylaeanError::ConversionFailed { source_format, .. }) => {
            assert_eq!(source_format, "Custom(\"e57\")");
        }
        other => panic!("unexpected: {:?}", other),
    }
}

#[test]
fn convert_refuses_other_families() {
    let c = PointCloudConverter::new();
    let from = DataFormat::PointCloud(PointCloudFormat::PLY);
    let to = DataFormat::CameraParameters(hylaean_splat::formats::CameraFormat::NeRF);
    match c.convert(&sample_ply(), &from, &to) {
        Err(HylaeanError::ConversionFailed { source_format, target_format }) => {
            assert_eq!(source_format, "PointCloud(PLY)");
            assert_eq!(target_format, "CameraParameters(NeRF)");
        }
        other => panic!("unexpected: {:?}", other),
    }
}

#[test]
fn point_cloud_converter_accepts_point_cloud_pairs_only() {
    let c = PointCloudConverter::new();
    let ply = DataFormat::PointCloud(PointCloudFormat::PLY);
    let laz = DataFormat::PointCloud(PointCloudFormat::LAZ);
    let nerf = DataFormat::CameraParameters(hylaean_splat::formats::CameraFormat::NeRF);
    assert!(c.can_convert(&ply, &laz));
    assert!(!c.can_convert(&ply, &nerf));
}

#[test]
fn split_words_follows_unicode_whitespace() {
    assert_eq!(split_words("  a\tbb \u{a0} c  "), lines(&["a", "bb", "c"]));
    assert!(split_words("").is_empty());
    assert!(is_blank(" \t \u{2003}"));
    assert!(!is_blank(" x "));
}

#[test]
fn element_vertex_line_after_header_resets_count() {
    let c = PointCloudConverter::new();
    let input = lines(&[
        "element vertex 3",
        "end_header",
        "1 2 3",
        "element vertex 1",
        "4 5 6",
    ]);
    assert_eq!(c.ply_to_xyz(&input), lines(&["1 2 3"]));
}

#[test]
fn pcd_points_line_after_marker_is_skipped_for_ply_only() {
    let c = PointCloudConverter::new();
    let input = lines(&["DATA ascii", "POINTS 4", "1 2 3"]);
    assert_eq!(&c.pcd_to_ply(&input)[7..], &lines(&["1 2 3"])[..]);
    assert_eq!(c.pcd_to_xyz(&input), lines(&["POINTS 4", "1 2 3"]));
}

#[test]
fn round_trip_through_pcd_keeps_rows() {
    let c = PointCloudConverter::new();
    let xyz = lines(&["0.5 1.5 2.5", "3 4 5", "6 7 8"]);
    let pcd = c.xyz_to_pcd(&xyz);
    assert_eq!(c.pcd_to_xyz(&pcd), xyz);
    let ply = c.pcd_to_ply(&pcd);
    assert_eq!(ply[2], "element vertex 3");
    assert_eq!(c.ply_to_xyz(&ply), xyz);
}

#[test]
fn whitespace_test_agrees_with_std() {
    for u in 0u32..0x3100 {
        if let Some(c) = char::from_u32(u) {
            assert_eq!(char_is_space(c), c.is_whitespace(), "U+{:04X}", u);
        }
    }
    for c in ['\u{feff}', '\u{200b}', '\u{e000}', '\u{10ffff}'] {
        assert_eq!(char_is_space(c), c.is_whitespace());
    }
}
