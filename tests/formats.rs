use hylaean_splat::data_manager::{ConversionPlan, DataManager};
use hylaean_splat::camera_params::CameraRoute;
use hylaean_splat::config::{AgentConfig, Config, FormatConfig};
use hylaean_splat::errors::HylaeanError;
use hylaean_splat::formats::{
    detect_format, format_for_token, looks_like_camera_params, parse_format, sniffs_content,
    CameraFormat, DataFormat, DatasetFormat, PointCloudFormat,
};
use hylaean_splat::text::{decimal_text, parse_unsigned};

fn lines(text: &[&str]) -> Vec<String> {
    text.iter().map(|s| s.to_string()).collect()
}

#[test]
fn scan_txt_with_camera_marker_is_colmap() {
    let head = lines(&["# Camera list with one line of data per camera:"]);
    assert_eq!(
        detect_format("scan.txt", &head).unwrap(),
        DataFormat::CameraParameters(CameraFormat::COLMAP)
    );
}

#[test]
fn scan_txt_with_numbers_is_xyz() {
    let head = lines(&["1.0 2.0 3.0", "4.0 5.0 6.0", "7.0 8.0 9.0"]);
    assert_eq!(
        detect_format("scan.txt", &head).unwrap(),
        DataFormat::PointCloud(PointCloudFormat::XYZ)
    );
}

#[test]
fn image_marker_counts_only_within_five_lines() {
    let early = lines(&["a", "b", "c", "d", "x # Image list y"]);
    assert!(looks_like_camera_params(&early));
    let late = lines(&["a", "b", "c", "d", "e", "# Image list"]);
    assert!(!looks_like_camera_params(&late));
}

#[test]
fn detect_by_extension_ignores_case() {
    let none: Vec<String> = Vec::new();
    assert_eq!(detect_format("a/b/cloud.PLY", &none).unwrap(), DataFormat::PointCloud(PointCloudFormat::PLY));
    assert_eq!(detect_format("x.pcd", &none).unwrap(), DataFormat::PointCloud(PointCloudFormat::PCD));
    assert_eq!(detect_format("x.xyz", &none).unwrap(), DataFormat::PointCloud(PointCloudFormat::XYZ));
    assert_eq!(detect_format("x.laz", &none).unwrap(), DataFormat::PointCloud(PointCloudFormat::LAZ));
    assert_eq!(
        detect_format("transforms.Json", &none).unwrap(),
        DataFormat::CameraParameters(CameraFormat::NeRF)
    );
}

#[test]
fn detect_unknown_extension_reports_it() {
    let none: Vec<String> = Vec::new();
    match detect_format("model.OBJ", &none) {
        Err(HylaeanError::UnsupportedFormat { format }) => assert_eq!(format, "OBJ"),
        other => panic!("unexpected: {:?}", other),
    }
    match detect_format("README", &none) {
        Err(HylaeanError::UnsupportedFormat { format }) => assert_eq!(format, ""),
        other => panic!("unexpected: {:?}", other),
    }
}

#[test]
fn only_txt_needs_the_file_head() {
    assert!(sniffs_content("scan.TXT"));
    assert!(!sniffs_content("scan.ply"));
    assert!(!sniffs_content("txt"));
}

#[test]
fn parse_format_is_case_insensitive() {
    assert_eq!(parse_format("PLY").unwrap(), DataFormat::PointCloud(PointCloudFormat::PLY));
    assert_eq!(parse_format("Colmap").unwrap(), DataFormat::CameraParameters(CameraFormat::COLMAP));
    assert_eq!(parse_format("NeRF").unwrap(), DataFormat::CameraParameters(CameraFormat::NeRF));
    assert_eq!(parse_format("opencv").unwrap(), DataFormat::CameraParameters(CameraFormat::OpenCV));
    assert_eq!(parse_format("BLENDER").unwrap(), DataFormat::CameraParameters(CameraFormat::Blender));
    assert_eq!(parse_format("laz").unwrap(), DataFormat::PointCloud(PointCloudFormat::LAZ));
}

#[test]
fn parse_format_rejects_unknown_token() {
    match parse_format("Obj") {
        Err(HylaeanError::UnsupportedFormat { format }) => assert_eq!(format, "Obj"),
        other => panic!("unexpected: {:?}", other),
    }
    assert_eq!(format_for_token("PLY"), None);
    assert_eq!(format_for_token("ply"), Some(DataFormat::PointCloud(PointCloudFormat::PLY)));
}

#[test]
fn labels_name_family_and_kind() {
    assert_eq!(DataFormat::PointCloud(PointCloudFormat::XYZ).label(), "PointCloud(XYZ)");
    assert_eq!(
        DataFormat::Dataset(DatasetFormat::Custom("mine".to_string())).label(),
        "Dataset(Custom(\"mine\"))"
    );
    assert_eq!(CameraFormat::OpenCV.label(), "OpenCV");
    assert_eq!(DatasetFormat::TanksAndTemples.label(), "TanksAndTemples");
}

#[test]
fn plan_to_laz_is_refused() {
    let dm = DataManager::new("cache".to_string());
    let none: Vec<String> = Vec::new();
    match dm.plan_file_conversion("cloud.ply", &none, None, "laz") {
        Err(HylaeanError::ConversionFailed { source_format, target_format }) => {
            assert_eq!(source_format, "PLY");
            assert_eq!(target_format, "LAZ");
        }
        other => panic!("unexpected: {:?}", other),
    }
}

#[test]
fn plan_between_colmap_and_blender_is_refused() {
    let dm = DataManager::new("cache".to_string());
    let none: Vec<String> = Vec::new();
    assert!(matches!(
        dm.plan_file_conversion("in", &none, Some("colmap"), "blender"),
        Err(HylaeanError::ConversionFailed { .. })
    ));
    assert!(matches!(
        dm.plan_file_conversion("in", &none, Some("blender"), "colmap"),
        Err(HylaeanError::ConversionFailed { .. })
    ));
}

#[test]
fn plan_across_families_names_both_formats() {
    let dm = DataManager::new("cache".to_string());
    let none: Vec<String> = Vec::new();
    match dm.plan_file_conversion("cloud.xyz", &none, None, "nerf") {
        Err(HylaeanError::ConversionFailed { source_format, target_format }) => {
            assert_eq!(source_format, "PointCloud(XYZ)");
            assert_eq!(target_format, "CameraParameters(NeRF)");
        }
        other => panic!("unexpected: {:?}", other),
    }
}

#[test]
fn plan_resolves_supported_requests() {
    let dm = DataManager::new("cache".to_string());
    let head = lines(&["# Image list with two lines of data per image:"]);
    assert_eq!(
        dm.plan_file_conversion("sparse/images.txt", &head, None, "NeRF").unwrap(),
        ConversionPlan::Camera(CameraRoute::ColmapToNerf)
    );
    let none: Vec<String> = Vec::new();
    assert_eq!(
        dm.plan_file_conversion("whatever.bin", &none, Some("PCD"), "xyz").unwrap(),
        ConversionPlan::PointCloud(PointCloudFormat::PCD, PointCloudFormat::XYZ)
    );
    assert_eq!(dm.conversion_cache(), "cache");
}

#[test]
fn plan_reports_unknown_formats() {
    let dm = DataManager::new("cache".to_string());
    let none: Vec<String> = Vec::new();
    match dm.plan_file_conversion("mesh.obj", &none, None, "ply") {
        Err(HylaeanError::UnsupportedFormat { format }) => assert_eq!(format, "obj"),
        other => panic!("unexpected: {:?}", other),
    }
    match dm.plan_file_conversion("cloud.ply", &none, None, "las") {
        Err(HylaeanError::UnsupportedFormat { format }) => assert_eq!(format, "las"),
        other => panic!("unexpected: {:?}", other),
    }
    match dm.plan_file_conversion("cloud.ply", &none, Some("e57"), "ply") {
        Err(HylaeanError::UnsupportedFormat { format }) => assert_eq!(format, "e57"),
        other => panic!("unexpected: {:?}", other),
    }
}

#[test]
fn plan_conversion_refuses_datasets() {
    let dm = DataManager::new("cache".to_string());
    let from = DataFormat::Dataset(DatasetFormat::LLFF);
    let to = DataFormat::Dataset(DatasetFormat::NeRFSynthetic);
    match dm.plan_conversion(&from, &to) {
        Err(HylaeanError::ConversionFailed { source_format, target_format }) => {
            assert_eq!(source_format, "Dataset(LLFF)");
            assert_eq!(target_format, "Dataset(NeRFSynthetic)");
        }
        other => panic!("unexpected: {:?}", other),
    }
}

#[test]
fn decimal_text_and_unsigned_parse() {
    assert_eq!(decimal_text(0), "0");
    assert_eq!(decimal_text(1234567), "1234567");
    assert_eq!(parse_unsigned("+42", 100), Some(42));
    assert_eq!(parse_unsigned("007", 100), Some(7));
    assert_eq!(parse_unsigned("101", 100), None);
    assert_eq!(parse_unsigned("", 100), None);
    assert_eq!(parse_unsigned("+", 100), None);
    assert_eq!(parse_unsigned("-1", 100), None);
    assert_eq!(parse_unsigned("1.5", 100), None);
    assert_eq!(parse_unsigned("18446744073709551615", u64::MAX), Some(u64::MAX));
    assert_eq!(parse_unsigned("18446744073709551616", u64::MAX), None);
}

#[test]
fn config_paths_under_home() {
    let c = Config::for_home("/home/ada");
    assert_eq!(c.config_dir, "/home/ada/.hylaean_splat");
    assert_eq!(c.database_path, "/home/ada/.hylaean_splat/database");
    assert_eq!(c.get_tool_install_path("brush"), "/home/ada/.hylaean_splat/tools/brush");
    assert_eq!(c.get_cache_path("conversions"), "/home/ada/.hylaean_splat/cache/conversions");
    assert_eq!(c.config_file(), "/home/ada/.hylaean_splat/config.toml");
    assert_eq!(c.directories().len(), 4);
    assert_eq!(c.agent_config.arxiv_search_terms.len(), 4);
    assert_eq!(c.agent_config.max_repos_to_track, 1000);
    assert_eq!(c.format_config.default_camera_format, "colmap");
    assert_eq!(FormatConfig::default().conversion_cache_size_mb, 1024);
    assert!(AgentConfig::default().github_token.is_none());
}
