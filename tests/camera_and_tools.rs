use hylaean_splat::camera_params::{
    colmap_camera_line, colmap_image_line, join_words, parse_camera_line, parse_image_line,
    parse_u32_or_zero, CameraParamsConverter, CameraRoute, FramePose,
};
use hylaean_splat::errors::HylaeanError;
use hylaean_splat::formats::{CameraFormat, DataFormat, FormatConverter, PointCloudFormat};
use hylaean_splat::integrations::{BrushApp, Colmap, Dynamic3DGS, GaussianSplatting, SkySplat};

fn lines(text: &[&str]) -> Vec<String> {
    text.iter().map(|s| s.to_string()).collect()
}

#[test]
fn camera_routes() {
    let c = CameraParamsConverter::new();
    assert_eq!(c.camera_route(&CameraFormat::COLMAP, &CameraFormat::NeRF).unwrap(), CameraRoute::ColmapToNerf);
    assert_eq!(c.camera_route(&CameraFormat::NeRF, &CameraFormat::COLMAP).unwrap(), CameraRoute::NerfToColmap);
    assert_eq!(c.camera_route(&CameraFormat::COLMAP, &CameraFormat::OpenCV).unwrap(), CameraRoute::ColmapToOpenCv);
    assert_eq!(c.camera_route(&CameraFormat::OpenCV, &CameraFormat::COLMAP).unwrap(), CameraRoute::OpenCvToColmap);
    match c.camera_route(&CameraFormat::COLMAP, &CameraFormat::Blender) {
        Err(HylaeanError::ConversionFailed { source_format, target_format }) => {
            assert_eq!(source_format, "COLMAP");
            assert_eq!(target_format, "Blender");
        }
        other => panic!("unexpected: {:?}", other),
    }
}

#[test]
fn camera_converter_accepts_camera_pairs_only() {
    let c = CameraParamsConverter::new();
    let colmap = DataFormat::CameraParameters(CameraFormat::COLMAP);
    let blender = DataFormat::CameraParameters(CameraFormat::Blender);
    let ply = DataFormat::PointCloud(PointCloudFormat::PLY);
    assert!(c.can_convert(&colmap, &blender));
    assert!(!c.can_convert(&colmap, &ply));
}

#[test]
fn reads_colmap_cameras_leniently() {
    let c = CameraParamsConverter::new();
    let input = lines(&[
        "# Camera list with one line of data per camera:",
        "",
        "1 PINHOLE 640 480 500 500 320 240",
        "x SIMPLE_RADIAL 800 big 600.5 400 300 0.01",
        "2 PINHOLE 640 480",
        "  # indented comment is a record 1 2 3",
    ]);
    let rows = c.read_colmap_cameras(&input);
    assert_eq!(rows.len(), 3);
    assert_eq!(rows[0].camera_id, 1);
    assert_eq!(rows[0].model, "PINHOLE");
    assert_eq!((rows[0].width, rows[0].height), (640, 480));
    assert_eq!(rows[0].params, lines(&["500", "500", "320", "240"]));
    assert_eq!(rows[1].camera_id, 0);
    assert_eq!(rows[1].height, 0);
    assert_eq!(rows[1].params.len(), 4);
    assert_eq!(rows[2].model, "indented");
}

#[test]
fn reads_colmap_images_leniently() {
    let c = CameraParamsConverter::new();
    let input = lines(&[
        "# Image list with two lines of data per image:",
        "1 1 0 0 0 0.5 0.25 -1 1 frame_0001.png extra",
        "",
        "2 0.7 0.1 0.1 0.1 1 2 3 4294967296 frame_0002.png",
        "3 too short",
    ]);
    let rows = c.read_colmap_images(&input);
    assert_eq!(rows.len(), 2);
    assert_eq!(rows[0].image_id, 1);
    assert_eq!(rows[0].pose, lines(&["1", "0", "0", "0", "0.5", "0.25", "-1"]));
    assert_eq!(rows[0].camera_id, 1);
    assert_eq!(rows[0].name, "frame_0001.png");
    assert_eq!(rows[1].camera_id, 0);
}

#[test]
fn single_line_parsers() {
    assert!(parse_camera_line("1 PINHOLE 640 480").is_none());
    assert!(parse_image_line("1 2 3 4 5 6 7 8 9").is_none());
    assert_eq!(parse_u32_or_zero("4294967295"), u32::MAX);
    assert_eq!(parse_u32_or_zero("4294967296"), 0);
    assert_eq!(parse_u32_or_zero("12a"), 0);
}

#[test]
fn nerf_needs_a_camera() {
    let c = CameraParamsConverter::new();
    match c.nerf_camera_index(&Vec::new()) {
        Err(HylaeanError::ConversionFailed { source_format, target_format }) => {
            assert_eq!(source_format, "COLMAP");
            assert_eq!(target_format, "NeRF");
        }
        other => panic!("unexpected: {:?}", other),
    }
    let rows = c.read_colmap_cameras(&lines(&["1 PINHOLE 640 480 500"]));
    assert_eq!(c.nerf_camera_index(&rows).unwrap(), 0);
}

#[test]
fn colmap_lines_and_files() {
    assert_eq!(join_words(&lines(&["a", "b", "c"])), "a b c");
    assert_eq!(join_words(&Vec::new()), "");
    assert_eq!(
        colmap_camera_line(1, "PINHOLE", 640, 480, &lines(&["500", "500", "320", "240"])),
        "1 PINHOLE 640 480 500 500 320 240"
    );
    assert_eq!(
        colmap_image_line(3, &lines(&["1", "0", "0", "0", "0.5", "0", "0"]), 1, "r_3.png"),
        "3 1 0 0 0 0.5 0 0 1 r_3.png"
    );
    let c = CameraParamsConverter::new();
    assert_eq!(
        c.colmap_images_file(&lines(&["1 a", "2 b"])),
        lines(&[
            "# Image list with two lines of data per image:",
            "# IMAGE_ID, QW, QX, QY, QZ, TX, TY, TZ, CAMERA_ID, NAME",
            "1 a",
            "",
            "2 b",
            "",
        ])
    );
    assert_eq!(
        c.colmap_cameras_file(&lines(&["1 PINHOLE 640 480 500 500 320 240"])),
        lines(&[
            "# Camera list with one line of data per camera:",
            "# CAMERA_ID, MODEL, WIDTH, HEIGHT, PARAMS[]",
            "1 PINHOLE 640 480 500 500 320 240",
        ])
    );
    assert_eq!(
        c.opencv_file(&lines(&["1 640 480 500 500 320 240"])),
        lines(&[
            "# OpenCV camera parameters converted from COLMAP",
            "# Format: camera_id width height fx fy cx cy",
            "1 640 480 500 500 320 240",
        ])
    );
    assert_eq!(
        c.opencv_to_colmap(),
        lines(&[
            "# Camera list with one line of data per camera:",
            "# CAMERA_ID, MODEL, WIDTH, HEIGHT, PARAMS[]",
        ])
    );
}

#[test]
fn brush_invocations() {
    let brush = BrushApp::new(Some("/src/brush".to_string()), Some("/bin/brush".to_string()));
    assert!(brush.is_available());
    assert_eq!(brush.name(), "Brush");
    let t = brush.train("data", "out").unwrap();
    assert_eq!(t.program, "/bin/brush");
    assert_eq!(t.args, lines(&["train", "--data", "data", "--output", "out"]));
    assert_eq!(t.working_dir, None);
    let v = brush.viewer("model.ply").unwrap();
    assert_eq!(v.args, lines(&["viewer", "--model", "model.ply"]));
    let r = brush.render("m", "o").unwrap();
    assert_eq!(r.args, lines(&["render", "--model", "m", "--output", "o"]));
    let b = brush.build().unwrap();
    assert_eq!(b.program, "cargo");
    assert_eq!(b.args, lines(&["build", "--release"]));
    assert_eq!(b.working_dir, Some("/src/brush".to_string()));
    assert_eq!(brush.get_supported_commands(), lines(&["train", "render", "viewer", "build"]));
}

#[test]
fn brush_missing() {
    let brush = BrushApp::new(None, None);
    assert!(!brush.is_available());
    match brush.train("d", "o") {
        Err(HylaeanError::ToolNotFound { name }) => assert_eq!(name, "Brush"),
        other => panic!("unexpected: {:?}", other),
    }
    assert!(matches!(brush.build(), Err(HylaeanError::ToolNotFound { .. })));
}

#[test]
fn colmap_invocations() {
    let colmap = Colmap::new(Some("colmap".to_string()));
    let f = colmap.feature_extractor("db.db", "images").unwrap();
    assert_eq!(f.args, lines(&["feature_extractor", "--database_path", "db.db", "--image_path", "images"]));
    let m = colmap.exhaustive_matcher("db.db").unwrap();
    assert_eq!(m.args, lines(&["exhaustive_matcher", "--database_path", "db.db"]));
    let p = colmap.mapper("db.db", "images", "sparse").unwrap();
    assert_eq!(
        p.args,
        lines(&["mapper", "--database_path", "db.db", "--image_path", "images", "--output_path", "sparse"])
    );
    let c = colmap.model_converter("sparse/0", "out", "TXT").unwrap();
    assert_eq!(
        c.args,
        lines(&["model_converter", "--input_path", "sparse/0", "--output_path", "out", "--output_type", "TXT"])
    );
    let steps = colmap.run_full_pipeline("images", "work").unwrap();
    assert_eq!(steps.len(), 3);
    assert_eq!(steps[0].args[2], "work/database.db");
    assert_eq!(steps[2].args[6], "work/sparse");
    assert_eq!(colmap.pipeline_directories("work"), lines(&["work", "work/sparse"]));
    let missing = Colmap::new(None);
    match missing.mapper("a", "b", "c") {
        Err(HylaeanError::ToolNotFound { name }) => assert_eq!(name, "COLMAP"),
        other => panic!("unexpected: {:?}", other),
    }
    assert!(missing.run_full_pipeline("images", "work").is_err());
}

#[test]
fn python_tool_invocations() {
    let gs = GaussianSplatting::new(Some("/gs".to_string()), Some("python3".to_string()));
    let t = gs.train("data", "out", Some(30000)).unwrap();
    assert_eq!(t.program, "python3");
    assert_eq!(t.args, lines(&["train.py", "-s", "data", "-m", "out", "--iterations", "30000"]));
    assert_eq!(t.working_dir, Some("/gs".to_string()));
    let t = gs.train("data", "out", None).unwrap();
    assert_eq!(t.args.len(), 5);
    let r = gs.render("m", "o").unwrap();
    assert_eq!(r.args, lines(&["render.py", "-m", "m", "--output_path", "o"]));
    let c = gs.convert_to_ply("m", "o").unwrap();
    assert_eq!(c.args, lines(&["convert.py", "-s", "m", "--output_path", "o"]));
    let no_python = GaussianSplatting::new(Some("/gs".to_string()), None);
    match no_python.render("m", "o") {
        Err(HylaeanError::ToolNotFound { name }) => assert_eq!(name, "python"),
        other => panic!("unexpected: {:?}", other),
    }
    let no_install = GaussianSplatting::new(None, Some("python3".to_string()));
    match no_install.convert_to_ply("m", "o") {
        Err(HylaeanError::ToolNotFound { name }) => assert_eq!(name, "3D Gaussian Splatting"),
        other => panic!("unexpected: {:?}", other),
    }
    let d = Dynamic3DGS::new(Some("/d3".to_string()), Some("python".to_string()));
    let t = d.train("seq", "model").unwrap();
    assert_eq!(t.args, lines(&["train.py", "--source_path", "seq", "--model_path", "model"]));
    assert_eq!(t.working_dir, Some("/d3".to_string()));
    match Dynamic3DGS::new(None, None).train("a", "b") {
        Err(HylaeanError::ToolNotFound { name }) => assert_eq!(name, "Dynamic 3DGS"),
        other => panic!("unexpected: {:?}", other),
    }
}

#[test]
fn brush_run_command_dispatch() {
    let brush = BrushApp::new(Some("/src/brush".to_string()), Some("brush".to_string()));
    let r = brush.run_command("render", &lines(&["m", "o"])).unwrap();
    assert_eq!(r.args, lines(&["render", "--model", "m", "--output", "o"]));
    match brush.run_command("viewer", &Vec::new()) {
        Err(HylaeanError::ToolExecutionFailed { tool, message }) => {
            assert_eq!(tool, "Brush");
            assert_eq!(message, "viewer command requires model_path");
        }
        other => panic!("unexpected: {:?}", other),
    }
    match brush.run_command("paint", &Vec::new()) {
        Err(HylaeanError::ToolExecutionFailed { message, .. }) => {
            assert_eq!(message, "Unknown command: paint")
        }
        other => panic!("unexpected: {:?}", other),
    }
    assert_eq!(brush.run_command("build", &Vec::new()).unwrap().program, "cargo");
}

#[test]
fn colmap_run_command_dispatch() {
    let colmap = Colmap::new(Some("colmap".to_string()));
    let steps = colmap.run_command("full_pipeline", &lines(&["imgs", "out"])).unwrap();
    assert_eq!(steps.len(), 3);
    assert_eq!(steps[1].args, lines(&["exhaustive_matcher", "--database_path", "out/database.db"]));
    assert_eq!(colmap.directories_for("full_pipeline", &lines(&["imgs", "out"])), lines(&["out", "out/sparse"]));
    assert!(colmap.directories_for("mapper", &lines(&["a", "b", "c"])).is_empty());
    let steps = colmap.run_command("mapper", &lines(&["db", "imgs", "sparse"])).unwrap();
    assert_eq!(steps.len(), 1);
    assert_eq!(steps[0].args[0], "mapper");
    match colmap.run_command("model_converter", &lines(&["a", "b"])) {
        Err(HylaeanError::ToolExecutionFailed { tool, message }) => {
            assert_eq!(tool, "COLMAP");
            assert_eq!(message, "model_converter requires input_path, output_path, and output_type");
        }
        other => panic!("unexpected: {:?}", other),
    }
    match Colmap::new(None).run_command("exhaustive_matcher", &lines(&["db"])) {
        Err(HylaeanError::ToolNotFound { name }) => assert_eq!(name, "COLMAP"),
        other => panic!("unexpected: {:?}", other),
    }
}

#[test]
fn python_tools_run_command_dispatch() {
    let gs = GaussianSplatting::new(Some("/gs".to_string()), Some("python".to_string()));
    let t = gs.run_command("train", &lines(&["d", "o", "7000"])).unwrap();
    assert_eq!(t.args, lines(&["train.py", "-s", "d", "-m", "o", "--iterations", "7000"]));
    let t = gs.run_command("train", &lines(&["d", "o", "lots"])).unwrap();
    assert_eq!(t.args, lines(&["train.py", "-s", "d", "-m", "o"]));
    match gs.run_command("convert", &lines(&["only"])) {
        Err(HylaeanError::ToolExecutionFailed { message, .. }) => {
            assert_eq!(message, "convert command requires model_path and output_path")
        }
        other => panic!("unexpected: {:?}", other),
    }
    assert_eq!(gs.get_supported_commands(), lines(&["train", "render", "convert"]));
    let d = Dynamic3DGS::new(Some("/d".to_string()), Some("python".to_string()));
    match d.run_command("render", &lines(&["a", "b"])) {
        Err(HylaeanError::ToolExecutionFailed { tool, message }) => {
            assert_eq!(tool, "Dynamic 3DGS");
            assert_eq!(message, "Unknown command: render");
        }
        other => panic!("unexpected: {:?}", other),
    }
    assert!(d.is_available());
    assert_eq!(d.get_executable_path(), Some("python".to_string()));
}

#[test]
fn skysplat_scripts() {
    let sky = SkySplat::new(Some("/addons/sky".to_string()), Some("/usr/bin/blender".to_string()));
    assert!(sky.is_available());
    let install = sky.install_addon().unwrap();
    assert_eq!(install.file_name, "install_skysplat.py");
    assert_eq!(
        install.text,
        "\nimport bpy\nimport sys\nsys.path.append('/addons/sky')\n\
         bpy.ops.preferences.addon_install(filepath='/addons/sky/__init__.py')\n\
         bpy.ops.preferences.addon_enable(module='skysplat_blender')\n\
         bpy.ops.wm.save_userpref()\n"
    );
    let render = sky.run_command("render", &lines(&["a.splat", "/tmp/out.png"])).unwrap();
    assert_eq!(render.file_name, "render_skysplat.py");
    assert!(render.text.contains("skysplat_blender.load_splat('a.splat')"));
    assert!(render.text.contains("bpy.context.scene.render.filepath = '/tmp/out.png'"));
    let inv = sky.script_invocation("/tmp/render_skysplat.py").unwrap();
    assert_eq!(inv.program, "/usr/bin/blender");
    assert_eq!(inv.args, lines(&["--background", "--python", "/tmp/render_skysplat.py"]));
    match sky.run_command("render", &lines(&["only"])) {
        Err(HylaeanError::ToolExecutionFailed { message, .. }) => {
            assert_eq!(message, "render command requires splat_file and output_path")
        }
        other => panic!("unexpected: {:?}", other),
    }
    assert_eq!(sky.get_supported_commands(), lines(&["install", "render"]));
}

#[test]
fn skysplat_missing_parts() {
    match SkySplat::new(None, Some("blender".to_string())).install_addon() {
        Err(HylaeanError::ToolNotFound { name }) => assert_eq!(name, "SkySplat"),
        other => panic!("unexpected: {:?}", other),
    }
    match SkySplat::new(Some("/a".to_string()), None).install_addon() {
        Err(HylaeanError::ToolNotFound { name }) => assert_eq!(name, "blender"),
        other => panic!("unexpected: {:?}", other),
    }
    assert!(SkySplat::new(None, None).render_splat("a", "b").is_err());
    assert!(SkySplat::new(None, None).script_invocation("s.py").is_err());
}

#[test]
fn custom_format_names_print_as_debug_strings() {
    let c = CameraParamsConverter::new();
    match c.camera_route(&CameraFormat::Custom("a\"b\\c".to_string()), &CameraFormat::NeRF) {
        Err(HylaeanError::ConversionFailed { source_format, target_format }) => {
            assert_eq!(source_format, format!("Custom({:?})", "a\"b\\c"));
            assert_eq!(source_format, "Custom(\"a\\\"b\\\\c\")");
            assert_eq!(target_format, "NeRF");
        }
        other => panic!("unexpected: {:?}", other),
    }
    let fmt = DataFormat::PointCloud(PointCloudFormat::Custom("tab\there".to_string()));
    assert_eq!(fmt.label(), format!("{:?}", fmt));
}

#[test]
fn nerf_frames_become_numbered_images_of_camera_one() {
    let c = CameraParamsConverter::new();
    let pose = lines(&["1", "0", "0", "0", "0.5", "0", "-2"]);
    let frames = vec![
        FramePose { file_path: "./train/r_0".to_string(), pose: pose.clone() },
        FramePose { file_path: "./train/r_1".to_string(), pose },
    ];
    assert_eq!(
        c.nerf_image_lines(&frames),
        lines(&["1 1 0 0 0 0.5 0 -2 1 ./train/r_0", "2 1 0 0 0 0.5 0 -2 1 ./train/r_1"])
    );
    assert_eq!(
        c.nerf_camera_lines(&lines(&["500", "500", "320", "240"])),
        lines(&["1 PINHOLE 640 480 500 500 320 240"])
    );
}
