//! External splatting and reconstruction tools: which command line each
//! request runs, and where. Running it is the caller's part.
use vstd::prelude::*;
use crate::errors::HylaeanError;
use crate::text::{
    join_path, path_joined, decimal_of, decimal_text, lemma_views_push, parse_unsigned, push_text, same_text,
    unsigned_parse, views,
};

verus! {

/// A command line to run: the program, its arguments, and the directory to
/// run it in (the current one where `None`).
#[derive(Debug, Clone)]
pub struct Invocation {
    pub program: String,
    pub args: Vec<String>,
    pub working_dir: Option<String>,
}

pub open spec fn opt_view(o: Option<String>) -> Option<Seq<char>> {
    match o {
        Some(s) => Some(s@),
        None => None,
    }
}

/// `r` runs `program` with `args` in `dir`.
pub open spec fn invokes(
    r: Result<Invocation, HylaeanError>,
    program: Seq<char>,
    args: Seq<Seq<char>>,
    dir: Option<Seq<char>>,
) -> bool {
    r matches Ok(inv) && inv.program@ == program && views(inv.args@) == args && opt_view(
        inv.working_dir,
    ) == dir
}

/// `r` reports that the tool `name` cannot be found.
pub open spec fn not_found(r: Result<Invocation, HylaeanError>, name: Seq<char>) -> bool {
    r matches Err(HylaeanError::ToolNotFound { name: n }) && n@ == name
}

/// `r` reports that `tool` failed with `message`.
pub open spec fn failed_with(
    r: Result<Invocation, HylaeanError>,
    tool: Seq<char>,
    message: Seq<char>,
) -> bool {
    r matches Err(HylaeanError::ToolExecutionFailed { tool: t, message: m }) && t@ == tool && m@
        == message
}

fn failure(tool: &str, message: &str) -> (r: Result<Invocation, HylaeanError>)
    ensures
        failed_with(r, tool@, message@),
{
    Err(
        HylaeanError::ToolExecutionFailed {
            tool: String::from_str(tool),
            message: String::from_str(message),
        },
    )
}

fn unknown_command(tool: &str, command: &str) -> (r: Result<Invocation, HylaeanError>)
    ensures
        failed_with(r, tool@, "Unknown command: "@ + command@),
{
    let mut message = String::from_str("Unknown command: ");
    message.append(command);
    Err(HylaeanError::ToolExecutionFailed { tool: String::from_str(tool), message })
}

fn copy_text(s: &String) -> (r: String)
    ensures
        r@ == s@,
{
    String::from_str(s.as_str())
}

fn copy_opt(o: &Option<String>) -> (r: Option<String>)
    ensures
        opt_view(r) == opt_view(*o),
{
    match o {
        Some(s) => Some(copy_text(s)),
        None => None,
    }
}

fn missing(name: &str) -> (r: Result<Invocation, HylaeanError>)
    ensures
        not_found(r, name@),
{
    Err(HylaeanError::ToolNotFound { name: String::from_str(name) })
}

fn run(program: &String, args: Vec<String>, dir: Option<&String>) -> (r: Result<
    Invocation,
    HylaeanError,
>)
    ensures
        invokes(
            r,
            program@,
            views(args@),
            match dir {
                Some(d) => Some(d@),
                None => None,
            },
        ),
{
    let working_dir = match dir {
        Some(d) => Some(copy_text(d)),
        None => None,
    };
    Ok(Invocation { program: copy_text(program), args, working_dir })
}

fn words2(a: &str, b: &str) -> (r: Vec<String>)
    ensures
        views(r@) == seq![a@, b@],
{
    let mut r: Vec<String> = Vec::new();
    push_text(&mut r, a);
    push_text(&mut r, b);
    assert(views(r@) =~= seq![a@, b@]);
    r
}

fn words3(a: &str, b: &str, c: &str) -> (r: Vec<String>)
    ensures
        views(r@) == seq![a@, b@, c@],
{
    let mut r = words2(a, b);
    push_text(&mut r, c);
    assert(views(r@) =~= seq![a@, b@, c@]);
    r
}

fn words5(a: &str, b: &str, c: &str, d: &str, e: &str) -> (r: Vec<String>)
    ensures
        views(r@) == seq![a@, b@, c@, d@, e@],
{
    let mut r = words3(a, b, c);
    push_text(&mut r, d);
    push_text(&mut r, e);
    assert(views(r@) =~= seq![a@, b@, c@, d@, e@]);
    r
}

fn words7(a: &str, b: &str, c: &str, d: &str, e: &str, f: &str, g: &str) -> (r: Vec<String>)
    ensures
        views(r@) == seq![a@, b@, c@, d@, e@, f@, g@],
{
    let mut r = words5(a, b, c, d, e);
    push_text(&mut r, f);
    push_text(&mut r, g);
    assert(views(r@) =~= seq![a@, b@, c@, d@, e@, f@, g@]);
    r
}

// ---------------------------------------------------------------------------
// Brush
// ---------------------------------------------------------------------------

/// Brush, a Gaussian splatting trainer, renderer and viewer.
pub struct BrushApp {
    install_path: Option<String>,
    executable_path: Option<String>,
}

impl BrushApp {
    /// The source checkout, where there is one.
    pub closed spec fn spec_install_path(&self) -> Option<Seq<char>> {
        opt_view(self.install_path)
    }

    /// The `brush` executable, where one was found.
    pub closed spec fn spec_executable_path(&self) -> Option<Seq<char>> {
        opt_view(self.executable_path)
    }

    /// `r` runs `brush` with `args`, or reports that it is missing.
    pub open spec fn runs_brush(&self, args: Seq<Seq<char>>, r: Result<Invocation, HylaeanError>) -> bool {
        &&& self.spec_executable_path() matches Some(e) ==> invokes(r, e, args, None)
        &&& self.spec_executable_path() is None ==> not_found(r, "Brush"@)
    }

    /// `r` runs `cargo build --release` in the checkout, or reports that
    /// there is none.
    pub open spec fn builds_brush(&self, r: Result<Invocation, HylaeanError>) -> bool {
        &&& self.spec_install_path() matches Some(i) ==> invokes(
            r,
            "cargo"@,
            seq!["build"@, "--release"@],
            Some(i),
        )
        &&& self.spec_install_path() is None ==> not_found(r, "Brush"@)
    }

    pub fn new(install_path: Option<String>, executable_path: Option<String>) -> (r: Self)
        ensures
            r.spec_install_path() == opt_view(install_path),
            r.spec_executable_path() == opt_view(executable_path),
    {
        BrushApp { install_path, executable_path }
    }

    pub fn name(&self) -> (r: &str)
        ensures
            r@ == "Brush"@,
    {
        "Brush"
    }

    pub fn is_available(&self) -> (r: bool)
        ensures
            r == (self.spec_executable_path() is Some || self.spec_install_path() is Some),
    {
        self.executable_path.is_some() || self.install_path.is_some()
    }

    pub fn get_executable_path(&self) -> (r: Option<String>)
        ensures
            opt_view(r) == self.spec_executable_path(),
    {
        copy_opt(&self.executable_path)
    }

    pub fn get_supported_commands(&self) -> (r: Vec<String>)
        ensures
            views(r@) == seq!["train"@, "render"@, "viewer"@, "build"@],
    {
        let mut r = words3("train", "render", "viewer");
        push_text(&mut r, "build");
        assert(views(r@) =~= seq!["train"@, "render"@, "viewer"@, "build"@]);
        r
    }

    /// `brush train --data DATA --output OUTPUT`.
    pub fn train(&self, data_path: &str, output_path: &str) -> (r: Result<
        Invocation,
        HylaeanError,
    >)
        ensures
            self.runs_brush(seq!["train"@, "--data"@, data_path@, "--output"@, output_path@], r),
    {
        match &self.executable_path {
            Some(brush) => run(
                brush,
                words5("train", "--data", data_path, "--output", output_path),
                None,
            ),
            None => missing("Brush"),
        }
    }

    /// `brush render --model MODEL --output OUTPUT`.
    pub fn render(&self, model_path: &str, output_path: &str) -> (r: Result<
        Invocation,
        HylaeanError,
    >)
        ensures
            self.runs_brush(seq!["render"@, "--model"@, model_path@, "--output"@, output_path@], r),
    {
        match &self.executable_path {
            Some(brush) => run(
                brush,
                words5("render", "--model", model_path, "--output", output_path),
                None,
            ),
            None => missing("Brush"),
        }
    }

    /// `brush viewer --model MODEL`.
    pub fn viewer(&self, model_path: &str) -> (r: Result<Invocation, HylaeanError>)
        ensures
            self.runs_brush(seq!["viewer"@, "--model"@, model_path@], r),
    {
        match &self.executable_path {
            Some(brush) => run(brush, words3("viewer", "--model", model_path), None),
            None => missing("Brush"),
        }
    }

    /// `cargo build --release`, in the source checkout.
    pub fn build(&self) -> (r: Result<Invocation, HylaeanError>)
        ensures
            self.builds_brush(r),
    {
        match &self.install_path {
            Some(install) => {
                let cargo = String::from_str("cargo");
                run(&cargo, words2("build", "--release"), Some(install))
            },
            None => missing("Brush"),
        }
    }
    /// Runs one of the commands that `get_supported_commands` lists, taking
    /// its paths from `args`.
    pub fn run_command(&self, command: &str, args: &Vec<String>) -> (r: Result<
        Invocation,
        HylaeanError,
    >)
        ensures
            command@ == "train"@ && args.len() >= 2 ==> self.runs_brush(
                seq!["train"@, "--data"@, args@[0]@, "--output"@, args@[1]@],
                r,
            ),
            command@ == "train"@ && args.len() < 2 ==> failed_with(
                r,
                "Brush"@,
                "train command requires data_path and output_path"@,
            ),
            command@ == "render"@ && args.len() >= 2 ==> self.runs_brush(
                seq!["render"@, "--model"@, args@[0]@, "--output"@, args@[1]@],
                r,
            ),
            command@ == "render"@ && args.len() < 2 ==> failed_with(
                r,
                "Brush"@,
                "render command requires model_path and output_path"@,
            ),
            command@ == "viewer"@ && args.len() >= 1 ==> self.runs_brush(
                seq!["viewer"@, "--model"@, args@[0]@],
                r,
            ),
            command@ == "viewer"@ && args.len() < 1 ==> failed_with(
                r,
                "Brush"@,
                "viewer command requires model_path"@,
            ),
            command@ == "build"@ ==> self.builds_brush(r),
            command@ != "train"@ && command@ != "render"@ && command@ != "viewer"@ && command@
                != "build"@ ==> failed_with(r, "Brush"@, "Unknown command: "@ + command@),
    {
        proof {
            reveal_strlit("train");
            reveal_strlit("render");
            reveal_strlit("viewer");
            reveal_strlit("build");
            assert("train"@[0] == 't' && "render"@[0] == 'r' && "viewer"@[0] == 'v' && "build"@[0]
                == 'b');
        }
        if same_text(command, "train") {
            if args.len() >= 2 {
                self.train(args[0].as_str(), args[1].as_str())
            } else {
                failure("Brush", "train command requires data_path and output_path")
            }
        } else if same_text(command, "render") {
            if args.len() >= 2 {
                self.render(args[0].as_str(), args[1].as_str())
            } else {
                failure("Brush", "render command requires model_path and output_path")
            }
        } else if same_text(command, "viewer") {
            if args.len() >= 1 {
                self.viewer(args[0].as_str())
            } else {
                failure("Brush", "viewer command requires model_path")
            }
        } else if same_text(command, "build") {
            self.build()
        } else {
            unknown_command("Brush", command)
        }
    }
}

// ---------------------------------------------------------------------------
// COLMAP
// ---------------------------------------------------------------------------

/// `s` reports that `tool` failed with `message`.
pub open spec fn steps_failed_with(
    s: Result<Vec<Invocation>, HylaeanError>,
    tool: Seq<char>,
    message: Seq<char>,
) -> bool {
    s matches Err(HylaeanError::ToolExecutionFailed { tool: t, message: m }) && t@ == tool && m@
        == message
}

fn as_steps(r: Result<Invocation, HylaeanError>) -> (s: Result<Vec<Invocation>, HylaeanError>)
    ensures
        r matches Ok(inv) ==> (s matches Ok(v) && v.len() == 1 && v[0] == inv),
        r matches Err(e) ==> s == Err::<Vec<Invocation>, HylaeanError>(e),
{
    match r {
        Ok(inv) => {
            let mut v: Vec<Invocation> = Vec::new();
            v.push(inv);
            Ok(v)
        },
        Err(e) => Err(e),
    }
}

/// COLMAP, for structure from motion.
pub struct Colmap {
    executable_path: Option<String>,
}

impl Colmap {
    /// The `colmap` executable, where one was found.
    pub closed spec fn spec_executable_path(&self) -> Option<Seq<char>> {
        opt_view(self.executable_path)
    }

    /// `r` runs `colmap` with `args`, or reports that it is missing.
    pub open spec fn runs_colmap(&self, args: Seq<Seq<char>>, r: Result<Invocation, HylaeanError>) -> bool {
        &&& self.spec_executable_path() matches Some(e) ==> invokes(r, e, args, None)
        &&& self.spec_executable_path() is None ==> not_found(r, "COLMAP"@)
    }

    /// `s` is the single step that runs `colmap` with `args`, or reports
    /// that it is missing.
    pub open spec fn one_colmap_step(
        &self,
        args: Seq<Seq<char>>,
        s: Result<Vec<Invocation>, HylaeanError>,
    ) -> bool {
        &&& self.spec_executable_path() matches Some(e) ==> (s matches Ok(v) && v.len() == 1
            && invokes(Ok(v[0]), e, args, None))
        &&& self.spec_executable_path() is None ==> (s matches Err(
            HylaeanError::ToolNotFound { name },
        ) && name@ == "COLMAP"@)
    }

    /// `s` is the full pipeline on `image_path` into `output_path`: feature
    /// extraction, exhaustive matching and mapping, with the database at
    /// `OUTPUT/database.db` and the model under `OUTPUT/sparse`.
    pub open spec fn pipeline_steps(
        &self,
        image_path: Seq<char>,
        output_path: Seq<char>,
        s: Result<Vec<Invocation>, HylaeanError>,
    ) -> bool {
        let db = output_path + "/database.db"@;
        &&& self.spec_executable_path() is None ==> (s matches Err(
            HylaeanError::ToolNotFound { name },
        ) && name@ == "COLMAP"@)
        &&& self.spec_executable_path() matches Some(e) ==> (s matches Ok(steps) && steps.len()
            == 3 && invokes(
            Ok(steps[0]),
            e,
            seq!["feature_extractor"@, "--database_path"@, db, "--image_path"@, image_path],
            None,
        ) && invokes(
            Ok(steps[1]),
            e,
            seq!["exhaustive_matcher"@, "--database_path"@, db],
            None,
        ) && invokes(
            Ok(steps[2]),
            e,
            seq![
                "mapper"@,
                "--database_path"@,
                db,
                "--image_path"@,
                image_path,
                "--output_path"@,
                output_path + "/sparse"@,
            ],
            None,
        ))
    }

    pub fn new(executable_path: Option<String>) -> (r: Self)
        ensures
            r.spec_executable_path() == opt_view(executable_path),
    {
        Colmap { executable_path }
    }

    pub fn name(&self) -> (r: &str)
        ensures
            r@ == "COLMAP"@,
    {
        "COLMAP"
    }

    pub fn is_available(&self) -> (r: bool)
        ensures
            r == self.spec_executable_path() is Some,
    {
        self.executable_path.is_some()
    }

    pub fn get_executable_path(&self) -> (r: Option<String>)
        ensures
            opt_view(r) == self.spec_executable_path(),
    {
        copy_opt(&self.executable_path)
    }

    pub fn get_supported_commands(&self) -> (r: Vec<String>)
        ensures
            views(r@) == seq![
                "feature_extractor"@,
                "exhaustive_matcher"@,
                "mapper"@,
                "model_converter"@,
                "full_pipeline"@,
            ],
    {
        words5(
            "feature_extractor",
            "exhaustive_matcher",
            "mapper",
            "model_converter",
            "full_pipeline",
        )
    }

    /// `colmap feature_extractor --database_path DB --image_path IMAGES`.
    pub fn feature_extractor(&self, database_path: &str, image_path: &str) -> (r: Result<
        Invocation,
        HylaeanError,
    >)
        ensures
            self.runs_colmap(
                seq![
                    "feature_extractor"@,
                    "--database_path"@,
                    database_path@,
                    "--image_path"@,
                    image_path@,
                ],
                r,
            ),
    {
        match &self.executable_path {
            Some(colmap) => run(
                colmap,
                words5(
                    "feature_extractor",
                    "--database_path",
                    database_path,
                    "--image_path",
                    image_path,
                ),
                None,
            ),
            None => missing("COLMAP"),
        }
    }

    /// `colmap exhaustive_matcher --database_path DB`.
    pub fn exhaustive_matcher(&self, database_path: &str) -> (r: Result<
        Invocation,
        HylaeanError,
    >)
        ensures
            self.runs_colmap(seq!["exhaustive_matcher"@, "--database_path"@, database_path@], r),
    {
        match &self.executable_path {
            Some(colmap) => run(
                colmap,
                words3("exhaustive_matcher", "--database_path", database_path),
                None,
            ),
            None => missing("COLMAP"),
        }
    }

    /// `colmap mapper --database_path DB --image_path IMAGES --output_path OUT`.
    pub fn mapper(&self, database_path: &str, image_path: &str, output_path: &str) -> (r: Result<
        Invocation,
        HylaeanError,
    >)
        ensures
            self.runs_colmap(
                seq![
                    "mapper"@,
                    "--database_path"@,
                    database_path@,
                    "--image_path"@,
                    image_path@,
                    "--output_path"@,
                    output_path@,
                ],
                r,
            ),
    {
        match &self.executable_path {
            Some(colmap) => run(
                colmap,
                words7(
                    "mapper",
                    "--database_path",
                    database_path,
                    "--image_path",
                    image_path,
                    "--output_path",
                    output_path,
                ),
                None,
            ),
            None => missing("COLMAP"),
        }
    }

    /// `colmap model_converter --input_path IN --output_path OUT --output_type TYPE`.
    pub fn model_converter(&self, input_path: &str, output_path: &str, output_type: &str) -> (r:
        Result<Invocation, HylaeanError>)
        ensures
            self.runs_colmap(
                seq![
                    "model_converter"@,
                    "--input_path"@,
                    input_path@,
                    "--output_path"@,
                    output_path@,
                    "--output_type"@,
                    output_type@,
                ],
                r,
            ),
    {
        match &self.executable_path {
            Some(colmap) => run(
                colmap,
                words7(
                    "model_converter",
                    "--input_path",
                    input_path,
                    "--output_path",
                    output_path,
                    "--output_type",
                    output_type,
                ),
                None,
            ),
            None => missing("COLMAP"),
        }
    }

    /// The directories that the full pipeline writes into: the output
    /// directory and its `sparse` subdirectory.
    pub fn pipeline_directories(&self, output_path: &str) -> (r: Vec<String>)
        ensures
            views(r@) == seq![output_path@, output_path@ + "/sparse"@],
    {
        let mut sparse = String::from_str(output_path);
        sparse.append("/sparse");
        let mut r: Vec<String> = Vec::new();
        push_text(&mut r, output_path);
        proof {
            lemma_views_push(r@, sparse);
        }
        r.push(sparse);
        assert(views(r@) =~= seq![output_path@, output_path@ + "/sparse"@]);
        r
    }

    /// The steps of the full pipeline on the images under `image_path`.
    pub fn run_full_pipeline(&self, image_path: &str, output_path: &str) -> (r: Result<
        Vec<Invocation>,
        HylaeanError,
    >)
        ensures
            self.pipeline_steps(image_path@, output_path@, r),
    {
        let mut database_path = String::from_str(output_path);
        database_path.append("/database.db");
        let mut sparse_path = String::from_str(output_path);
        sparse_path.append("/sparse");
        let extract = match self.feature_extractor(database_path.as_str(), image_path) {
            Ok(inv) => inv,
            Err(e) => {
                return Err(e);
            },
        };
        let matching = match self.exhaustive_matcher(database_path.as_str()) {
            Ok(inv) => inv,
            Err(e) => {
                return Err(e);
            },
        };
        let mapping = match self.mapper(database_path.as_str(), image_path, sparse_path.as_str()) {
            Ok(inv) => inv,
            Err(e) => {
                return Err(e);
            },
        };
        let mut steps: Vec<Invocation> = Vec::new();
        steps.push(extract);
        steps.push(matching);
        steps.push(mapping);
        Ok(steps)
    }

    /// The directories to create before `run_command(command, args)` runs:
    /// those of the full pipeline, for that command with its two paths.
    pub fn directories_for(&self, command: &str, args: &Vec<String>) -> (r: Vec<String>)
        ensures
            command@ == "full_pipeline"@ && args.len() >= 2 ==> views(r@) == seq![
                args@[1]@,
                args@[1]@ + "/sparse"@,
            ],
            !(command@ == "full_pipeline"@ && args.len() >= 2) ==> r.len() == 0,
    {
        if same_text(command, "full_pipeline") && args.len() >= 2 {
            self.pipeline_directories(args[1].as_str())
        } else {
            Vec::new()
        }
    }

    /// Runs one of the commands that `get_supported_commands` lists, taking
    /// its paths from `args`.
    pub fn run_command(&self, command: &str, args: &Vec<String>) -> (r: Result<
        Vec<Invocation>,
        HylaeanError,
    >)
        ensures
            command@ == "feature_extractor"@ && args.len() >= 2 ==> self.one_colmap_step(
                seq![
                    "feature_extractor"@,
                    "--database_path"@,
                    args@[0]@,
                    "--image_path"@,
                    args@[1]@,
                ],
                r,
            ),
            command@ == "feature_extractor"@ && args.len() < 2 ==> steps_failed_with(
                r,
                "COLMAP"@,
                "feature_extractor requires database_path and image_path"@,
            ),
            command@ == "exhaustive_matcher"@ && args.len() >= 1 ==> self.one_colmap_step(
                seq!["exhaustive_matcher"@, "--database_path"@, args@[0]@],
                r,
            ),
            command@ == "exhaustive_matcher"@ && args.len() < 1 ==> steps_failed_with(
                r,
                "COLMAP"@,
                "exhaustive_matcher requires database_path"@,
            ),
            command@ == "mapper"@ && args.len() >= 3 ==> self.one_colmap_step(
                seq![
                    "mapper"@,
                    "--database_path"@,
                    args@[0]@,
                    "--image_path"@,
                    args@[1]@,
                    "--output_path"@,
                    args@[2]@,
                ],
                r,
            ),
            command@ == "mapper"@ && args.len() < 3 ==> steps_failed_with(
                r,
                "COLMAP"@,
                "mapper requires database_path, image_path, and output_path"@,
            ),
            command@ == "model_converter"@ && args.len() >= 3 ==> self.one_colmap_step(
                seq![
                    "model_converter"@,
                    "--input_path"@,
                    args@[0]@,
                    "--output_path"@,
                    args@[1]@,
                    "--output_type"@,
                    args@[2]@,
                ],
                r,
            ),
            command@ == "model_converter"@ && args.len() < 3 ==> steps_failed_with(
                r,
                "COLMAP"@,
                "model_converter requires input_path, output_path, and output_type"@,
            ),
            command@ == "full_pipeline"@ && args.len() >= 2 ==> self.pipeline_steps(
                args@[0]@,
                args@[1]@,
                r,
            ),
            command@ == "full_pipeline"@ && args.len() < 2 ==> steps_failed_with(
                r,
                "COLMAP"@,
                "full_pipeline requires image_path and output_path"@,
            ),
            command@ != "feature_extractor"@ && command@ != "exhaustive_matcher"@ && command@
                != "mapper"@ && command@ != "model_converter"@ && command@ != "full_pipeline"@
                ==> steps_failed_with(r, "COLMAP"@, "Unknown command: "@ + command@),
    {
        proof {
            reveal_strlit("feature_extractor");
            reveal_strlit("exhaustive_matcher");
            reveal_strlit("mapper");
            reveal_strlit("model_converter");
            reveal_strlit("full_pipeline");
            assert("feature_extractor"@[1] == 'e' && "exhaustive_matcher"@[0] == 'e'
                && "mapper"@[1] == 'a' && "model_converter"@[1] == 'o' && "full_pipeline"@[1]
                == 'u' && "feature_extractor"@[0] == 'f' && "mapper"@[0] == 'm'
                && "model_converter"@[0] == 'm' && "full_pipeline"@[0] == 'f'
                && "exhaustive_matcher"@[1] == 'x');
        }
        if same_text(command, "feature_extractor") {
            if args.len() >= 2 {
                as_steps(self.feature_extractor(args[0].as_str(), args[1].as_str()))
            } else {
                as_steps(failure("COLMAP", "feature_extractor requires database_path and image_path"))
            }
        } else if same_text(command, "exhaustive_matcher") {
            if args.len() >= 1 {
                as_steps(self.exhaustive_matcher(args[0].as_str()))
            } else {
                as_steps(failure("COLMAP", "exhaustive_matcher requires database_path"))
            }
        } else if same_text(command, "mapper") {
            if args.len() >= 3 {
                as_steps(self.mapper(args[0].as_str(), args[1].as_str(), args[2].as_str()))
            } else {
                as_steps(
                    failure("COLMAP", "mapper requires database_path, image_path, and output_path"),
                )
            }
        } else if same_text(command, "model_converter") {
            if args.len() >= 3 {
                as_steps(self.model_converter(args[0].as_str(), args[1].as_str(), args[2].as_str()))
            } else {
                as_steps(
                    failure(
                        "COLMAP",
                        "model_converter requires input_path, output_path, and output_type",
                    ),
                )
            }
        } else if same_text(command, "full_pipeline") {
            if args.len() >= 2 {
                self.run_full_pipeline(args[0].as_str(), args[1].as_str())
            } else {
                as_steps(failure("COLMAP", "full_pipeline requires image_path and output_path"))
            }
        } else {
            as_steps(unknown_command("COLMAP", command))
        }
    }
}

// ---------------------------------------------------------------------------
// Python-script tools
// ---------------------------------------------------------------------------

/// `r` runs `python` with `args` in `install`, or reports which of the two
/// is missing; the checkout is looked for first, under the name `tool`.
pub open spec fn runs_script(
    install: Option<Seq<char>>,
    python: Option<Seq<char>>,
    tool: Seq<char>,
    args: Seq<Seq<char>>,
    r: Result<Invocation, HylaeanError>,
) -> bool {
    &&& install is None ==> not_found(r, tool)
    &&& install is Some && python is None ==> not_found(r, "python"@)
    &&& install matches Some(i) ==> (python matches Some(p) ==> invokes(r, p, args, Some(i)))
}

fn python_script(
    install: &Option<String>,
    python: &Option<String>,
    tool: &str,
    args: Vec<String>,
) -> (r: Result<Invocation, HylaeanError>)
    ensures
        runs_script(opt_view(*install), opt_view(*python), tool@, views(args@), r),
{
    match install {
        None => missing(tool),
        Some(dir) => match python {
            None => missing("python"),
            Some(p) => run(p, args, Some(dir)),
        },
    }
}

/// Dynamic 3D Gaussian Splatting, a Python training script.
pub struct Dynamic3DGS {
    install_path: Option<String>,
    python_executable: Option<String>,
}

impl Dynamic3DGS {
    /// The source checkout, where there is one.
    pub closed spec fn spec_install_path(&self) -> Option<Seq<char>> {
        opt_view(self.install_path)
    }

    /// The Python interpreter, where one was found.
    pub closed spec fn spec_python(&self) -> Option<Seq<char>> {
        opt_view(self.python_executable)
    }

    pub open spec fn trains(&self, data_path: Seq<char>, output_path: Seq<char>, r: Result<
        Invocation,
        HylaeanError,
    >) -> bool {
        runs_script(
            self.spec_install_path(),
            self.spec_python(),
            "Dynamic 3DGS"@,
            seq!["train.py"@, "--source_path"@, data_path, "--model_path"@, output_path],
            r,
        )
    }

    pub fn new(install_path: Option<String>, python_executable: Option<String>) -> (r: Self)
        ensures
            r.spec_install_path() == opt_view(install_path),
            r.spec_python() == opt_view(python_executable),
    {
        Dynamic3DGS { install_path, python_executable }
    }

    pub fn name(&self) -> (r: &str)
        ensures
            r@ == "Dynamic 3DGS"@,
    {
        "Dynamic 3DGS"
    }

    pub fn is_available(&self) -> (r: bool)
        ensures
            r == (self.spec_install_path() is Some && self.spec_python() is Some),
    {
        self.install_path.is_some() && self.python_executable.is_some()
    }

    pub fn get_executable_path(&self) -> (r: Option<String>)
        ensures
            opt_view(r) == self.spec_python(),
    {
        copy_opt(&self.python_executable)
    }

    pub fn get_supported_commands(&self) -> (r: Vec<String>)
        ensures
            views(r@) == seq!["train"@],
    {
        let mut r: Vec<String> = Vec::new();
        push_text(&mut r, "train");
        assert(views(r@) =~= seq!["train"@]);
        r
    }

    /// `python train.py --source_path DATA --model_path OUTPUT`, in the
    /// source checkout.
    pub fn train(&self, data_path: &str, output_path: &str) -> (r: Result<
        Invocation,
        HylaeanError,
    >)
        ensures
            self.trains(data_path@, output_path@, r),
    {
        python_script(
            &self.install_path,
            &self.python_executable,
            "Dynamic 3DGS",
            words5("train.py", "--source_path", data_path, "--model_path", output_path),
        )
    }

    /// Runs `train`, the one supported command, on the two paths in `args`.
    pub fn run_command(&self, command: &str, args: &Vec<String>) -> (r: Result<
        Invocation,
        HylaeanError,
    >)
        ensures
            command@ == "train"@ && args.len() >= 2 ==> self.trains(args@[0]@, args@[1]@, r),
            command@ == "train"@ && args.len() < 2 ==> failed_with(
                r,
                "Dynamic 3DGS"@,
                "train command requires data_path and output_path"@,
            ),
            command@ != "train"@ ==> failed_with(
                r,
                "Dynamic 3DGS"@,
                "Unknown command: "@ + command@,
            ),
    {
        if same_text(command, "train") {
            if args.len() >= 2 {
                self.train(args[0].as_str(), args[1].as_str())
            } else {
                failure("Dynamic 3DGS", "train command requires data_path and output_path")
            }
        } else {
            unknown_command("Dynamic 3DGS", command)
        }
    }
}

/// The reference 3D Gaussian Splatting implementation, a set of Python
/// scripts.
pub struct GaussianSplatting {
    install_path: Option<String>,
    python_executable: Option<String>,
}

/// The training arguments, with `--iterations N` where a count is given.
pub open spec fn training_args(
    data_path: Seq<char>,
    output_path: Seq<char>,
    iterations: Option<u32>,
) -> Seq<Seq<char>> {
    let base = seq!["train.py"@, "-s"@, data_path, "-m"@, output_path];
    match iterations {
        Some(n) => base + seq!["--iterations"@, decimal_of(n as nat)],
        None => base,
    }
}

/// The iteration count an optional third argument gives: its value where it
/// reads as a `u32`.
pub open spec fn iterations_arg(args: Seq<Seq<char>>) -> Option<u32> {
    if args.len() > 2 {
        match unsigned_parse(args[2], u32::MAX as nat) {
            Some(v) => Some(v as u32),
            None => None,
        }
    } else {
        None
    }
}

impl GaussianSplatting {
    /// The source checkout, where there is one.
    pub closed spec fn spec_install_path(&self) -> Option<Seq<char>> {
        opt_view(self.install_path)
    }

    /// The Python interpreter, where one was found.
    pub closed spec fn spec_python(&self) -> Option<Seq<char>> {
        opt_view(self.python_executable)
    }

    /// `r` runs the script with `args`, or reports what is missing.
    pub open spec fn runs(&self, args: Seq<Seq<char>>, r: Result<Invocation, HylaeanError>) -> bool {
        runs_script(
            self.spec_install_path(),
            self.spec_python(),
            "3D Gaussian Splatting"@,
            args,
            r,
        )
    }

    pub fn new(install_path: Option<String>, python_executable: Option<String>) -> (r: Self)
        ensures
            r.spec_install_path() == opt_view(install_path),
            r.spec_python() == opt_view(python_executable),
    {
        GaussianSplatting { install_path, python_executable }
    }

    pub fn name(&self) -> (r: &str)
        ensures
            r@ == "3D Gaussian Splatting"@,
    {
        "3D Gaussian Splatting"
    }

    pub fn is_available(&self) -> (r: bool)
        ensures
            r == (self.spec_install_path() is Some && self.spec_python() is Some),
    {
        self.install_path.is_some() && self.python_executable.is_some()
    }

    pub fn get_executable_path(&self) -> (r: Option<String>)
        ensures
            opt_view(r) == self.spec_python(),
    {
        copy_opt(&self.python_executable)
    }

    pub fn get_supported_commands(&self) -> (r: Vec<String>)
        ensures
            views(r@) == seq!["train"@, "render"@, "convert"@],
    {
        words3("train", "render", "convert")
    }

    /// `python train.py -s DATA -m OUTPUT [--iterations N]`, in the checkout.
    pub fn train(&self, data_path: &str, output_path: &str, iterations: Option<u32>) -> (r:
        Result<Invocation, HylaeanError>)
        ensures
            self.runs(training_args(data_path@, output_path@, iterations), r),
    {
        let mut args = words5("train.py", "-s", data_path, "-m", output_path);
        match iterations {
            Some(n) => {
                push_text(&mut args, "--iterations");
                let count = decimal_text(n as usize);
                proof {
                    lemma_views_push(args@, count);
                }
                args.push(count);
                assert(views(args@) =~= training_args(data_path@, output_path@, iterations));
            },
            None => {},
        }
        python_script(&self.install_path, &self.python_executable, "3D Gaussian Splatting", args)
    }

    /// `python render.py -m MODEL --output_path OUTPUT`, in the checkout.
    pub fn render(&self, model_path: &str, output_path: &str) -> (r: Result<
        Invocation,
        HylaeanError,
    >)
        ensures
            self.runs(seq!["render.py"@, "-m"@, model_path@, "--output_path"@, output_path@], r),
    {
        python_script(
            &self.install_path,
            &self.python_executable,
            "3D Gaussian Splatting",
            words5("render.py", "-m", model_path, "--output_path", output_path),
        )
    }

    /// `python convert.py -s MODEL --output_path OUTPUT`, in the checkout.
    pub fn convert_to_ply(&self, model_path: &str, output_path: &str) -> (r: Result<
        Invocation,
        HylaeanError,
    >)
        ensures
            self.runs(seq!["convert.py"@, "-s"@, model_path@, "--output_path"@, output_path@], r),
    {
        python_script(
            &self.install_path,
            &self.python_executable,
            "3D Gaussian Splatting",
            words5("convert.py", "-s", model_path, "--output_path", output_path),
        )
    }

    /// Runs one of the commands that `get_supported_commands` lists, taking
    /// its paths, and for `train` an optional iteration count, from `args`.
    pub fn run_command(&self, command: &str, args: &Vec<String>) -> (r: Result<
        Invocation,
        HylaeanError,
    >)
        ensures
            command@ == "train"@ && args.len() >= 2 ==> self.runs(
                training_args(args@[0]@, args@[1]@, iterations_arg(views(args@))),
                r,
            ),
            command@ == "train"@ && args.len() < 2 ==> failed_with(
                r,
                "3D Gaussian Splatting"@,
                "train command requires data_path and output_path"@,
            ),
            command@ == "render"@ && args.len() >= 2 ==> self.runs(
                seq!["render.py"@, "-m"@, args@[0]@, "--output_path"@, args@[1]@],
                r,
            ),
            command@ == "render"@ && args.len() < 2 ==> failed_with(
                r,
                "3D Gaussian Splatting"@,
                "render command requires model_path and output_path"@,
            ),
            command@ == "convert"@ && args.len() >= 2 ==> self.runs(
                seq!["convert.py"@, "-s"@, args@[0]@, "--output_path"@, args@[1]@],
                r,
            ),
            command@ == "convert"@ && args.len() < 2 ==> failed_with(
                r,
                "3D Gaussian Splatting"@,
                "convert command requires model_path and output_path"@,
            ),
            command@ != "train"@ && command@ != "render"@ && command@ != "convert"@ ==> failed_with(
                r,
                "3D Gaussian Splatting"@,
                "Unknown command: "@ + command@,
            ),
    {
        proof {
            reveal_strlit("train");
            reveal_strlit("render");
            reveal_strlit("convert");
            assert("train"@[0] == 't' && "render"@[0] == 'r' && "convert"@[0] == 'c');
        }
        if same_text(command, "train") {
            if args.len() >= 2 {
                let iterations: Option<u32> = if args.len() > 2 {
                    assert(views(args@)[2] == args@[2]@);
                    match parse_unsigned(args[2].as_str(), u32::MAX as u64) {
                        Some(v) => Some(v as u32),
                        None => None,
                    }
                } else {
                    None
                };
                self.train(args[0].as_str(), args[1].as_str(), iterations)
            } else {
                failure("3D Gaussian Splatting", "train command requires data_path and output_path")
            }
        } else if same_text(command, "render") {
            if args.len() >= 2 {
                self.render(args[0].as_str(), args[1].as_str())
            } else {
                failure(
                    "3D Gaussian Splatting",
                    "render command requires model_path and output_path",
                )
            }
        } else if same_text(command, "convert") {
            if args.len() >= 2 {
                self.convert_to_ply(args[0].as_str(), args[1].as_str())
            } else {
                failure(
                    "3D Gaussian Splatting",
                    "convert command requires model_path and output_path",
                )
            }
        } else {
            unknown_command("3D Gaussian Splatting", command)
        }
    }
}

// ---------------------------------------------------------------------------
// SkySplat
// ---------------------------------------------------------------------------

/// A Python script for Blender to run: the file name to write it under, in
/// the temporary directory, and its text.
#[derive(Debug, Clone)]
pub struct BlenderScript {
    pub file_name: String,
    pub text: String,
}

/// `r` is the script `file_name` holding `text`.
pub open spec fn is_script(
    r: Result<BlenderScript, HylaeanError>,
    file_name: Seq<char>,
    text: Seq<char>,
) -> bool {
    r matches Ok(s) && s.file_name@ == file_name && s.text@ == text
}

/// `r` reports that the tool `name` cannot be found.
pub open spec fn script_tool_missing(r: Result<BlenderScript, HylaeanError>, name: Seq<char>) -> bool {
    r matches Err(HylaeanError::ToolNotFound { name: n }) && n@ == name
}

/// `r` reports that `tool` failed with `message`.
pub open spec fn script_failed_with(
    r: Result<BlenderScript, HylaeanError>,
    tool: Seq<char>,
    message: Seq<char>,
) -> bool {
    r matches Err(HylaeanError::ToolExecutionFailed { tool: t, message: m }) && t@ == tool && m@
        == message
}

/// The script that installs and enables the add-on found at `install`,
/// whose entry file is `init_file`.
pub open spec fn install_script_text(install: Seq<char>, init_file: Seq<char>) -> Seq<char> {
    "\nimport bpy\nimport sys\nsys.path.append('"@ + install
        + "')\nbpy.ops.preferences.addon_install(filepath='"@ + init_file
        + "')\nbpy.ops.preferences.addon_enable(module='skysplat_blender')\nbpy.ops.wm.save_userpref()\n"@
}

/// The script that loads `splat_file` and renders it to `output_path`.
pub open spec fn render_script_text(splat_file: Seq<char>, output_path: Seq<char>) -> Seq<char> {
    "\nimport bpy\nimport skysplat_blender\n\n# Load the splat file\nskysplat_blender.load_splat('"@
        + splat_file + "')\n\n# Set up rendering\nbpy.context.scene.render.filepath = '"@
        + output_path + "'\nbpy.ops.render.render(write_still=True)\n"@
}

fn script(file_name: &str, text: String) -> (r: Result<BlenderScript, HylaeanError>)
    ensures
        is_script(r, file_name@, text@),
{
    Ok(BlenderScript { file_name: String::from_str(file_name), text })
}

fn script_missing(name: &str) -> (r: Result<BlenderScript, HylaeanError>)
    ensures
        script_tool_missing(r, name@),
{
    Err(HylaeanError::ToolNotFound { name: String::from_str(name) })
}

/// SkySplat, a Blender add-on for Gaussian splats.
pub struct SkySplat {
    install_path: Option<String>,
    blender_executable: Option<String>,
}

impl SkySplat {
    /// The add-on's checkout, where there is one.
    pub closed spec fn spec_install_path(&self) -> Option<Seq<char>> {
        opt_view(self.install_path)
    }

    /// The Blender executable, where one was found.
    pub closed spec fn spec_blender(&self) -> Option<Seq<char>> {
        opt_view(self.blender_executable)
    }

    /// `r` is the script that installs the add-on, or reports what is
    /// missing: the checkout first, then Blender.
    pub open spec fn installs(&self, r: Result<BlenderScript, HylaeanError>) -> bool {
        &&& self.spec_install_path() is None ==> script_tool_missing(r, "SkySplat"@)
        &&& self.spec_install_path() is Some && self.spec_blender() is None ==> script_tool_missing(
            r,
            "blender"@,
        )
        &&& self.spec_install_path() matches Some(i) ==> (self.spec_blender() is Some ==> is_script(
            r,
            "install_skysplat.py"@,
            install_script_text(i, path_joined(i, "__init__.py"@)),
        ))
    }

    /// `r` is the script that renders `splat_file` to `output_path`, or
    /// reports that Blender is missing.
    pub open spec fn renders(
        &self,
        splat_file: Seq<char>,
        output_path: Seq<char>,
        r: Result<BlenderScript, HylaeanError>,
    ) -> bool {
        &&& self.spec_blender() is None ==> script_tool_missing(r, "blender"@)
        &&& self.spec_blender() is Some ==> is_script(
            r,
            "render_skysplat.py"@,
            render_script_text(splat_file, output_path),
        )
    }

    pub fn new(install_path: Option<String>, blender_executable: Option<String>) -> (r: Self)
        ensures
            r.spec_install_path() == opt_view(install_path),
            r.spec_blender() == opt_view(blender_executable),
    {
        SkySplat { install_path, blender_executable }
    }

    pub fn name(&self) -> (r: &str)
        ensures
            r@ == "SkySplat"@,
    {
        "SkySplat"
    }

    pub fn is_available(&self) -> (r: bool)
        ensures
            r == (self.spec_install_path() is Some && self.spec_blender() is Some),
    {
        self.install_path.is_some() && self.blender_executable.is_some()
    }

    pub fn get_executable_path(&self) -> (r: Option<String>)
        ensures
            opt_view(r) == self.spec_blender(),
    {
        copy_opt(&self.blender_executable)
    }

    pub fn get_supported_commands(&self) -> (r: Vec<String>)
        ensures
            views(r@) == seq!["install"@, "render"@],
    {
        words2("install", "render")
    }

    /// The script that installs and enables the add-on in Blender.
    pub fn install_addon(&self) -> (r: Result<BlenderScript, HylaeanError>)
        ensures
            self.installs(r),
    {
        match &self.install_path {
            None => script_missing("SkySplat"),
            Some(install) => match &self.blender_executable {
                None => script_missing("blender"),
                Some(_) => {
                    let init_file = join_path(install.as_str(), "__init__.py");
                    let mut text = String::from_str("\nimport bpy\nimport sys\nsys.path.append('");
                    text.append(install.as_str());
                    text.append("')\nbpy.ops.preferences.addon_install(filepath='");
                    text.append(init_file.as_str());
                    text.append(
                        "')\nbpy.ops.preferences.addon_enable(module='skysplat_blender')\nbpy.ops.wm.save_userpref()\n",
                    );
                    script("install_skysplat.py", text)
                },
            },
        }
    }

    /// The script that renders `splat_file` to `output_path` in Blender.
    pub fn render_splat(&self, splat_file: &str, output_path: &str) -> (r: Result<
        BlenderScript,
        HylaeanError,
    >)
        ensures
            self.renders(splat_file@, output_path@, r),
    {
        match &self.blender_executable {
            None => script_missing("blender"),
            Some(_) => {
                let mut text = String::from_str(
                    "\nimport bpy\nimport skysplat_blender\n\n# Load the splat file\nskysplat_blender.load_splat('",
                );
                text.append(splat_file);
                text.append("')\n\n# Set up rendering\nbpy.context.scene.render.filepath = '");
                text.append(output_path);
                text.append("'\nbpy.ops.render.render(write_still=True)\n");
                script("render_skysplat.py", text)
            },
        }
    }

    /// `blender --background --python SCRIPT`, for a script written to
    /// `script_path`.
    pub fn script_invocation(&self, script_path: &str) -> (r: Result<Invocation, HylaeanError>)
        ensures
            self.spec_blender() matches Some(b) ==> invokes(
                r,
                b,
                seq!["--background"@, "--python"@, script_path@],
                None,
            ),
            self.spec_blender() is None ==> not_found(r, "blender"@),
    {
        match &self.blender_executable {
            Some(blender) => run(blender, words3("--background", "--python", script_path), None),
            None => missing("blender"),
        }
    }

    /// The script for one of the commands that `get_supported_commands`
    /// lists, taking the render paths from `args`.
    pub fn run_command(&self, command: &str, args: &Vec<String>) -> (r: Result<
        BlenderScript,
        HylaeanError,
    >)
        ensures
            command@ == "install"@ ==> self.installs(r),
            command@ == "render"@ && args.len() >= 2 ==> self.renders(args@[0]@, args@[1]@, r),
            command@ == "render"@ && args.len() < 2 ==> script_failed_with(
                r,
                "SkySplat"@,
                "render command requires splat_file and output_path"@,
            ),
            command@ != "install"@ && command@ != "render"@ ==> script_failed_with(
                r,
                "SkySplat"@,
                "Unknown command: "@ + command@,
            ),
    {
        proof {
            reveal_strlit("install");
            reveal_strlit("render");
            assert("install"@[0] == 'i' && "render"@[0] == 'r');
        }
        if same_text(command, "install") {
            self.install_addon()
        } else if same_text(command, "render") {
            if args.len() >= 2 {
                self.render_splat(args[0].as_str(), args[1].as_str())
            } else {
                Err(
                    HylaeanError::ToolExecutionFailed {
                        tool: String::from_str("SkySplat"),
                        message: String::from_str(
                            "render command requires splat_file and output_path",
                        ),
                    },
                )
            }
        } else {
            let mut message = String::from_str("Unknown command: ");
            message.append(command);
            Err(HylaeanError::ToolExecutionFailed { tool: String::from_str("SkySplat"), message })
        }
    }
}

} // verus!
