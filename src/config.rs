//! The program's settings: where it keeps its files, and the defaults of
//! its agent and of format conversion.
use vstd::prelude::*;
use crate::text::{join_path, path_joined, push_text, views};

verus! {

/// Settings of the background agent.
#[derive(Debug)]
pub struct AgentConfig {
    pub enabled: bool,
    pub update_interval_hours: u64,
    pub github_token: Option<String>,
    pub arxiv_search_terms: Vec<String>,
    pub max_repos_to_track: usize,
    pub auto_install_recommendations: bool,
}

/// Settings of format conversion.
#[derive(Debug)]
pub struct FormatConfig {
    pub default_point_cloud_format: String,
    pub default_camera_format: String,
    pub conversion_cache_size_mb: usize,
    pub preserve_metadata: bool,
}

/// Where the program keeps its files, with the settings above.
#[derive(Debug)]
pub struct Config {
    pub config_dir: String,
    pub database_path: String,
    pub tools_dir: String,
    pub cache_dir: String,
    pub agent_config: AgentConfig,
    pub format_config: FormatConfig,
}

impl Default for AgentConfig {
    fn default() -> (r: Self)
        ensures
            r.enabled,
            r.update_interval_hours == 24,
            r.github_token is None,
            views(r.arxiv_search_terms@) == seq![
                "3d gaussian splatting"@,
                "gaussian splatting"@,
                "neural radiance field"@,
                "nerf"@,
            ],
            r.max_repos_to_track == 1000,
            !r.auto_install_recommendations,
    {
        let mut terms: Vec<String> = Vec::new();
        push_text(&mut terms, "3d gaussian splatting");
        push_text(&mut terms, "gaussian splatting");
        push_text(&mut terms, "neural radiance field");
        push_text(&mut terms, "nerf");
        assert(views(terms@) =~= seq![
            "3d gaussian splatting"@,
            "gaussian splatting"@,
            "neural radiance field"@,
            "nerf"@,
        ]);
        AgentConfig {
            enabled: true,
            update_interval_hours: 24,
            github_token: None,
            arxiv_search_terms: terms,
            max_repos_to_track: 1000,
            auto_install_recommendations: false,
        }
    }
}

impl Default for FormatConfig {
    fn default() -> (r: Self)
        ensures
            r.default_point_cloud_format@ == "ply"@,
            r.default_camera_format@ == "colmap"@,
            r.conversion_cache_size_mb == 1024,
            r.preserve_metadata,
    {
        FormatConfig {
            default_point_cloud_format: String::from_str("ply"),
            default_camera_format: String::from_str("colmap"),
            conversion_cache_size_mb: 1024,
            preserve_metadata: true,
        }
    }
}

impl Config {
    /// The settings for a user whose home directory is `home_dir`: files
    /// under `HOME/.hylaean_splat`, default agent and format settings.
    pub fn for_home(home_dir: &str) -> (r: Self)
        ensures
            r.config_dir@ == path_joined(home_dir@, ".hylaean_splat"@),
            r.database_path@ == path_joined(r.config_dir@, "database"@),
            r.tools_dir@ == path_joined(r.config_dir@, "tools"@),
            r.cache_dir@ == path_joined(r.config_dir@, "cache"@),
            r.agent_config.update_interval_hours == 24,
            r.format_config.default_point_cloud_format@ == "ply"@,
    {
        let config_dir = join_path(home_dir, ".hylaean_splat");
        let database_path = join_path(config_dir.as_str(), "database");
        let tools_dir = join_path(config_dir.as_str(), "tools");
        let cache_dir = join_path(config_dir.as_str(), "cache");
        Config {
            config_dir,
            database_path,
            tools_dir,
            cache_dir,
            agent_config: AgentConfig::default(),
            format_config: FormatConfig::default(),
        }
    }

    /// The settings file, `config.toml` in the configuration directory.
    pub fn config_file(&self) -> (r: String)
        ensures
            r@ == path_joined(self.config_dir@, "config.toml"@),
    {
        join_path(self.config_dir.as_str(), "config.toml")
    }

    /// The directories that initialisation creates.
    pub fn directories(&self) -> (r: Vec<String>)
        ensures
            views(r@) == seq![
                self.config_dir@,
                self.tools_dir@,
                self.cache_dir@,
                self.database_path@,
            ],
    {
        let mut r: Vec<String> = Vec::new();
        push_text(&mut r, self.config_dir.as_str());
        push_text(&mut r, self.tools_dir.as_str());
        push_text(&mut r, self.cache_dir.as_str());
        push_text(&mut r, self.database_path.as_str());
        assert(views(r@) =~= seq![
            self.config_dir@,
            self.tools_dir@,
            self.cache_dir@,
            self.database_path@,
        ]);
        r
    }

    /// Where the tool called `tool_name` is installed.
    pub fn get_tool_install_path(&self, tool_name: &str) -> (r: String)
        ensures
            r@ == path_joined(self.tools_dir@, tool_name@),
    {
        join_path(self.tools_dir.as_str(), tool_name)
    }

    /// Where cached data of the kind `cache_type` goes.
    pub fn get_cache_path(&self, cache_type: &str) -> (r: String)
        ensures
            r@ == path_joined(self.cache_dir@, cache_type@),
    {
        join_path(self.cache_dir.as_str(), cache_type)
    }
}

} // verus!
