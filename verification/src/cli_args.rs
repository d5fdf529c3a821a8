//! The arguments of one run, as plain values. Parsing a command line into them
//! is the caller's business.

use vstd::prelude::*;

verus! {

/// The arguments that hold for every service.
#[derive(Debug, Clone, PartialEq, Eq)]
pub struct CliArgs {
    /// The file to read the payload from, in place of standard input.
    pub input: Option<String>,
    /// The file to write to what would be sent.
    pub output: Option<String>,
    /// A path to put in front of every source file.
    pub source_prefix: Option<String>,
    /// Directories whose source files leave the payload.
    pub prune_dir: Option<Vec<String>>,
    /// Whether to look the repository up again.
    pub force_fetch_git_infos: bool,
    /// Whether source files with an absolute path leave the payload.
    pub prune_absolutes: bool,
    /// Whether to keep from sending.
    pub no_send: bool,
    /// The service, with its own arguments.
    pub service: CliService,
}

/// The service that the command line names, with the values given for it, or
/// the request to find the service in the environment.
#[derive(Debug, Clone, PartialEq, Eq)]
pub enum CliService {
    CircleCI(CliServiceArgs),
    Actions(CliServiceArgs),
    AppVeyor(CliServiceArgs),
    BuildKite(CliServiceArgs),
    Travis(CliServiceArgs),
    Semaphore(CliServiceArgs),
    Jenkins(CliServiceArgs),
    Env,
}

/// The values that the command line may give for a service. Each one that is
/// given, and not empty, replaces what the environment says.
#[derive(Debug, Clone, PartialEq, Eq)]
pub struct CliServiceArgs {
    pub repo_token: Option<String>,
    pub flag_name: Option<String>,
    pub project_id: Option<String>,
    pub service_build_id: Option<String>,
    pub service_build_number: Option<String>,
    pub service_build_version: Option<String>,
    pub service_build_url: Option<String>,
    pub service_pull_request: Option<String>,
    pub service_job_id: Option<String>,
    pub service_job_name: Option<String>,
    pub service_job_number: Option<String>,
    pub service_repo_name: Option<String>,
    pub git_id: Option<String>,
    pub git_branch: Option<String>,
    pub git_tag: Option<String>,
    pub git_message: Option<String>,
    pub git_author_name: Option<String>,
    pub git_author_email: Option<String>,
    pub git_committer_name: Option<String>,
    pub git_committer_email: Option<String>,
    pub git_remote_name: Option<String>,
    pub git_remote_url: Option<String>,
}

impl CliServiceArgs {
    /// Arguments that give no value.
    pub fn new() -> (args: CliServiceArgs)
        ensures
            args.repo_token is None,
            args.flag_name is None,
            args.project_id is None,
            args.service_build_id is None,
            args.service_build_number is None,
            args.service_build_version is None,
            args.service_build_url is None,
            args.service_pull_request is None,
            args.service_job_id is None,
            args.service_job_name is None,
            args.service_job_number is None,
            args.service_repo_name is None,
            args.git_id is None,
            args.git_branch is None,
            args.git_tag is None,
            args.git_message is None,
            args.git_author_name is None,
            args.git_author_email is None,
            args.git_committer_name is None,
            args.git_committer_email is None,
            args.git_remote_name is None,
            args.git_remote_url is None,
    {
        CliServiceArgs {
            repo_token: None,
            flag_name: None,
            project_id: None,
            service_build_id: None,
            service_build_number: None,
            service_build_version: None,
            service_build_url: None,
            service_pull_request: None,
            service_job_id: None,
            service_job_name: None,
            service_job_number: None,
            service_repo_name: None,
            git_id: None,
            git_branch: None,
            git_tag: None,
            git_message: None,
            git_author_name: None,
            git_author_email: None,
            git_committer_name: None,
            git_committer_email: None,
            git_remote_name: None,
            git_remote_url: None,
        }
    }
}

impl CliArgs {
    /// Arguments for `service` with every option at its default.
    pub fn new(service: CliService) -> (args: CliArgs)
        ensures
            args.service == service,
            args.input is None,
            args.output is None,
            args.source_prefix is None,
            args.prune_dir is None,
            !args.force_fetch_git_infos,
            !args.prune_absolutes,
            !args.no_send,
    {
        CliArgs {
            input: None,
            output: None,
            source_prefix: None,
            prune_dir: None,
            force_fetch_git_infos: false,
            prune_absolutes: false,
            no_send: false,
            service,
        }
    }
}

} // verus!
