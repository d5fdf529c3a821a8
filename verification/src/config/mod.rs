//! The configuration of one run and the order in which it is resolved.

pub mod appveyor;
pub mod buildkite;
pub mod circleci;
pub mod coveralls_env;
pub mod generic;
pub mod github_actions;
pub mod jenkins;
pub mod semaphore;
pub mod show;
pub mod travis;

use vstd::prelude::*;
use crate::cli_args::{CliArgs, CliService, CliServiceArgs};
use crate::env::{text_of, var_of, Env, ValueView};
use crate::error::{Error, ErrorView};
use crate::service::{named, Service};
use crate::text::{copy_all, last_segment, last_segment_of};

verus! {

/// What one run works with. A value that is `None` was given nowhere.
#[derive(Debug, Clone, PartialEq, Eq)]
pub struct Config {
    pub service: Service,
    pub flag_name: Option<String>,
    pub repo_token: Option<String>,
    pub service_project_id: Option<String>,
    pub service_build_id: Option<String>,
    pub service_build_version: Option<String>,
    pub service_build_number: Option<String>,
    pub service_build_url: Option<String>,
    pub service_pull_request: Option<String>,
    pub service_job_id: Option<String>,
    pub service_job_name: Option<String>,
    pub service_job_number: Option<String>,
    pub service_repo_name: Option<String>,
    pub git_id: Option<String>,
    pub git_tag: Option<String>,
    pub git_branch: Option<String>,
    pub git_message: Option<String>,
    pub git_author_name: Option<String>,
    pub git_author_email: Option<String>,
    pub git_committer_name: Option<String>,
    pub git_committer_email: Option<String>,
    pub git_remote_name: Option<String>,
    pub git_remote_url: Option<String>,
    pub param_prune_absolutes: bool,
    pub param_prune_dirs: Vec<String>,
    pub param_src_prefix: Option<String>,
}

/// A [`Config`] with its texts as sequences of characters.
pub struct ConfigView {
    pub service: Service,
    pub flag_name: Option<Seq<char>>,
    pub repo_token: Option<Seq<char>>,
    pub service_project_id: Option<Seq<char>>,
    pub service_build_id: Option<Seq<char>>,
    pub service_build_version: Option<Seq<char>>,
    pub service_build_number: Option<Seq<char>>,
    pub service_build_url: Option<Seq<char>>,
    pub service_pull_request: Option<Seq<char>>,
    pub service_job_id: Option<Seq<char>>,
    pub service_job_name: Option<Seq<char>>,
    pub service_job_number: Option<Seq<char>>,
    pub service_repo_name: Option<Seq<char>>,
    pub git_id: Option<Seq<char>>,
    pub git_tag: Option<Seq<char>>,
    pub git_branch: Option<Seq<char>>,
    pub git_message: Option<Seq<char>>,
    pub git_author_name: Option<Seq<char>>,
    pub git_author_email: Option<Seq<char>>,
    pub git_committer_name: Option<Seq<char>>,
    pub git_committer_email: Option<Seq<char>>,
    pub git_remote_name: Option<Seq<char>>,
    pub git_remote_url: Option<Seq<char>>,
    pub param_prune_absolutes: bool,
    pub param_prune_dirs: Seq<Seq<char>>,
    pub param_src_prefix: Option<Seq<char>>,
}

impl View for Config {
    type V = ConfigView;

    open spec fn view(&self) -> ConfigView {
        ConfigView {
            service: self.service,
            flag_name: self.flag_name.deep_view(),
            repo_token: self.repo_token.deep_view(),
            service_project_id: self.service_project_id.deep_view(),
            service_build_id: self.service_build_id.deep_view(),
            service_build_version: self.service_build_version.deep_view(),
            service_build_number: self.service_build_number.deep_view(),
            service_build_url: self.service_build_url.deep_view(),
            service_pull_request: self.service_pull_request.deep_view(),
            service_job_id: self.service_job_id.deep_view(),
            service_job_name: self.service_job_name.deep_view(),
            service_job_number: self.service_job_number.deep_view(),
            service_repo_name: self.service_repo_name.deep_view(),
            git_id: self.git_id.deep_view(),
            git_tag: self.git_tag.deep_view(),
            git_branch: self.git_branch.deep_view(),
            git_message: self.git_message.deep_view(),
            git_author_name: self.git_author_name.deep_view(),
            git_author_email: self.git_author_email.deep_view(),
            git_committer_name: self.git_committer_name.deep_view(),
            git_committer_email: self.git_committer_email.deep_view(),
            git_remote_name: self.git_remote_name.deep_view(),
            git_remote_url: self.git_remote_url.deep_view(),
            param_prune_absolutes: self.param_prune_absolutes,
            param_prune_dirs: self.param_prune_dirs.deep_view(),
            param_src_prefix: self.param_src_prefix.deep_view(),
        }
    }
}

/// `later` where it holds a value, else `earlier`: a later step replaces a
/// value and never clears one.
pub open spec fn or(later: Option<Seq<char>>, earlier: Option<Seq<char>>) -> Option<Seq<char>> {
    match later {
        Some(_) => later,
        None => earlier,
    }
}

/// What follows the last `/` of `later` where it holds a value, else
/// `earlier`.
pub open spec fn or_last_segment(later: Option<Seq<char>>, earlier: Option<Seq<char>>) -> Option<
    Seq<char>,
> {
    match later {
        Some(value) => Some(last_segment_of(value)),
        None => earlier,
    }
}

/// Puts `later` in `slot` where it holds a value.
pub fn replace(slot: &mut Option<String>, later: Option<String>)
    ensures
        final(slot).deep_view() == or(later.deep_view(), old(slot).deep_view()),
{
    if let Some(value) = later {
        *slot = Some(value);
    }
}

/// Puts what follows the last `/` of `later` in `slot` where `later` holds a
/// value.
pub fn replace_with_last_segment(slot: &mut Option<String>, later: Option<String>)
    ensures
        final(slot).deep_view() == or_last_segment(later.deep_view(), old(slot).deep_view()),
{
    if let Some(value) = later {
        *slot = Some(last_segment(value.as_str()));
    }
}

/// The failure of the first name of `names`, from position `from` on, that
/// cannot be read from `env`.
pub open spec fn first_failure(
    env: Map<Seq<char>, ValueView>,
    names: Seq<Seq<char>>,
    from: int,
) -> Option<ErrorView>
    decreases names.len() - from,
{
    if 0 <= from < names.len() {
        match var_of(env, names[from]) {
            Err(e) => Some(e),
            Ok(_) => first_failure(env, names, from + 1),
        }
    } else {
        None
    }
}

/// The variables that every configuration starts from, in the order in which
/// they are read.
pub open spec fn common_names() -> Seq<Seq<char>> {
    seq![
        "COVERALLS_FLAG_NAME"@,
        "COVERALLS_REPO_TOKEN"@,
        "GIT_ID"@,
        "GIT_MESSAGE"@,
        "GIT_AUTHOR_NAME"@,
        "GIT_AUTHOR_EMAIL"@,
        "GIT_COMMITTER_NAME"@,
        "GIT_COMMITTER_EMAIL"@,
        "GIT_REMOTE"@,
        "GIT_URL"@,
        "GIT_TAG"@,
        "GIT_BRANCH"@,
    ]
}

/// The failure to read one of the variables that every configuration starts
/// from. `BRANCH_NAME` is read only where `GIT_BRANCH` gives nothing.
pub open spec fn seed_failure(env: Map<Seq<char>, ValueView>) -> Option<ErrorView> {
    match first_failure(env, common_names(), 0) {
        Some(e) => Some(e),
        None => match (text_of(env, "GIT_BRANCH"@), var_of(env, "BRANCH_NAME"@)) {
            (None, Err(e)) => Some(e),
            _ => None,
        },
    }
}

/// The configuration that a run for `service` starts from.
pub open spec fn seeded(service: Service, env: Map<Seq<char>, ValueView>) -> ConfigView {
    ConfigView {
        service,
        flag_name: text_of(env, "COVERALLS_FLAG_NAME"@),
        repo_token: text_of(env, "COVERALLS_REPO_TOKEN"@),
        service_project_id: None,
        service_build_id: None,
        service_build_version: None,
        service_build_number: None,
        service_build_url: None,
        service_pull_request: None,
        service_job_id: None,
        service_job_name: None,
        service_job_number: None,
        service_repo_name: None,
        git_id: text_of(env, "GIT_ID"@),
        git_tag: text_of(env, "GIT_TAG"@),
        git_branch: or(text_of(env, "GIT_BRANCH"@), text_of(env, "BRANCH_NAME"@)),
        git_message: text_of(env, "GIT_MESSAGE"@),
        git_author_name: text_of(env, "GIT_AUTHOR_NAME"@),
        git_author_email: text_of(env, "GIT_AUTHOR_EMAIL"@),
        git_committer_name: text_of(env, "GIT_COMMITTER_NAME"@),
        git_committer_email: text_of(env, "GIT_COMMITTER_EMAIL"@),
        git_remote_name: text_of(env, "GIT_REMOTE"@),
        git_remote_url: text_of(env, "GIT_URL"@),
        param_prune_absolutes: false,
        param_prune_dirs: Seq::empty(),
        param_src_prefix: None,
    }
}

/// Whether an argument gives a value: it is there, and not empty.
pub open spec fn given(argument: Option<Seq<char>>) -> bool {
    argument matches Some(value) && value.len() > 0
}

/// `argument` where it gives a value, else `earlier`.
pub open spec fn over(argument: Option<Seq<char>>, earlier: Option<Seq<char>>) -> Option<
    Seq<char>,
> {
    if given(argument) {
        argument
    } else {
        earlier
    }
}

/// Puts `argument` in `slot` where it gives a value.
pub fn replace_given(slot: &mut Option<String>, argument: &Option<String>)
    ensures
        final(slot).deep_view() == over(argument.deep_view(), old(slot).deep_view()),
{
    if let Some(value) = argument {
        if !value.as_str().is_empty() {
            *slot = Some(value.clone());
        }
    }
}

/// `c` after each argument that gives a value has replaced the value it
/// stands for.
pub open spec fn configured(c: ConfigView, args: CliServiceArgs) -> ConfigView {
    ConfigView {
        flag_name: over(args.flag_name.deep_view(), c.flag_name),
        repo_token: over(args.repo_token.deep_view(), c.repo_token),
        service_project_id: over(args.project_id.deep_view(), c.service_project_id),
        service_build_id: over(args.service_build_id.deep_view(), c.service_build_id),
        service_build_number: over(args.service_build_number.deep_view(), c.service_build_number),
        service_build_version: over(
            args.service_build_version.deep_view(),
            c.service_build_version,
        ),
        service_build_url: over(args.service_build_url.deep_view(), c.service_build_url),
        service_pull_request: over(args.service_pull_request.deep_view(), c.service_pull_request),
        service_job_id: over(args.service_job_id.deep_view(), c.service_job_id),
        service_job_name: over(args.service_job_name.deep_view(), c.service_job_name),
        service_job_number: over(args.service_job_number.deep_view(), c.service_job_number),
        service_repo_name: over(args.service_repo_name.deep_view(), c.service_repo_name),
        git_id: over(args.git_id.deep_view(), c.git_id),
        git_branch: over(args.git_branch.deep_view(), c.git_branch),
        git_tag: over(args.git_tag.deep_view(), c.git_tag),
        git_message: over(args.git_message.deep_view(), c.git_message),
        git_author_name: over(args.git_author_name.deep_view(), c.git_author_name),
        git_author_email: over(args.git_author_email.deep_view(), c.git_author_email),
        git_committer_name: over(args.git_committer_name.deep_view(), c.git_committer_name),
        git_committer_email: over(args.git_committer_email.deep_view(), c.git_committer_email),
        git_remote_name: over(args.git_remote_name.deep_view(), c.git_remote_name),
        git_remote_url: over(args.git_remote_url.deep_view(), c.git_remote_url),
        ..c
    }
}

/// Whether `value` is the argument's where the argument gives one.
pub open spec fn wins(argument: Option<Seq<char>>, value: Option<Seq<char>>) -> bool {
    given(argument) ==> value == argument
}

/// Whether `c` holds every value that `args` gives.
pub open spec fn arguments_win(args: CliServiceArgs, c: ConfigView) -> bool {
    &&& wins(args.flag_name.deep_view(), c.flag_name)
    &&& wins(args.repo_token.deep_view(), c.repo_token)
    &&& wins(args.project_id.deep_view(), c.service_project_id)
    &&& wins(args.service_build_id.deep_view(), c.service_build_id)
    &&& wins(args.service_build_number.deep_view(), c.service_build_number)
    &&& wins(args.service_build_version.deep_view(), c.service_build_version)
    &&& wins(args.service_build_url.deep_view(), c.service_build_url)
    &&& wins(args.service_pull_request.deep_view(), c.service_pull_request)
    &&& wins(args.service_job_id.deep_view(), c.service_job_id)
    &&& wins(args.service_job_name.deep_view(), c.service_job_name)
    &&& wins(args.service_job_number.deep_view(), c.service_job_number)
    &&& wins(args.service_repo_name.deep_view(), c.service_repo_name)
    &&& wins(args.git_id.deep_view(), c.git_id)
    &&& wins(args.git_branch.deep_view(), c.git_branch)
    &&& wins(args.git_tag.deep_view(), c.git_tag)
    &&& wins(args.git_message.deep_view(), c.git_message)
    &&& wins(args.git_author_name.deep_view(), c.git_author_name)
    &&& wins(args.git_author_email.deep_view(), c.git_author_email)
    &&& wins(args.git_committer_name.deep_view(), c.git_committer_name)
    &&& wins(args.git_committer_email.deep_view(), c.git_committer_email)
    &&& wins(args.git_remote_name.deep_view(), c.git_remote_name)
    &&& wins(args.git_remote_url.deep_view(), c.git_remote_url)
}

/// Whether `args` gives no value at all.
pub open spec fn gives_nothing(args: CliServiceArgs) -> bool {
    &&& !given(args.flag_name.deep_view())
    &&& !given(args.repo_token.deep_view())
    &&& !given(args.project_id.deep_view())
    &&& !given(args.service_build_id.deep_view())
    &&& !given(args.service_build_number.deep_view())
    &&& !given(args.service_build_version.deep_view())
    &&& !given(args.service_build_url.deep_view())
    &&& !given(args.service_pull_request.deep_view())
    &&& !given(args.service_job_id.deep_view())
    &&& !given(args.service_job_name.deep_view())
    &&& !given(args.service_job_number.deep_view())
    &&& !given(args.service_repo_name.deep_view())
    &&& !given(args.git_id.deep_view())
    &&& !given(args.git_branch.deep_view())
    &&& !given(args.git_tag.deep_view())
    &&& !given(args.git_message.deep_view())
    &&& !given(args.git_author_name.deep_view())
    &&& !given(args.git_author_email.deep_view())
    &&& !given(args.git_committer_name.deep_view())
    &&& !given(args.git_committer_email.deep_view())
    &&& !given(args.git_remote_name.deep_view())
    &&& !given(args.git_remote_url.deep_view())
}

/// `c` with the run parameters of `cli`: the pruning of absolute paths as
/// given, the prefix and the pruned directories where they are given.
pub open spec fn with_parameters(c: ConfigView, cli: CliArgs) -> ConfigView {
    ConfigView {
        param_prune_absolutes: cli.prune_absolutes,
        param_src_prefix: or(cli.source_prefix.deep_view(), c.param_src_prefix),
        param_prune_dirs: match cli.prune_dir {
            Some(dirs) => dirs.deep_view(),
            None => c.param_prune_dirs,
        },
        ..c
    }
}

/// The service that a command names, with the values given for it.
pub open spec fn command_service(command: CliService) -> Option<(Service, CliServiceArgs)> {
    match command {
        CliService::Actions(args) => Some((Service::GithubActions, args)),
        CliService::AppVeyor(args) => Some((Service::AppVeyor, args)),
        CliService::BuildKite(args) => Some((Service::BuildKite, args)),
        CliService::CircleCI(args) => Some((Service::CircleCI, args)),
        CliService::Jenkins(args) => Some((Service::Jenkins, args)),
        CliService::Semaphore(args) => Some((Service::Semaphore, args)),
        CliService::Travis(args) => Some((Service::Travis, args)),
        CliService::Env => None,
    }
}

/// The failure to read one of the variables of `service`.
pub open spec fn provider_failure(service: Service, env: Map<Seq<char>, ValueView>) -> Option<
    ErrorView,
> {
    match service {
        Service::AppVeyor => first_failure(env, appveyor::names(), 0),
        Service::BuildKite => first_failure(env, buildkite::names(), 0),
        Service::CircleCI => first_failure(env, circleci::names(), 0),
        Service::GithubActions => github_actions::failure(env),
        Service::Jenkins => first_failure(env, jenkins::names(), 0),
        Service::Semaphore => first_failure(env, semaphore::names(), 0),
        Service::Travis => first_failure(env, travis::names(), 0),
    }
}

/// `c` after the variables of `service` have been taken in.
pub open spec fn provider_loaded(
    service: Service,
    c: ConfigView,
    env: Map<Seq<char>, ValueView>,
) -> ConfigView {
    match service {
        Service::AppVeyor => appveyor::loaded(c, env),
        Service::BuildKite => buildkite::loaded(c, env),
        Service::CircleCI => circleci::loaded(c, env),
        Service::GithubActions => github_actions::loaded(c, env),
        Service::Jenkins => jenkins::loaded(c, env),
        Service::Semaphore => semaphore::loaded(c, env),
        Service::Travis => travis::loaded(c, env),
    }
}

/// The configuration for a command: nothing where the command leaves the
/// service to the environment; else the common variables, then those of the
/// service, then the arguments, each step over the one before.
pub open spec fn from_command(command: CliService, env: Map<Seq<char>, ValueView>) -> Result<
    Option<ConfigView>,
    ErrorView,
> {
    match command_service(command) {
        None => Ok(None),
        Some((service, args)) => match seed_failure(env) {
            Some(e) => Err(e),
            None => match provider_failure(service, env) {
                Some(e) => Err(e),
                None => Ok(
                    Some(configured(provider_loaded(service, seeded(service, env), env), args)),
                ),
            },
        },
    }
}

/// The configuration for the service that goes by `name`, from the common
/// variables and then those that `CI_NAME` introduces.
pub open spec fn from_ci_name(name: Seq<char>, env: Map<Seq<char>, ValueView>) -> Result<
    Option<ConfigView>,
    ErrorView,
> {
    match named(name) {
        None => Err(ErrorView::UnknownService(name)),
        Some(service) => match seed_failure(env) {
            Some(e) => Err(e),
            None => match first_failure(env, generic::names(), 0) {
                Some(e) => Err(e),
                None => Ok(Some(generic::loaded(seeded(service, env), env))),
            },
        },
    }
}

/// The configuration for the service that goes by `name`, from the common
/// variables and then those that `COVERALLS_SERVICE_NAME` introduces.
pub open spec fn from_service_name(name: Seq<char>, env: Map<Seq<char>, ValueView>) -> Result<
    Option<ConfigView>,
    ErrorView,
> {
    match named(name) {
        None => Err(ErrorView::UnknownService(name)),
        Some(service) => match seed_failure(env) {
            Some(e) => Err(e),
            None => match first_failure(env, coveralls_env::names(), 0) {
                Some(e) => Err(e),
                None => Ok(Some(coveralls_env::loaded(seeded(service, env), env))),
            },
        },
    }
}

/// The configuration that the environment alone describes: for the service
/// that `CI_NAME` names, else for the one that `COVERALLS_SERVICE_NAME` names,
/// else nothing.
pub open spec fn from_environment(env: Map<Seq<char>, ValueView>) -> Result<
    Option<ConfigView>,
    ErrorView,
> {
    match var_of(env, "CI_NAME"@) {
        Err(e) => Err(e),
        Ok(Some(name)) => from_ci_name(name, env),
        Ok(None) => match var_of(env, "COVERALLS_SERVICE_NAME"@) {
            Err(e) => Err(e),
            Ok(Some(name)) => from_service_name(name, env),
            Ok(None) => Ok(None),
        },
    }
}

/// The configuration of a run: that of the command, else that of the
/// environment, with the run parameters; a failure where neither names a
/// service.
pub open spec fn resolved(cli: CliArgs, env: Map<Seq<char>, ValueView>) -> Result<
    ConfigView,
    ErrorView,
> {
    match from_command(cli.service, env) {
        Err(e) => Err(e),
        Ok(Some(c)) => Ok(with_parameters(c, cli)),
        Ok(None) => match from_environment(env) {
            Err(e) => Err(e),
            Ok(Some(c)) => Ok(with_parameters(c, cli)),
            Ok(None) => Err(ErrorView::NoService),
        },
    }
}

/// A configuration that was or was not found, or the failure, over views.
pub open spec fn found(res: Result<Option<Config>, Error>) -> Result<
    Option<ConfigView>,
    ErrorView,
> {
    match res {
        Ok(Some(config)) => Ok(Some(config@)),
        Ok(None) => Ok(None),
        Err(e) => Err(e@),
    }
}

impl Config {
    /// The configuration that a run for `service` starts from: the repo token,
    /// the flag name and the values of the commit, from the variables that hold
    /// for every service.
    pub fn new(service: Service, env: &Env) -> (res: Result<Config, Error>)
        ensures
            match seed_failure(env@) {
                Some(e) => res matches Err(x) && x@ == e,
                None => res matches Ok(config) && config@ == seeded(service, env@),
            },
    {
        proof {
            reveal_with_fuel(first_failure, 13);
        }
        let flag_name = env.get_var("COVERALLS_FLAG_NAME")?;
        let repo_token = env.get_var("COVERALLS_REPO_TOKEN")?;
        let git_id = env.get_var("GIT_ID")?;
        let git_message = env.get_var("GIT_MESSAGE")?;
        let git_author_name = env.get_var("GIT_AUTHOR_NAME")?;
        let git_author_email = env.get_var("GIT_AUTHOR_EMAIL")?;
        let git_committer_name = env.get_var("GIT_COMMITTER_NAME")?;
        let git_committer_email = env.get_var("GIT_COMMITTER_EMAIL")?;
        let git_remote_name = env.get_var("GIT_REMOTE")?;
        let git_remote_url = env.get_var("GIT_URL")?;
        let git_tag = env.get_var("GIT_TAG")?;
        let git_branch = match env.get_var("GIT_BRANCH")? {
            Some(v) => Some(v),
            None => env.get_var("BRANCH_NAME")?,
        };
        let config = Config {
            service,
            flag_name,
            repo_token,
            service_project_id: None,
            service_build_id: None,
            service_build_version: None,
            service_build_number: None,
            service_build_url: None,
            service_pull_request: None,
            service_job_id: None,
            service_job_name: None,
            service_job_number: None,
            service_repo_name: None,
            param_prune_absolutes: false,
            param_prune_dirs: Vec::new(),
            param_src_prefix: None,
            git_id,
            git_message,
            git_author_name,
            git_author_email,
            git_committer_name,
            git_committer_email,
            git_remote_name,
            git_remote_url,
            git_tag,
            git_branch,
        };
        assert(config.param_prune_dirs.deep_view() =~= Seq::<Seq<char>>::empty());
        Ok(config)
    }

    /// The configuration for the command in `cli`: see [`from_command`].
    pub fn load_from_command(cli: &CliArgs, env: &Env) -> (res: Result<Option<Config>, Error>)
        ensures
            found(res) == from_command(cli.service, env@),
    {
        let (service, args) = match &cli.service {
            CliService::Actions(args) => (Service::GithubActions, args),
            CliService::AppVeyor(args) => (Service::AppVeyor, args),
            CliService::BuildKite(args) => (Service::BuildKite, args),
            CliService::CircleCI(args) => (Service::CircleCI, args),
            CliService::Jenkins(args) => (Service::Jenkins, args),
            CliService::Semaphore(args) => (Service::Semaphore, args),
            CliService::Travis(args) => (Service::Travis, args),
            CliService::Env => {
                return Ok(None);
            },
        };
        let mut config = Config::new(service, env)?;
        match service {
            Service::AppVeyor => {
                appveyor::load_config(&mut config, env)?;
            },
            Service::BuildKite => {
                buildkite::load_config(&mut config, env)?;
            },
            Service::CircleCI => {
                circleci::load_config(&mut config, env)?;
            },
            Service::GithubActions => {
                github_actions::load_config(&mut config, env)?;
            },
            Service::Jenkins => {
                jenkins::load_config(&mut config, env)?;
            },
            Service::Semaphore => {
                semaphore::load_config(&mut config, env)?;
            },
            Service::Travis => {
                travis::load_config(&mut config, env)?;
            },
        }
        config.configure(args);
        Ok(Some(config))
    }

    /// The configuration that the environment alone describes: see
    /// [`from_environment`].
    pub fn load_from_environment(env: &Env) -> (res: Result<Option<Config>, Error>)
        ensures
            found(res) == from_environment(env@),
    {
        if let Some(name) = env.get_var("CI_NAME")? {
            return if let Some(service) = Service::from_name(name.as_str()) {
                let mut config = Config::new(service, env)?;
                generic::load_config(&mut config, env)?;
                Ok(Some(config))
            } else {
                Err(Error::UnknownService(name))
            };
        }
        if let Some(name) = env.get_var("COVERALLS_SERVICE_NAME")? {
            return if let Some(service) = Service::from_name(name.as_str()) {
                let mut config = Config::new(service, env)?;
                coveralls_env::load_config(&mut config, env)?;
                Ok(Some(config))
            } else {
                Err(Error::UnknownService(name))
            };
        }
        Ok(None)
    }

    /// The configuration of a run: see [`resolved`].
    pub fn resolve(cli: &CliArgs, env: &Env) -> (res: Result<Config, Error>)
        ensures
            match resolved(*cli, env@) {
                Ok(c) => res matches Ok(config) && config@ == c,
                Err(e) => res matches Err(x) && x@ == e,
            },
    {
        let config = match Config::load_from_command(cli, env)? {
            Some(config) => Some(config),
            None => Config::load_from_environment(env)?,
        };
        match config {
            Some(config) => Ok(config.init_parameters(cli)),
            None => Err(Error::NoService),
        }
    }

    /// Takes in each argument that gives a value, over what is there.
    pub fn configure(&mut self, args: &CliServiceArgs)
        ensures
            final(self)@ == configured(old(self)@, *args),
    {
        replace_given(&mut self.flag_name, &args.flag_name);
        replace_given(&mut self.repo_token, &args.repo_token);
        replace_given(&mut self.service_project_id, &args.project_id);
        replace_given(&mut self.service_build_id, &args.service_build_id);
        replace_given(&mut self.service_build_number, &args.service_build_number);
        replace_given(&mut self.service_build_version, &args.service_build_version);
        replace_given(&mut self.service_build_url, &args.service_build_url);
        replace_given(&mut self.service_pull_request, &args.service_pull_request);
        replace_given(&mut self.service_job_id, &args.service_job_id);
        replace_given(&mut self.service_job_name, &args.service_job_name);
        replace_given(&mut self.service_job_number, &args.service_job_number);
        replace_given(&mut self.service_repo_name, &args.service_repo_name);
        replace_given(&mut self.git_id, &args.git_id);
        replace_given(&mut self.git_branch, &args.git_branch);
        replace_given(&mut self.git_tag, &args.git_tag);
        replace_given(&mut self.git_message, &args.git_message);
        replace_given(&mut self.git_author_name, &args.git_author_name);
        replace_given(&mut self.git_author_email, &args.git_author_email);
        replace_given(&mut self.git_committer_name, &args.git_committer_name);
        replace_given(&mut self.git_committer_email, &args.git_committer_email);
        replace_given(&mut self.git_remote_name, &args.git_remote_name);
        replace_given(&mut self.git_remote_url, &args.git_remote_url);
    }

    /// Takes in the run parameters of `cli`.
    pub fn init_parameters(self, cli: &CliArgs) -> (res: Config)
        ensures
            res@ == with_parameters(self@, *cli),
    {
        let mut config = self;
        config.param_prune_absolutes = cli.prune_absolutes;
        if let Some(prefix) = &cli.source_prefix {
            config.param_src_prefix = Some(prefix.clone());
        }
        if let Some(dirs) = &cli.prune_dir {
            config.param_prune_dirs = copy_all(dirs);
        }
        config
    }
}

/// An argument that gives a value decides: whatever the environment says of
/// the same value, the configuration of the run holds the argument's.
pub proof fn lemma_arguments_win(
    cli: CliArgs,
    env: Map<Seq<char>, ValueView>,
    service: Service,
    args: CliServiceArgs,
    c: ConfigView,
)
    requires
        command_service(cli.service) == Some((service, args)),
        resolved(cli, env) == Ok::<ConfigView, ErrorView>(c),
    ensures
        arguments_win(args, c),
{
}

/// Where the command line gives no value, the environment decides: the
/// configuration for a command holds what the common variables say and, over
/// that, what the variables of the service say, each value by the mapping of
/// that service.
pub proof fn lemma_environment_decides(
    command: CliService,
    env: Map<Seq<char>, ValueView>,
    service: Service,
    args: CliServiceArgs,
)
    requires
        command_service(command) == Some((service, args)),
        gives_nothing(args),
        seed_failure(env) is None,
        provider_failure(service, env) is None,
    ensures
        from_command(command, env) == Ok::<Option<ConfigView>, ErrorView>(
            Some(provider_loaded(service, seeded(service, env), env)),
        ),
{
}

} // verus!
