//! The build services that the library knows.

use vstd::prelude::*;
use crate::env::{var_of, Env, ValueView};
use crate::error::{viewed, Error, ErrorView};
use crate::text::same_text;

verus! {

/// A build service.
#[derive(Copy, Clone, Debug, PartialEq, Eq, Structural)]
pub enum Service {
    AppVeyor,
    BuildKite,
    CircleCI,
    GithubActions,
    Jenkins,
    Semaphore,
    Travis,
}

/// The service that goes by `name`, if any.
pub open spec fn named(name: Seq<char>) -> Option<Service> {
    if name == "circleci"@ {
        Some(Service::CircleCI)
    } else if name == "travis-ci"@ {
        Some(Service::Travis)
    } else if name == "appveyor"@ {
        Some(Service::AppVeyor)
    } else if name == "jenkins"@ {
        Some(Service::Jenkins)
    } else if name == "semaphore-ci"@ {
        Some(Service::Semaphore)
    } else if name == "github-actions"@ {
        Some(Service::GithubActions)
    } else if name == "buildkite"@ {
        Some(Service::BuildKite)
    } else {
        None
    }
}

/// `service` when `name` is set in `env`, `otherwise` when it is not, and the
/// failure when it cannot be read.
pub open spec fn probe(
    env: Map<Seq<char>, ValueView>,
    name: Seq<char>,
    service: Service,
    otherwise: Result<Option<Service>, ErrorView>,
) -> Result<Option<Service>, ErrorView> {
    match var_of(env, name) {
        Err(e) => Err(e),
        Ok(Some(_)) => Ok(Some(service)),
        Ok(None) => otherwise,
    }
}

/// The service whose own marker variable is set in `env`; of several, the
/// first in the order written here.
pub open spec fn detected(env: Map<Seq<char>, ValueView>) -> Result<Option<Service>, ErrorView> {
    probe(
        env,
        "CIRCLECI"@,
        Service::CircleCI,
        probe(
            env,
            "TRAVIS"@,
            Service::Travis,
            probe(
                env,
                "GITHUB_ACTIONS"@,
                Service::GithubActions,
                probe(
                    env,
                    "JENKINS_HOME"@,
                    Service::Jenkins,
                    probe(
                        env,
                        "APPVEYOR"@,
                        Service::AppVeyor,
                        probe(
                            env,
                            "SEMAPHORE"@,
                            Service::Semaphore,
                            probe(env, "BUILDKITE"@, Service::BuildKite, Ok(None)),
                        ),
                    ),
                ),
            ),
        ),
    )
}

impl Service {
    /// The name under which the service is known to the web API.
    pub open spec fn name_text(self) -> Seq<char> {
        match self {
            Service::CircleCI => "circleci"@,
            Service::AppVeyor => "appveyor"@,
            Service::BuildKite => "buildkite"@,
            Service::GithubActions => "github-actions"@,
            Service::Jenkins => "jenkins"@,
            Service::Semaphore => "semaphore-ci"@,
            Service::Travis => "travis-ci"@,
        }
    }

    /// The service that goes by `name`, if any: each service is found under
    /// its own name, and nothing is found under any other text.
    pub fn from_name(name: &str) -> (res: Option<Service>)
        ensures
            res == named(name@),
            name@ == "circleci"@ ==> res == Some(Service::CircleCI),
            name@ == "travis-ci"@ ==> res == Some(Service::Travis),
            name@ == "appveyor"@ ==> res == Some(Service::AppVeyor),
            name@ == "jenkins"@ ==> res == Some(Service::Jenkins),
            name@ == "semaphore-ci"@ ==> res == Some(Service::Semaphore),
            name@ == "github-actions"@ ==> res == Some(Service::GithubActions),
            name@ == "buildkite"@ ==> res == Some(Service::BuildKite),
            res matches Some(service) ==> name@ == service.name_text(),
    {
        proof {
            lemma_name_names_service(Service::CircleCI);
            lemma_name_names_service(Service::Travis);
            lemma_name_names_service(Service::AppVeyor);
            lemma_name_names_service(Service::Jenkins);
            lemma_name_names_service(Service::Semaphore);
            lemma_name_names_service(Service::GithubActions);
            lemma_name_names_service(Service::BuildKite);
        }
        if same_text(name, "circleci") {
            Some(Service::CircleCI)
        } else if same_text(name, "travis-ci") {
            Some(Service::Travis)
        } else if same_text(name, "appveyor") {
            Some(Service::AppVeyor)
        } else if same_text(name, "jenkins") {
            Some(Service::Jenkins)
        } else if same_text(name, "semaphore-ci") {
            Some(Service::Semaphore)
        } else if same_text(name, "github-actions") {
            Some(Service::GithubActions)
        } else if same_text(name, "buildkite") {
            Some(Service::BuildKite)
        } else {
            None
        }
    }

    /// The service whose own marker variable is set in `env`.
    pub fn from_env(env: &Env) -> (res: Result<Option<Service>, Error>)
        ensures
            viewed(res) == detected(env@),
    {
        if env.get_var("CIRCLECI")?.is_some() {
            return Ok(Some(Service::CircleCI));
        }
        if env.get_var("TRAVIS")?.is_some() {
            return Ok(Some(Service::Travis));
        }
        if env.get_var("GITHUB_ACTIONS")?.is_some() {
            return Ok(Some(Service::GithubActions));
        }
        if env.get_var("JENKINS_HOME")?.is_some() {
            return Ok(Some(Service::Jenkins));
        }
        if env.get_var("APPVEYOR")?.is_some() {
            return Ok(Some(Service::AppVeyor));
        }
        if env.get_var("SEMAPHORE")?.is_some() {
            return Ok(Some(Service::Semaphore));
        }
        if env.get_var("BUILDKITE")?.is_some() {
            return Ok(Some(Service::BuildKite));
        }
        Ok(None)
    }

    /// The name under which the service is known to the web API.
    pub fn get_name(&self) -> (name: &'static str)
        ensures
            name@ == self.name_text(),
    {
        match self {
            Service::CircleCI => "circleci",
            Service::AppVeyor => "appveyor",
            Service::BuildKite => "buildkite",
            Service::GithubActions => "github-actions",
            Service::Jenkins => "jenkins",
            Service::Semaphore => "semaphore-ci",
            Service::Travis => "travis-ci",
        }
    }
}

/// A service is found again under its own name.
pub proof fn lemma_name_names_service(service: Service)
    ensures
        named(service.name_text()) == Some(service),
{
    reveal_strlit("circleci");
    reveal_strlit("travis-ci");
    reveal_strlit("appveyor");
    reveal_strlit("jenkins");
    reveal_strlit("semaphore-ci");
    reveal_strlit("github-actions");
    reveal_strlit("buildkite");
    assert("circleci"@.len() == 8 && "travis-ci"@.len() == 9 && "appveyor"@.len() == 8);
    assert("jenkins"@.len() == 7 && "semaphore-ci"@.len() == 12);
    assert("github-actions"@.len() == 14 && "buildkite"@.len() == 9);
    assert("appveyor"@[0] == 'a' && "circleci"@[0] == 'c');
    assert("buildkite"@[0] == 'b' && "travis-ci"@[0] == 't');
}

} // verus!
