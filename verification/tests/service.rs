use coveralls::Service;

#[test]
fn service_names_round_trip() {
    let all = [
        (Service::AppVeyor, "appveyor"),
        (Service::BuildKite, "buildkite"),
        (Service::CircleCI, "circleci"),
        (Service::GithubActions, "github-actions"),
        (Service::Jenkins, "jenkins"),
        (Service::Semaphore, "semaphore-ci"),
        (Service::Travis, "travis-ci"),
    ];
    for (service, name) in all {
        assert_eq!(service.get_name(), name);
        assert_eq!(Service::from_name(name), Some(service));
    }
}

#[test]
fn unknown_service_name_is_none() {
    assert_eq!(Service::from_name("gitlab"), None);
    assert_eq!(Service::from_name(""), None);
    assert_eq!(Service::from_name("CircleCI"), None);
}
