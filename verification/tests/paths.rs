use coveralls::helpers::{
    adjoin, components, is_absolute, path_component_as_str, path_to_string, render, same_component,
    starts_with, Component,
};

fn normal(text: &str) -> Component {
    Component::Normal(String::from(text))
}

#[test]
fn components_of_relative_path() {
    assert_eq!(components("src/a.c"), vec![normal("src"), normal("a.c")]);
    assert_eq!(components(""), Vec::<Component>::new());
    assert_eq!(components("a"), vec![normal("a")]);
}

#[test]
fn components_of_absolute_path() {
    assert_eq!(
        components("/etc/passwd"),
        vec![Component::RootDir, normal("etc"), normal("passwd")]
    );
    assert_eq!(components("/"), vec![Component::RootDir]);
    assert_eq!(components("//a"), vec![Component::RootDir, normal("a")]);
}

#[test]
fn components_skip_repeated_and_trailing_separators() {
    assert_eq!(components("a//b/"), vec![normal("a"), normal("b")]);
    assert_eq!(components("a/b///"), vec![normal("a"), normal("b")]);
}

#[test]
fn dot_counts_only_at_the_beginning() {
    assert_eq!(components("./a/./b/."), vec![Component::CurDir, normal("a"), normal("b")]);
    assert_eq!(components("."), vec![Component::CurDir]);
    assert_eq!(components("./"), vec![Component::CurDir]);
    assert_eq!(components("/./a"), vec![Component::RootDir, normal("a")]);
    assert_eq!(components("a/."), vec![normal("a")]);
    assert_eq!(components(".a"), vec![normal(".a")]);
    assert_eq!(components("..."), vec![normal("...")]);
}

#[test]
fn dot_dot_is_kept_everywhere() {
    assert_eq!(
        components("../a/../b"),
        vec![Component::ParentDir, normal("a"), Component::ParentDir, normal("b")]
    );
    assert_eq!(components("/.."), vec![Component::RootDir, Component::ParentDir]);
    assert_eq!(components("./.."), vec![Component::CurDir, Component::ParentDir]);
}

#[test]
fn components_agree_with_the_standard_library_on_unix() {
    if std::path::MAIN_SEPARATOR != '/' {
        return;
    }
    let paths = [
        "", "/", ".", "..", "a", "a/b", "/a/b", "a//b", "a/./b", "./a", "../a", "a/..", "a/.",
        "/./a", "//", "/..", "./.", ".//a", "a/b/", "...", ".a", "a b/c", "C:/x", "a\\b/c",
    ];
    for path in paths {
        let expected: Vec<Component> = std::path::Path::new(path)
            .components()
            .map(|c| match c {
                std::path::Component::Prefix(p) => {
                    Component::Prefix(p.as_os_str().to_string_lossy().into_owned())
                }
                std::path::Component::RootDir => Component::RootDir,
                std::path::Component::CurDir => Component::CurDir,
                std::path::Component::ParentDir => Component::ParentDir,
                std::path::Component::Normal(v) => {
                    Component::Normal(v.to_string_lossy().into_owned())
                }
            })
            .collect();
        assert_eq!(components(path), expected, "for {:?}", path);
        assert_eq!(
            is_absolute(path),
            std::path::Path::new(path).is_absolute(),
            "for {:?}",
            path
        );
    }
}

#[test]
fn starts_with_and_adjoin_agree_with_the_standard_library_on_unix() {
    if std::path::MAIN_SEPARATOR != '/' {
        return;
    }
    let paths = ["", "/", ".", "a", "a/b", "/a/b", "a//b", "./a", "vendor", "vendor/", "vendor2"];
    for path in paths {
        for base in paths {
            assert_eq!(
                starts_with(path, base),
                std::path::Path::new(path).starts_with(base),
                "{:?} under {:?}",
                path,
                base
            );
            let expected = std::path::Path::new(base).join(path);
            assert_eq!(
                adjoin(base, path),
                expected.to_string_lossy(),
                "{:?} joined to {:?}",
                path,
                base
            );
        }
    }
}

#[test]
fn absolute_paths_begin_with_a_slash() {
    assert!(is_absolute("/etc/passwd"));
    assert!(is_absolute("/"));
    assert!(!is_absolute("etc/passwd"));
    assert!(!is_absolute(""));
    assert!(!is_absolute("./x"));
}

#[test]
fn starts_with_compares_whole_components() {
    assert!(starts_with("vendor/lib/a.c", "vendor"));
    assert!(starts_with("vendor/lib/a.c", "vendor/"));
    assert!(starts_with("vendor/lib/a.c", "vendor/lib"));
    assert!(starts_with("vendor", "vendor"));
    assert!(!starts_with("vendor2/lib/a.c", "vendor"));
    assert!(!starts_with("src/vendor/a.c", "vendor"));
    assert!(!starts_with("vendor", "vendor/lib"));
    assert!(!starts_with("vendor/lib/a.c", "/vendor"));
    assert!(starts_with("/vendor/a.c", "/vendor"));
}

#[test]
fn every_path_lies_below_the_empty_path() {
    assert!(starts_with("src/a.c", ""));
    assert!(starts_with("", ""));
    assert!(starts_with("/x", ""));
}

#[test]
fn adjoin_puts_one_separator_between() {
    assert_eq!(adjoin("project", "src/a.c"), "project/src/a.c");
    assert_eq!(adjoin("project/", "src/a.c"), "project/src/a.c");
    assert_eq!(adjoin("", "src/a.c"), "src/a.c");
    assert_eq!(adjoin("project", ""), "project/");
}

#[test]
fn adjoin_keeps_an_absolute_path() {
    assert_eq!(adjoin("project", "/etc/passwd"), "/etc/passwd");
}

#[test]
fn canonical_form_joins_components_with_slashes() {
    assert_eq!(path_to_string("src/a.c"), "src/a.c");
    assert_eq!(path_to_string("src//lib/./a.c"), "src/lib/a.c");
    assert_eq!(path_to_string("/etc/passwd"), "/etc/passwd");
    assert_eq!(path_to_string("./a/../b/"), "./a/../b");
    assert_eq!(path_to_string(""), "");
    assert_eq!(path_to_string("/"), "");
    assert_eq!(path_to_string("a"), "a");
}

#[test]
fn each_component_is_written_in_its_way() {
    assert_eq!(path_component_as_str(&Component::Prefix(String::from("C:"))), None);
    assert_eq!(path_component_as_str(&Component::RootDir), Some(String::new()));
    assert_eq!(path_component_as_str(&Component::CurDir), Some(String::from(".")));
    assert_eq!(path_component_as_str(&Component::ParentDir), Some(String::from("..")));
    assert_eq!(path_component_as_str(&normal("a b")), Some(String::from("a b")));
}

#[test]
fn render_drops_a_prefix() {
    let parts = vec![
        Component::Prefix(String::from("C:")),
        Component::RootDir,
        normal("src"),
        normal("a.c"),
    ];
    assert_eq!(render(&parts), "/src/a.c");
    assert_eq!(render(&vec![Component::Prefix(String::from("C:")), normal("a")]), "a");
    assert_eq!(render(&Vec::new()), "");
}

#[test]
fn same_component_compares_kind_and_text() {
    assert!(same_component(&normal("a"), &normal("a")));
    assert!(!same_component(&normal("a"), &normal("b")));
    assert!(!same_component(&normal(".."), &Component::ParentDir));
    assert!(same_component(&Component::RootDir, &Component::RootDir));
    assert!(!same_component(&Component::RootDir, &Component::CurDir));
    assert!(!same_component(&Component::Prefix(String::from("a")), &normal("a")));
}

#[test]
fn canonical_form_of_a_canonical_form_is_itself() {
    let paths = [
        "", "/", ".", "..", "a", "a/b", "/a/b", "a//b", "a/./b", "./a", "../a", "a/..", "a/.",
        "/./a", "//", "/..", "./.", ".//a", "a/b/", "...", ".a", "a b/c", "./..//x/./y/",
    ];
    for path in paths {
        let once = path_to_string(path);
        assert_eq!(path_to_string(&once), once, "for {:?}", path);
    }
}

#[test]
fn canonical_form_of_a_relative_path_is_relative() {
    for path in ["", ".", "a", "a/b", "./a", "../a", "a//b/", "x/../y"] {
        assert!(!is_absolute(path));
        assert!(!is_absolute(&path_to_string(path)), "for {:?}", path);
    }
}
