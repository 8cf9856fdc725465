use project_manager::git_status::ToolOutput;
use project_manager::scanner::{
    calculate_directory_stats, detect_project_type, format_system_time, is_excluded_dir,
    read_markers, scan_project_directory, scan_projects, CategoryListing, Project, ProjectListing,
    ProjectMarkers, ProjectType,
};
use project_manager::starred::StarredSet;
use project_manager::tree::DirEntry;

fn markers() -> ProjectMarkers {
    ProjectMarkers {
        has_cargo_toml: false,
        has_src_tauri: false,
        package_json: None,
        has_go_mod: false,
        has_requirements_txt: false,
        has_pyproject_toml: false,
        has_readme: false,
    }
}

fn file(name: &str, size: u64) -> DirEntry {
    DirEntry::File { name: name.to_string(), size }
}

fn dir(name: &str, entries: Vec<DirEntry>) -> DirEntry {
    DirEntry::Dir { name: name.to_string(), entries }
}

fn listing(name: &str, path: &str) -> ProjectListing {
    ProjectListing {
        name: name.to_string(),
        path: path.to_string(),
        modified_secs: 1_431_648_000,
        entries: vec![
            file("notes.txt", 10),
            dir("src", vec![file("main.c", 20)]),
            dir(".git", vec![]),
        ],
        package_json: None,
        git: Some(ToolOutput {
            success: true,
            stdout: "## main...origin/main [ahead 1]\n".to_string(),
            stderr: String::new(),
        }),
    }
}

#[test]
fn project_type_tags() {
    let tags: Vec<String> = [
        ProjectType::Tauri,
        ProjectType::Rust,
        ProjectType::Node,
        ProjectType::React,
        ProjectType::Next,
        ProjectType::Electron,
        ProjectType::Go,
        ProjectType::Python,
        ProjectType::Markdown,
        ProjectType::Unknown,
    ]
    .iter()
    .map(|t| t.to_string())
    .collect();
    assert_eq!(
        tags,
        vec![
            "tauri", "rust", "node", "react", "next", "electron", "go", "python", "markdown",
            "unknown"
        ]
    );
}

#[test]
fn rust_manifest_wins_over_node_manifest() {
    for manifest in ["{\"dependencies\":{\"next\":\"1\",\"react\":\"1\"}}", "", "{}"] {
        for with_others in [false, true] {
            let mut m = markers();
            m.has_cargo_toml = true;
            m.package_json = Some(manifest.to_string());
            m.has_go_mod = with_others;
            m.has_readme = with_others;
            m.has_pyproject_toml = with_others;
            assert_eq!(detect_project_type(&m), ProjectType::Rust);
            m.has_src_tauri = true;
            assert_eq!(detect_project_type(&m), ProjectType::Tauri);
        }
    }
    let mut l = listing("both", "/ws/a/both");
    l.entries.push(file("package.json", 30));
    l.entries.push(file("Cargo.toml", 30));
    l.package_json = Some("{\"dependencies\":{\"next\":\"1\"}}".to_string());
    assert_eq!(scan_project_directory(&l, &StarredSet::new()).unwrap().project_type, "rust");
    l.entries.push(dir("src-tauri", vec![]));
    assert_eq!(scan_project_directory(&l, &StarredSet::new()).unwrap().project_type, "tauri");
}

#[test]
fn node_manifest_with_react_but_not_next_is_react() {
    let manifest = "{\n  \"name\": \"foo\",\n  \"dependencies\": {\n    \"react\": \"^18.2.0\",\n    \"react-dom\": \"^18.2.0\"\n  }\n}";
    let category = CategoryListing {
        name: "web-apps".to_string(),
        path: "/ws/web-apps".to_string(),
        projects: Some(vec![Some(ProjectListing {
            entries: vec![file("package.json", manifest.len() as u64), dir("src", vec![])],
            package_json: Some(manifest.to_string()),
            ..listing("foo", "/ws/web-apps/foo")
        })]),
    };
    let found = scan_projects(&vec![category], &StarredSet::new());
    assert_eq!(found.len(), 1);
    assert_eq!(found[0].name, "web-apps");
    assert_eq!(found[0].projects.len(), 1);
    assert_eq!(found[0].projects[0].name, "foo");
    assert_eq!(found[0].projects[0].project_type, "react");
}

#[test]
fn node_manifest_is_sniffed_in_priority_order() {
    let with = |text: &str| {
        let mut m = markers();
        m.package_json = Some(text.to_string());
        m.has_go_mod = true;
        m.has_readme = true;
        detect_project_type(&m)
    };
    assert_eq!(with("\"electron\" \"react\" \"next\""), ProjectType::Next);
    assert_eq!(with("\"electron\" \"react\""), ProjectType::React);
    assert_eq!(with("\"electron\""), ProjectType::Electron);
    assert_eq!(with("\"express\""), ProjectType::Node);
    assert_eq!(with(""), ProjectType::Node);
    assert_eq!(with("next react electron"), ProjectType::Node);
    assert_eq!(with("\"next-auth\" \"preact\""), ProjectType::Node);
}

#[test]
fn later_markers_decide_in_their_order() {
    let mut m = markers();
    assert_eq!(detect_project_type(&m), ProjectType::Unknown);
    m.has_readme = true;
    assert_eq!(detect_project_type(&m), ProjectType::Markdown);
    m.has_pyproject_toml = true;
    assert_eq!(detect_project_type(&m), ProjectType::Python);
    m.has_pyproject_toml = false;
    m.has_requirements_txt = true;
    assert_eq!(detect_project_type(&m), ProjectType::Python);
    m.has_go_mod = true;
    assert_eq!(detect_project_type(&m), ProjectType::Go);
}

#[test]
fn markers_are_read_off_the_entries() {
    let entries = vec![
        file("Cargo.toml", 1),
        dir("src-tauri", vec![]),
        file("package.json", 2),
        file("go.mod", 3),
        file("requirements.txt", 4),
        file("pyproject.toml", 5),
        file("README.md", 6),
    ];
    let all = ProjectMarkers {
        has_cargo_toml: true,
        has_src_tauri: true,
        package_json: Some("{}".to_string()),
        has_go_mod: true,
        has_requirements_txt: true,
        has_pyproject_toml: true,
        has_readme: true,
    };
    assert_eq!(read_markers(&entries, &Some("{}".to_string())), all);
    let unread = ProjectMarkers { package_json: Some(String::new()), ..all };
    assert_eq!(read_markers(&entries, &None), unread);
    let nested = vec![dir("sub", entries), file("readme.md", 1)];
    assert_eq!(read_markers(&nested, &Some("{}".to_string())), markers());
}

#[test]
fn excluded_names_are_exact() {
    assert!(is_excluded_dir("node_modules"));
    assert!(is_excluded_dir("target"));
    assert!(is_excluded_dir(".git"));
    assert!(!is_excluded_dir("Target"));
    assert!(!is_excluded_dir("targets"));
    assert!(!is_excluded_dir(".github"));
    assert!(!is_excluded_dir("my/node_modules"));
    assert!(!is_excluded_dir(""));
}

#[test]
fn stats_sum_sizes_and_count_files() {
    let entries = vec![
        file("a", 5),
        dir("src", vec![file("b", 7), dir("bin", vec![file("c", 11)]), dir("empty", vec![])]),
        dir("docs", vec![file("d", 0)]),
    ];
    assert_eq!(calculate_directory_stats(&entries), Some((23, 4)));
    assert_eq!(calculate_directory_stats(&vec![]), Some((0, 0)));
    assert_eq!(calculate_directory_stats(&vec![dir("x", vec![dir("y", vec![])])]), Some((0, 0)));
}

#[test]
fn stats_leave_out_what_lies_below_excluded_directories() {
    let big = || vec![file("big", 100), dir("deep", vec![file("bigger", 1000)])];
    let entries = vec![
        file("a", 5),
        dir("node_modules", big()),
        dir("src", vec![file("b", 7), dir("target", big()), dir(".git", big())]),
        dir("web", vec![dir("ui", vec![dir("node_modules", big()), file("c", 1)])]),
        dir("target", vec![dir("debug", big())]),
        dir(".git", big()),
        dir("targets", vec![file("d", 2)]),
        dir(".github", vec![file("e", 3)]),
        file("target.txt", 4),
    ];
    let emptied = vec![
        file("a", 5),
        dir("node_modules", vec![]),
        dir("src", vec![file("b", 7), dir("target", vec![]), dir(".git", vec![])]),
        dir("web", vec![dir("ui", vec![dir("node_modules", vec![]), file("c", 1)])]),
        dir("target", vec![]),
        dir(".git", vec![]),
        dir("targets", vec![file("d", 2)]),
        dir(".github", vec![file("e", 3)]),
        file("target.txt", 4),
    ];
    assert_eq!(calculate_directory_stats(&entries), Some((22, 6)));
    assert_eq!(calculate_directory_stats(&entries), calculate_directory_stats(&emptied));
    assert_eq!(calculate_directory_stats(&vec![dir(".git", big())]), Some((0, 0)));
}

#[test]
fn a_file_named_like_an_excluded_directory_counts() {
    let entries = vec![file("target", 3), file("node_modules", 4), file(".git", 5)];
    assert_eq!(calculate_directory_stats(&entries), Some((12, 3)));
}

#[test]
fn stats_that_do_not_fit_are_refused() {
    let entries = vec![file("a", u64::MAX), dir("target", vec![file("b", 5)]), file("c", 0)];
    assert_eq!(calculate_directory_stats(&entries), Some((u64::MAX, 2)));
    let entries = vec![file("a", u64::MAX), dir("src", vec![file("b", 1)])];
    assert_eq!(calculate_directory_stats(&entries), None);
}

#[test]
fn system_time_is_formatted_in_utc() {
    assert_eq!(format_system_time(1_431_648_000), "2015-05-15 00:00:00");
    assert_eq!(format_system_time(0), "1970-01-01 00:00:00");
    assert_eq!(format_system_time(86_399), "1970-01-01 23:59:59");
    assert_eq!(format_system_time(951_782_400), "2000-02-29 00:00:00");
}

#[test]
fn system_time_out_of_range_shows_the_epoch() {
    assert_eq!(format_system_time(u64::MAX), "1970-01-01 00:00:00");
    assert_eq!(format_system_time(i64::MAX as u64), "1970-01-01 00:00:00");
    assert_eq!(format_system_time(1u64 << 62), "1970-01-01 00:00:00");
}

#[test]
fn project_record_merges_type_stats_status_and_star() {
    let mut starred = StarredSet::new();
    starred.toggle("/ws/cli-apps/tool");
    let mut l = listing("tool", "/ws/cli-apps/tool");
    l.entries.push(file("go.mod", 0));
    l.entries.push(dir("node_modules", vec![file("x", 1000)]));
    let project = scan_project_directory(&l, &starred).unwrap();
    let expected = Project {
        name: "tool".to_string(),
        path: "/ws/cli-apps/tool".to_string(),
        project_type: "go".to_string(),
        last_modified: "2015-05-15 00:00:00".to_string(),
        size: 30,
        files_count: 3,
        git_status: "ahead".to_string(),
        starred: true,
    };
    assert_eq!(project, expected);
    let other = scan_project_directory(&listing("other", "/ws/cli-apps/other"), &starred).unwrap();
    assert!(!other.starred);
    assert_eq!(other.project_type, "unknown");
}

#[test]
fn project_without_metadata_is_clean() {
    let mut l = listing("p", "/ws/other/p");
    l.entries.pop();
    let project = scan_project_directory(&l, &StarredSet::new()).unwrap();
    assert_eq!(project.git_status, "clean");
    let mut l = listing("p", "/ws/other/p");
    l.git = None;
    let project = scan_project_directory(&l, &StarredSet::new()).unwrap();
    assert_eq!(project.git_status, "clean");
    let mut l = listing("p", "/ws/other/p");
    l.git = Some(ToolOutput {
        success: true,
        stdout: "## main\n M a.txt\n".to_string(),
        stderr: String::new(),
    });
    let project = scan_project_directory(&l, &StarredSet::new()).unwrap();
    assert_eq!(project.git_status, "modified");
}

#[test]
fn scan_contains_failures() {
    let mut huge = listing("huge", "/ws/a/huge");
    huge.entries = vec![file("a", u64::MAX), file("b", u64::MAX)];
    let categories = vec![
        CategoryListing {
            name: "a".to_string(),
            path: "/ws/a".to_string(),
            projects: Some(vec![
                Some(listing("one", "/ws/a/one")),
                None,
                Some(huge),
                Some(listing("two", "/ws/a/two")),
            ]),
        },
        CategoryListing { name: "b".to_string(), path: "/ws/b".to_string(), projects: None },
        CategoryListing {
            name: "c".to_string(),
            path: "/ws/c".to_string(),
            projects: Some(vec![]),
        },
        CategoryListing {
            name: "d".to_string(),
            path: "/ws/d".to_string(),
            projects: Some(vec![None, Some(listing("three", "/ws/d/three"))]),
        },
    ];
    let found = scan_projects(&categories, &StarredSet::new());
    let names: Vec<&str> = found.iter().map(|c| c.name.as_str()).collect();
    assert_eq!(names, vec!["a", "b", "c", "d"]);
    assert_eq!(found[1].path, "/ws/b");
    let projects = |i: usize| -> Vec<&str> { found[i].projects.iter().map(|p| p.name.as_str()).collect() };
    assert_eq!(projects(0), vec!["one", "two"]);
    assert_eq!(projects(1), Vec::<&str>::new());
    assert_eq!(projects(2), Vec::<&str>::new());
    assert_eq!(projects(3), vec!["three"]);
    assert_eq!(scan_projects(&vec![], &StarredSet::new()), vec![]);
}
