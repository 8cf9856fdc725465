use project_manager::error::ErrorKind;
use project_manager::scaffold::{
    create_project, generate_cargo_toml, generate_package_json, name_taken_message, plan_project,
    project_created_event, ScaffoldFile, ScaffoldPlan,
};
use project_manager::time::Timestamp;
use project_manager::timeline::{TimelineEvent, TimelineEventType};

#[test]
fn cargo_manifest_text() {
    assert_eq!(
        generate_cargo_toml("demo"),
        "[package]\nname = \"demo\"\nversion = \"0.1.0\"\nedition = \"2021\"\n\n[dependencies]\n"
    );
}

#[test]
fn node_manifest_text_for_each_kind() {
    assert_eq!(
        generate_package_json("web", "react"),
        "{\n  \"name\": \"web\",\n  \"version\": \"1.0.0\",\n  \"description\": \"\",\n  \"dependencies\": {\n    \"react\": \"^18.2.0\",\n    \"react-dom\": \"^18.2.0\"\n  }\n}"
    );
    assert_eq!(
        generate_package_json("web", "next"),
        "{\n  \"name\": \"web\",\n  \"version\": \"1.0.0\",\n  \"description\": \"\",\n  \"dependencies\": {\n    \"next\": \"^14.0.0\",\n    \"react\": \"^18.2.0\",\n    \"react-dom\": \"^18.2.0\"\n  }\n}"
    );
    let plain = "{\n  \"name\": \"web\",\n  \"version\": \"1.0.0\",\n  \"description\": \"\",\n  \"dependencies\": {\n    \"express\": \"^4.18.0\"\n  }\n}";
    assert_eq!(generate_package_json("web", "node"), plain);
    assert_eq!(generate_package_json("web", "anything"), plain);
}

#[test]
fn rust_project_starts_with_manifest_and_main() {
    let plan = plan_project("demo", "rust");
    let expected = ScaffoldPlan {
        directories: vec!["src".to_string()],
        files: vec![
            ScaffoldFile { path: "Cargo.toml".to_string(), contents: generate_cargo_toml("demo") },
            ScaffoldFile {
                path: "src/main.rs".to_string(),
                contents: "fn main() {\n    println!(\"Hello, world!\");\n}".to_string(),
            },
        ],
    };
    assert_eq!(plan, expected);
}

#[test]
fn node_projects_start_with_a_manifest() {
    for kind in ["node", "react", "next"] {
        let plan = plan_project("web", kind);
        let expected = ScaffoldPlan {
            directories: vec![],
            files: vec![ScaffoldFile {
                path: "package.json".to_string(),
                contents: generate_package_json("web", kind),
            }],
        };
        assert_eq!(plan, expected);
    }
}

#[test]
fn other_projects_start_with_a_readme() {
    for kind in ["python", "go", "", "Rust"] {
        let plan = plan_project("thing", kind);
        let expected = ScaffoldPlan {
            directories: vec![],
            files: vec![ScaffoldFile {
                path: "README.md".to_string(),
                contents: format!("# thing\n\nA new {} project.", kind),
            }],
        };
        assert_eq!(plan, expected);
    }
}

#[test]
fn a_taken_name_is_a_validation_error() {
    assert_eq!(create_project(true, "demo", "rust"), Err(ErrorKind::Validation));
    assert_eq!(create_project(false, "demo", "rust"), Ok(plan_project("demo", "rust")));
    assert_eq!(
        name_taken_message("demo", "cli-apps"),
        "Project 'demo' already exists in category 'cli-apps'"
    );
}

#[test]
fn creation_is_recorded_as_an_event() {
    let now = Timestamp { secs: 12, nanos: 34 };
    let event = project_created_event(5, 6, now, "demo", "cli-apps", "rust");
    let expected = TimelineEvent {
        id: 5,
        project_id: 6,
        timestamp: now,
        event_type: TimelineEventType::ProjectCreated,
        title: "Project created: demo".to_string(),
        description: Some(
            "Project 'demo' was created in category 'cli-apps' as a rust project.".to_string(),
        ),
        metadata: "{}".to_string(),
        user_id: None,
        tags: vec!["created".to_string(), "rust".to_string()],
    };
    assert_eq!(event, expected);
}
