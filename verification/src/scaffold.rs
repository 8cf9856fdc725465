//! New projects: the files that a new project starts with, and the event
//! that records its creation.

use crate::error::ErrorKind;
use crate::time::Timestamp;
use crate::timeline::{TimelineEvent, TimelineEventType, TimelineEventTypeView, TimelineEventView};
use crate::text::same_text;
use vstd::prelude::*;
use vstd::string::StringExecFns;

verus! {

/// The Rust manifest of a new project `name`.
pub open spec fn cargo_toml_text(name: Seq<char>) -> Seq<char> {
    "[package]\nname = \""@ + name + "\"\nversion = \"0.1.0\"\nedition = \"2021\"\n\n[dependencies]\n"@
}

/// The dependencies that the Node manifest of a new project of the kind
/// `project_type` lists.
pub open spec fn dependencies_text(project_type: Seq<char>) -> Seq<char> {
    if project_type == "react"@ {
        "    \"react\": \"^18.2.0\",\n    \"react-dom\": \"^18.2.0\""@
    } else if project_type == "next"@ {
        "    \"next\": \"^14.0.0\",\n    \"react\": \"^18.2.0\",\n    \"react-dom\": \"^18.2.0\""@
    } else {
        "    \"express\": \"^4.18.0\""@
    }
}

/// The Node manifest of a new project `name` of the kind `project_type`.
pub open spec fn package_json_text(name: Seq<char>, project_type: Seq<char>) -> Seq<char> {
    "{\n  \"name\": \""@ + name
        + "\",\n  \"version\": \"1.0.0\",\n  \"description\": \"\",\n  \"dependencies\": {\n"@
        + dependencies_text(project_type) + "\n  }\n}"@
}

/// The README of a new project `name` of the kind `project_type`.
pub open spec fn readme_text(name: Seq<char>, project_type: Seq<char>) -> Seq<char> {
    "# "@ + name + "\n\nA new "@ + project_type + " project."@
}

/// Writes the Rust manifest of a new project.
pub fn generate_cargo_toml(name: &str) -> (text: String)
    ensures
        text@ == cargo_toml_text(name@),
{
    let mut text = String::from_str("[package]\nname = \"");
    text.append(name);
    text.append("\"\nversion = \"0.1.0\"\nedition = \"2021\"\n\n[dependencies]\n");
    text
}

/// Writes the Node manifest of a new project.
pub fn generate_package_json(name: &str, project_type: &str) -> (text: String)
    ensures
        text@ == package_json_text(name@, project_type@),
{
    let dependencies = if same_text(project_type, "react") {
        "    \"react\": \"^18.2.0\",\n    \"react-dom\": \"^18.2.0\""
    } else if same_text(project_type, "next") {
        "    \"next\": \"^14.0.0\",\n    \"react\": \"^18.2.0\",\n    \"react-dom\": \"^18.2.0\""
    } else {
        "    \"express\": \"^4.18.0\""
    };
    let mut text = String::from_str("{\n  \"name\": \"");
    text.append(name);
    text.append(
        "\",\n  \"version\": \"1.0.0\",\n  \"description\": \"\",\n  \"dependencies\": {\n",
    );
    text.append(dependencies);
    text.append("\n  }\n}");
    text
}

/// A file to write below the directory of a new project: its path from
/// that directory, with `/` between the names, and its contents.
#[derive(Debug, PartialEq, Eq)]
pub struct ScaffoldFile {
    pub path: String,
    pub contents: String,
}

/// The mathematical content of a `ScaffoldFile`.
pub struct ScaffoldFileView {
    pub path: Seq<char>,
    pub contents: Seq<char>,
}

impl View for ScaffoldFile {
    type V = ScaffoldFileView;

    open spec fn view(&self) -> ScaffoldFileView {
        ScaffoldFileView { path: self.path@, contents: self.contents@ }
    }
}

impl DeepView for ScaffoldFile {
    type V = ScaffoldFileView;

    open spec fn deep_view(&self) -> ScaffoldFileView {
        self.view()
    }
}

/// What to create for a new project, below its own directory: the
/// directories first, then the files.
#[derive(Debug, PartialEq, Eq)]
pub struct ScaffoldPlan {
    pub directories: Vec<String>,
    pub files: Vec<ScaffoldFile>,
}

/// The mathematical content of a `ScaffoldPlan`.
pub struct ScaffoldPlanView {
    pub directories: Seq<Seq<char>>,
    pub files: Seq<ScaffoldFileView>,
}

impl View for ScaffoldPlan {
    type V = ScaffoldPlanView;

    open spec fn view(&self) -> ScaffoldPlanView {
        ScaffoldPlanView {
            directories: self.directories.deep_view(),
            files: self.files.deep_view(),
        }
    }
}

/// What a new project `name` of the kind `project_type` starts with: a
/// manifest and a main program for `rust`; a Node manifest for `node`,
/// `react` and `next`; a README for every other kind.
pub open spec fn plan_for(name: Seq<char>, project_type: Seq<char>) -> ScaffoldPlanView {
    if project_type == "rust"@ {
        ScaffoldPlanView {
            directories: seq!["src"@],
            files: seq![
                ScaffoldFileView { path: "Cargo.toml"@, contents: cargo_toml_text(name) },
                ScaffoldFileView {
                    path: "src/main.rs"@,
                    contents: "fn main() {\n    println!(\"Hello, world!\");\n}"@,
                },
            ],
        }
    } else if project_type == "node"@ || project_type == "react"@ || project_type == "next"@ {
        ScaffoldPlanView {
            directories: Seq::empty(),
            files: seq![
                ScaffoldFileView {
                    path: "package.json"@,
                    contents: package_json_text(name, project_type),
                },
            ],
        }
    } else {
        ScaffoldPlanView {
            directories: Seq::empty(),
            files: seq![
                ScaffoldFileView { path: "README.md"@, contents: readme_text(name, project_type) },
            ],
        }
    }
}

/// The message that refuses a project whose name is taken.
pub open spec fn name_taken_text(name: Seq<char>, category: Seq<char>) -> Seq<char> {
    "Project '"@ + name + "' already exists in category '"@ + category + "'"@
}

/// Plans the files of a new project.
pub fn plan_project(name: &str, project_type: &str) -> (plan: ScaffoldPlan)
    ensures
        plan@ == plan_for(name@, project_type@),
{
    let mut directories: Vec<String> = Vec::new();
    let mut files: Vec<ScaffoldFile> = Vec::new();
    if same_text(project_type, "rust") {
        directories.push("src".to_owned());
        files.push(
            ScaffoldFile { path: "Cargo.toml".to_owned(), contents: generate_cargo_toml(name) },
        );
        files.push(
            ScaffoldFile {
                path: "src/main.rs".to_owned(),
                contents: "fn main() {\n    println!(\"Hello, world!\");\n}".to_owned(),
            },
        );
    } else if same_text(project_type, "node") || same_text(project_type, "react") || same_text(
        project_type,
        "next",
    ) {
        files.push(
            ScaffoldFile {
                path: "package.json".to_owned(),
                contents: generate_package_json(name, project_type),
            },
        );
    } else {
        let mut contents = String::from_str("# ");
        contents.append(name);
        contents.append("\n\nA new ");
        contents.append(project_type);
        contents.append(" project.");
        files.push(ScaffoldFile { path: "README.md".to_owned(), contents });
    }
    let plan = ScaffoldPlan { directories, files };
    assert(plan@.directories =~= plan_for(name@, project_type@).directories);
    assert(plan@.files =~= plan_for(name@, project_type@).files);
    plan
}

/// Writes the message that refuses a project whose name is taken.
pub fn name_taken_message(name: &str, category: &str) -> (message: String)
    ensures
        message@ == name_taken_text(name@, category@),
{
    let mut message = String::from_str("Project '");
    message.append(name);
    message.append("' already exists in category '");
    message.append(category);
    message.append("'");
    message
}

/// Decides on the creation of the project `name`. Where a project of that
/// name already exists in its category, the request is refused with
/// `Validation`; else the result is what to create.
pub fn create_project(already_exists: bool, name: &str, project_type: &str) -> (r: Result<
    ScaffoldPlan,
    ErrorKind,
>)
    ensures
        match r {
            Ok(plan) => !already_exists && plan@ == plan_for(name@, project_type@),
            Err(e) => already_exists && e == ErrorKind::Validation,
        },
{
    if already_exists {
        return Err(ErrorKind::Validation);
    }
    Ok(plan_project(name, project_type))
}

/// The event that records the creation of a project.
pub open spec fn project_created_view(
    id: u128,
    project_id: u128,
    now: Timestamp,
    name: Seq<char>,
    category: Seq<char>,
    project_type: Seq<char>,
) -> TimelineEventView {
    TimelineEventView {
        id,
        project_id,
        timestamp: now,
        event_type: TimelineEventTypeView::ProjectCreated,
        title: "Project created: "@ + name,
        description: Some(
            "Project '"@ + name + "' was created in category '"@ + category + "' as a "@
                + project_type + " project."@,
        ),
        metadata: "{}"@,
        user_id: None,
        tags: seq!["created"@, project_type],
    }
}

/// Builds the event that records the creation of a project.
pub fn project_created_event(
    id: u128,
    project_id: u128,
    now: Timestamp,
    name: &str,
    category: &str,
    project_type: &str,
) -> (event: TimelineEvent)
    ensures
        event@ == project_created_view(id, project_id, now, name@, category@, project_type@),
{
    let mut title = String::from_str("Project created: ");
    title.append(name);
    let mut description = String::from_str("Project '");
    description.append(name);
    description.append("' was created in category '");
    description.append(category);
    description.append("' as a ");
    description.append(project_type);
    description.append(" project.");
    let mut tags: Vec<String> = Vec::new();
    tags.push("created".to_owned());
    tags.push(project_type.to_owned());
    let event = TimelineEvent {
        id,
        project_id,
        timestamp: now,
        event_type: TimelineEventType::ProjectCreated,
        title,
        description: Some(description),
        metadata: "{}".to_owned(),
        user_id: None,
        tags,
    };
    assert(event@.tags =~= seq!["created"@, project_type@]);
    event
}

} // verus!
