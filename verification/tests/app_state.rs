use project_manager::app_state::{create_category, default_categories, AppState, WorkspaceConfig};
use project_manager::error::ErrorKind;
use project_manager::file_ops::workspace_path;
use project_manager::launch::open_project_in_editor;

#[test]
fn default_state() {
    let state = AppState::default();
    assert_eq!(state.base_dir, "~/dev");
    assert_eq!(state.categories, vec!["desktop-apps", "web-apps", "cli-apps", "other"]);
    assert_eq!(default_categories(), state.categories);
}

#[test]
fn a_new_category_is_added_once() {
    let mut state = AppState::default();
    create_category(&mut state, "games");
    assert_eq!(
        state.categories,
        vec!["desktop-apps", "web-apps", "cli-apps", "other", "games"]
    );
    create_category(&mut state, "games");
    create_category(&mut state, "web-apps");
    assert_eq!(
        state.categories,
        vec!["desktop-apps", "web-apps", "cli-apps", "other", "games"]
    );
    assert_eq!(state.base_dir, "~/dev");
}

#[test]
fn workspace_config_holds_the_base_directory() {
    let config = WorkspaceConfig { base_dir: "/home/ada/dev".to_string() };
    assert_eq!(config, WorkspaceConfig { base_dir: "/home/ada/dev".to_string() });
}

#[test]
fn supported_editors_have_a_program() {
    assert_eq!(open_project_in_editor("vscode"), Ok("code".to_string()));
    assert_eq!(open_project_in_editor("subl"), Ok("subl".to_string()));
    assert_eq!(open_project_in_editor("vim"), Ok("vim".to_string()));
}

#[test]
fn other_editors_are_refused() {
    assert_eq!(open_project_in_editor("emacs"), Err("Unsupported editor: emacs".to_string()));
    assert_eq!(open_project_in_editor("code"), Err("Unsupported editor: code".to_string()));
    assert_eq!(open_project_in_editor(""), Err("Unsupported editor: ".to_string()));
}

#[test]
fn error_messages() {
    assert_eq!(ErrorKind::Storage.message(), "storage error");
    assert_eq!(ErrorKind::Parse.message(), "parse error");
    assert_eq!(ErrorKind::NotFound.message(), "not found");
    assert_eq!(ErrorKind::Validation.message(), "validation error");
    assert_eq!(ErrorKind::ProviderUnavailable.message(), "summarization unavailable");
}

fn parts(path: &str) -> Vec<String> {
    path.split('/').filter(|p| !p.is_empty()).map(|p| p.to_string()).collect()
}

#[test]
fn paths_in_the_workspace_are_admitted() {
    assert_eq!(workspace_path(&parts("/home/ada/dev"), &parts("/home/ada/dev/a/b.txt")), Ok(()));
    assert_eq!(workspace_path(&parts("/home/ada/dev"), &parts("/home/ada/dev")), Ok(()));
    assert_eq!(workspace_path(&parts("/"), &parts("/etc")), Ok(()));
}

#[test]
fn paths_outside_the_workspace_are_refused() {
    let refused = Err("Invalid path".to_string());
    assert_eq!(workspace_path(&parts("/home/ada/dev"), &parts("/home/ada")), refused);
    assert_eq!(workspace_path(&parts("/home/ada/dev"), &parts("/home/ada/development/x")), refused);
    assert_eq!(workspace_path(&parts("/home/ada/dev"), &parts("/etc/passwd")), refused);
    assert_eq!(workspace_path(&parts("/home/ada/dev"), &parts("/")), refused);
}
