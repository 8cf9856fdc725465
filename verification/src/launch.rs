//! Which program opens a project in an editor.

use crate::text::same_text;
use vstd::prelude::*;
use vstd::string::StringExecFns;

verus! {

/// The program that the editor `editor` is started with, for the editors
/// that are supported.
pub open spec fn editor_program(editor: Seq<char>) -> Option<Seq<char>> {
    if editor == "vscode"@ {
        Some("code"@)
    } else if editor == "subl"@ {
        Some("subl"@)
    } else if editor == "vim"@ {
        Some("vim"@)
    } else {
        None
    }
}

/// The message that refuses an editor that is not supported.
pub open spec fn unsupported_editor_text(editor: Seq<char>) -> Seq<char> {
    "Unsupported editor: "@ + editor
}

/// The program to start for the editor `editor`, or a message that says
/// that the editor is not supported.
pub fn open_project_in_editor(editor: &str) -> (r: Result<String, String>)
    ensures
        match r {
            Ok(program) => editor_program(editor@) == Some(program@),
            Err(message) => editor_program(editor@) is None && message@ == unsupported_editor_text(
                editor@,
            ),
        },
{
    if same_text(editor, "vscode") {
        Ok("code".to_owned())
    } else if same_text(editor, "subl") {
        Ok("subl".to_owned())
    } else if same_text(editor, "vim") {
        Ok("vim".to_owned())
    } else {
        let mut message = String::from_str("Unsupported editor: ");
        message.append(editor);
        Err(message)
    }
}

} // verus!
