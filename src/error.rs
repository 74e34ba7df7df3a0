use vstd::prelude::*;

verus! {

/// Why opening an editor was refused.
#[derive(Debug, PartialEq, Eq)]
pub enum PluginError {
    /// The requested editor kind is not one this plugin provides.
    EditorNotFound { editor_id: String },
    /// The editable entity could not be built from the resolved path.
    ConstructionFailed { details: String },
}

impl PluginError {
    /// A human-readable account of the error.
    pub fn message(&self) -> (r: String)
        ensures
            self is EditorNotFound ==> r@ == seq!['e', 'd', 'i', 't', 'o', 'r', ' ', 'n', 'o', 't', ' ', 'f', 'o', 'u', 'n', 'd', ':', ' '] + self->editor_id@,
            self is ConstructionFailed ==> r@ == seq!['c', 'o', 'u', 'l', 'd', ' ', 'n', 'o', 't', ' ', 'o', 'p', 'e', 'n', ' ', 'e', 'd', 'i', 't', 'o', 'r', ':', ' '] + self->details@,
    {
        match self {
            PluginError::EditorNotFound { editor_id } => {
                let mut r = String::from_str("editor not found: ");
                proof {
                    reveal_strlit("editor not found: ");
                }
                r.append(editor_id.as_str());
                r
            },
            PluginError::ConstructionFailed { details } => {
                let mut r = String::from_str("could not open editor: ");
                proof {
                    reveal_strlit("could not open editor: ");
                }
                r.append(details.as_str());
                r
            },
        }
    }
}

} // verus!
