use vstd::prelude::*;

use crate::plugin::EnumEditorPlugin;

verus! {

/// The editor kind this plugin provides.
pub open spec fn enum_editor_kind() -> Seq<char> {
    "enum-editor"@
}

/// The document type the editor opens.
pub open spec fn enum_file_type() -> Seq<char> {
    "enum"@
}

/// The file inside a folder-shaped enum document that holds its definition.
pub open spec fn enum_marker_file() -> Seq<char> {
    "enum.json"@
}

/// The editor kind this plugin provides, as a string.
pub fn editor_kind() -> (r: String)
    ensures
        r@ == enum_editor_kind(),
{
    String::from_str("enum-editor")
}

/// The document type the editor opens, as a string.
pub fn file_type() -> (r: String)
    ensures
        r@ == enum_file_type(),
{
    String::from_str("enum")
}

/// The marker file of a folder-shaped enum document, as a string.
pub fn marker_file() -> (r: String)
    ensures
        r@ == enum_marker_file(),
{
    String::from_str("enum.json")
}

/// Identity of the plugin as shown to the host.
pub struct PluginMetadata {
    pub id: String,
    pub name: String,
    pub version: String,
    pub author: String,
    pub description: String,
}

/// Static description of a document type: how it is recognised, shown and
/// stored, and what a new document of the type holds. A document of the type
/// is a folder, and `marker_file` inside it holds its content.
pub struct FileTypeDescriptor {
    pub id: String,
    pub extension: String,
    pub display_name: String,
    /// Colour as 0xRRGGBB.
    pub color: u32,
    pub marker_file: String,
    /// Name given to the enum of a new document.
    pub default_name: String,
    /// Variants of the enum of a new document.
    pub default_variants: Vec<String>,
    pub categories: Vec<String>,
}

/// An editor kind and the document types it opens.
pub struct EditorDescriptor {
    pub id: String,
    pub display_name: String,
    pub supported_file_types: Vec<String>,
}

/// Colour under which enum documents are shown, as 0xRRGGBB.
pub const ENUM_COLOR: u32 = 0x673AB7;

impl<P, E> EnumEditorPlugin<P, E> {
    /// Identity of the plugin.
    pub fn metadata(&self) -> (r: PluginMetadata)
        ensures
            r.id@ == "com.pulsar.enum-editor"@,
            r.name@ == "Enum Editor"@,
            r.version@ == "0.1.0"@,
            r.author@ == "Pulsar Team"@,
            r.description@ == "Professional multi-panel editor for creating enum definitions"@,
    {
        PluginMetadata {
            id: String::from_str("com.pulsar.enum-editor"),
            name: String::from_str("Enum Editor"),
            version: String::from_str("0.1.0"),
            author: String::from_str("Pulsar Team"),
            description: String::from_str(
                "Professional multi-panel editor for creating enum definitions",
            ),
        }
    }

    /// The one document type the plugin provides: a folder-shaped enum
    /// definition whose content lives in its marker file, created empty.
    pub fn file_types(&self) -> (r: Vec<FileTypeDescriptor>)
        ensures
            r@.len() == 1,
            r@[0].id@ == enum_file_type(),
            r@[0].extension@ == "enum"@,
            r@[0].display_name@ == "Enum Definition"@,
            r@[0].color == ENUM_COLOR,
            r@[0].marker_file@ == enum_marker_file(),
            r@[0].default_name@ == "NewEnum"@,
            r@[0].default_variants@.len() == 0,
            r@[0].categories@.len() == 1,
            r@[0].categories@[0]@ == "Types"@,
    {
        let mut categories: Vec<String> = Vec::new();
        categories.push(String::from_str("Types"));
        let descriptor = FileTypeDescriptor {
            id: file_type(),
            extension: String::from_str("enum"),
            display_name: String::from_str("Enum Definition"),
            color: ENUM_COLOR,
            marker_file: marker_file(),
            default_name: String::from_str("NewEnum"),
            default_variants: Vec::new(),
            categories,
        };
        let mut r: Vec<FileTypeDescriptor> = Vec::new();
        r.push(descriptor);
        r
    }

    /// The one editor kind the plugin provides, which opens enum documents.
    pub fn editors(&self) -> (r: Vec<EditorDescriptor>)
        ensures
            r@.len() == 1,
            r@[0].id@ == enum_editor_kind(),
            r@[0].display_name@ == "Enum Editor"@,
            r@[0].supported_file_types@.len() == 1,
            r@[0].supported_file_types@[0]@ == enum_file_type(),
    {
        let mut supported: Vec<String> = Vec::new();
        supported.push(file_type());
        let mut r: Vec<EditorDescriptor> = Vec::new();
        r.push(
            EditorDescriptor {
                id: editor_kind(),
                display_name: String::from_str("Enum Editor"),
                supported_file_types: supported,
            },
        );
        r
    }
}

} // verus!
