//! Instance-lifecycle core of the enum editor plugin.
//!
//! The library owns the parts of the plugin that carry invariants: the
//! registry that hands out instance ids and keeps one record per open editor,
//! the resolution of a document path to the file that backs it, the dispatch
//! that opens an editor of a given kind, and the static description of the
//! document type and editor that the plugin provides. Panels and editable
//! entities are built and driven by the host, and reach the library only as
//! handles.

pub mod descriptor;
pub mod error;
pub mod path;
pub mod plugin;
pub mod wrapper;

pub use descriptor::{EditorDescriptor, FileTypeDescriptor, PluginMetadata, ENUM_COLOR};
pub use error::PluginError;
pub use path::resolve_path;
pub use plugin::{route, EditorStorage, EnumEditorPlugin, InstanceId};
pub use wrapper::EnumEditorWrapper;
