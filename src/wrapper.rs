use vstd::prelude::*;

verus! {

/// Adapts one editable entity to the uniform instance contract: the path of
/// the file that backs it, and the handle through which the host saves,
/// reloads and queries it.
///
/// `E` is the host's shared handle to the entity. The path is fixed when the
/// wrapper is built.
pub struct EnumEditorWrapper<E> {
    entity: E,
    file_path: String,
}

impl<E> EnumEditorWrapper<E> {
    /// The entity handle this wrapper forwards to.
    pub closed spec fn entity_spec(&self) -> E {
        self.entity
    }

    /// The resolved path of the file backing the entity.
    pub closed spec fn path_spec(&self) -> Seq<char> {
        self.file_path@
    }

    /// Wraps `entity`, which was built from the file at `file_path`.
    pub fn new(entity: E, file_path: String) -> (r: Self)
        ensures
            r.entity_spec() == entity,
            r.path_spec() == file_path@,
    {
        EnumEditorWrapper { entity, file_path }
    }

    /// The resolved path of the file backing the entity.
    pub fn file_path(&self) -> (r: &String)
        ensures
            r@ == self.path_spec(),
    {
        &self.file_path
    }

    /// The entity handle, for the host to run save, reload and dirty-state
    /// queries on, or to reach entity-specific operations.
    pub fn entity(&self) -> (r: &E)
        ensures
            *r == self.entity_spec(),
    {
        &self.entity
    }
}

} // verus!
