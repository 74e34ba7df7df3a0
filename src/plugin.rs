use std::collections::HashMap;
use vstd::prelude::*;

use crate::descriptor::{editor_kind, enum_editor_kind, enum_marker_file, marker_file};
use crate::error::PluginError;
use crate::path::{resolve_path, resolved_path};
use crate::wrapper::EnumEditorWrapper;

verus! {

broadcast use vstd::std_specs::hash::group_hash_axioms;

/// Identity of one opened editor instance, unique for the plugin's lifetime.
pub type InstanceId = u64;

/// What the registry keeps for one open editor: its own shared handle to the
/// panel, and the wrapper over the entity.
pub struct EditorStorage<P, E> {
    pub panel: P,
    pub wrapper: EnumEditorWrapper<E>,
}

/// The enum editor plugin: the registry of open editor instances and the
/// counter that hands out their ids.
///
/// `P` is the host's shared handle to a panel and `E` its shared handle to
/// an editable entity. A host that reaches the plugin from several threads
/// holds it behind one lock, so that the counter and the map change together.
pub struct EnumEditorPlugin<P, E> {
    editors: HashMap<u64, EditorStorage<P, E>>,
    next_editor_id: u64,
    /// Every id handed out so far, in order.
    issued: Ghost<Seq<u64>>,
}

impl<P, E> EnumEditorPlugin<P, E> {
    /// The open editors, by instance id.
    pub closed spec fn records(&self) -> Map<u64, EditorStorage<P, E>> {
        self.editors@
    }

    /// The id the next allocation hands out.
    pub closed spec fn next_id(&self) -> u64 {
        self.next_editor_id
    }

    /// The ids handed out so far, in the order they were handed out.
    pub closed spec fn issued(&self) -> Seq<u64> {
        self.issued@
    }

    /// Number of open editors.
    pub open spec fn size(&self) -> nat {
        self.records().len()
    }

    /// The counter has handed out exactly the ids below it, each once, in
    /// increasing order from zero; every open editor holds one of them.
    pub closed spec fn wf(&self) -> bool {
        &&& self.issued@.len() == self.next_editor_id
        &&& forall|i: int| 0 <= i < self.issued@.len() ==> self.issued@[i] == i
        &&& forall|k: u64| self.editors@.contains_key(k) ==> k < self.next_editor_id
    }

    /// `after` is what unloading `self` leaves, and `count` what it reports.
    pub open spec fn unloaded(&self, after: &Self, count: nat) -> bool {
        &&& count == self.size()
        &&& after.records() == Map::<u64, EditorStorage<P, E>>::empty()
        &&& after.next_id() == self.next_id()
        &&& after.issued() == self.issued()
    }

    /// An empty registry whose counter starts at zero.
    pub fn new() -> (r: Self)
        ensures
            r.wf(),
            r.records() == Map::<u64, EditorStorage<P, E>>::empty(),
            r.next_id() == 0,
            r.issued() == Seq::<u64>::empty(),
    {
        EnumEditorPlugin { editors: HashMap::new(), next_editor_id: 0, issued: Ghost(Seq::empty()) }
    }

    /// Number of open editors.
    pub fn len(&self) -> (r: usize)
        ensures
            r == self.size(),
    {
        self.editors.len()
    }

    /// Whether an editor is registered under `id`.
    pub fn contains(&self, id: InstanceId) -> (r: bool)
        ensures
            r == self.records().contains_key(id),
    {
        self.editors.contains_key(&id)
    }

    /// Whether the counter can still hand out a fresh id.
    pub fn has_free_id(&self) -> (r: bool)
        ensures
            r == (self.next_id() < u64::MAX),
    {
        self.next_editor_id < u64::MAX
    }

    /// Hands out the current counter value and advances the counter.
    pub fn allocate_id(&mut self) -> (id: InstanceId)
        requires
            old(self).wf(),
            old(self).next_id() < u64::MAX,
        ensures
            final(self).wf(),
            id == old(self).next_id(),
            !old(self).records().contains_key(id),
            final(self).next_id() == id + 1,
            final(self).issued() == old(self).issued().push(id),
            final(self).records() == old(self).records(),
    {
        let id = self.next_editor_id;
        self.next_editor_id = id + 1;
        self.issued = Ghost(self.issued@.push(id));
        id
    }

    /// Stores `record` under `id`, an id handed out earlier and not in use.
    pub fn register(&mut self, id: InstanceId, record: EditorStorage<P, E>)
        requires
            old(self).wf(),
            id < old(self).next_id(),
            !old(self).records().contains_key(id),
        ensures
            final(self).wf(),
            final(self).records() == old(self).records().insert(id, record),
            final(self).size() == old(self).size() + 1,
            final(self).next_id() == old(self).next_id(),
            final(self).issued() == old(self).issued(),
    {
        self.editors.insert(id, record);
    }

    /// Drops every record and reports how many there were. The counter is
    /// kept, so ids are never handed out twice.
    pub fn clear(&mut self) -> (count: usize)
        requires
            old(self).wf(),
        ensures
            final(self).wf(),
            old(self).unloaded(final(self), count as nat),
            final(self).size() == 0,
    {
        let count = self.editors.len();
        self.editors.clear();
        count
    }

    /// Tears the registry down at unload: drops every record and reports
    /// how many there were. Never fails; a second call reports zero.
    pub fn on_unload(&mut self) -> (count: usize)
        requires
            old(self).wf(),
        ensures
            final(self).wf(),
            old(self).unloaded(final(self), count as nat),
    {
        self.clear()
    }
}

impl<P: Clone, E: Clone> EnumEditorPlugin<P, E> {
    /// Registers an editor whose panel and entity were built from the file
    /// at `file_path`: the registry keeps its own copy of both handles under
    /// a fresh id, and the caller gets the panel and a wrapper over the
    /// entity.
    pub fn register_editor(&mut self, panel: P, entity: E, file_path: String) -> (r: (
        P,
        EnumEditorWrapper<E>,
    ))
        requires
            old(self).wf(),
            old(self).next_id() < u64::MAX,
        ensures
            final(self).wf(),
            r.0 == panel,
            r.1.entity_spec() == entity,
            r.1.path_spec() == file_path@,
            ({
                let id = old(self).next_id();
                &&& final(self).records().contains_key(id)
                &&& final(self).records().remove(id) == old(self).records()
                &&& final(self).records()[id].wrapper.path_spec() == file_path@
                &&& final(self).size() == old(self).size() + 1
                &&& final(self).next_id() == id + 1
                &&& final(self).issued() == old(self).issued().push(id)
            }),
    {
        let id = self.allocate_id();
        let record = EditorStorage {
            panel: panel.clone(),
            wrapper: EnumEditorWrapper::new(entity.clone(), file_path.clone()),
        };
        self.register(id, record);
        assert(self.records().remove(id) =~= old(self).records());
        (panel, EnumEditorWrapper::new(entity, file_path))
    }

    /// Opens an editor of kind `editor_id` on the document at `file_path`.
    ///
    /// An unknown kind is refused before anything else happens. Otherwise the
    /// path is resolved (`is_dir` tells whether it names a folder-shaped
    /// document) and `construct` builds the panel and entity from the
    /// resolved path. A construction failure is reported with its details and
    /// leaves the registry as it was. On success the registry keeps its own
    /// copy of both handles under a fresh id, and the caller gets the panel
    /// and a wrapper over the entity.
    pub fn create_editor<F>(
        &mut self,
        editor_id: &str,
        file_path: &str,
        is_dir: bool,
        construct: F,
    ) -> (r: Result<(P, EnumEditorWrapper<E>), PluginError>) where
        F: FnOnce(String) -> Result<(P, E), String>,

        requires
            old(self).wf(),
            old(self).next_id() < u64::MAX,
            forall|s: String|
                s@ == resolved_path(file_path@, is_dir, enum_marker_file()) ==> construct.requires(
                    (s,),
                ),
        ensures
            final(self).wf(),
            r is Ok ==> {
                let (panel, wrapper) = r->Ok_0;
                let id = old(self).next_id();
                &&& editor_id@ == enum_editor_kind()
                &&& wrapper.path_spec() == resolved_path(file_path@, is_dir, enum_marker_file())
                &&& exists|s: String|
                    s@ == resolved_path(file_path@, is_dir, enum_marker_file())
                        && #[trigger] construct.ensures((s,), Ok((panel, wrapper.entity_spec())))
                &&& final(self).records().contains_key(id)
                &&& final(self).records().remove(id) == old(self).records()
                &&& final(self).records()[id].wrapper.path_spec() == wrapper.path_spec()
                &&& final(self).size() == old(self).size() + 1
                &&& final(self).next_id() == id + 1
                &&& final(self).issued() == old(self).issued().push(id)
            },
            r is Err ==> *final(self) == *old(self),
            editor_id@ != enum_editor_kind() <==> r matches Err(PluginError::EditorNotFound { .. }),
            r matches Err(PluginError::EditorNotFound { editor_id: requested }) ==> requested@ == editor_id@,
            r matches Err(PluginError::ConstructionFailed { details }) ==> exists|s: String|
                s@ == resolved_path(file_path@, is_dir, enum_marker_file())
                    && #[trigger] construct.ensures((s,), Err(details)),
    {
        let actual_path = match route(editor_id, file_path, is_dir) {
            Ok(p) => p,
            Err(e) => return Err(e),
        };
        let arg = actual_path.clone();
        let ghost arg_view = arg;
        let built = construct(arg);
        match built {
            Err(details) => {
                let r = Err(PluginError::ConstructionFailed { details });
                assert(r->Err_0->details == details);
                r
            },
            Ok((panel, entity)) => {
                let r = Ok(self.register_editor(panel, entity, actual_path));
                assert(r->Ok_0.1.entity_spec() == entity);
                r
            },
        }
    }
}

/// Decides whether a request to open an editor of kind `editor_id` on the
/// document at `file_path` is for this plugin, and if so which file backs
/// the document. `is_dir` tells whether `file_path` names a folder-shaped
/// document. Nothing is built or registered.
pub fn route(editor_id: &str, file_path: &str, is_dir: bool) -> (r: Result<String, PluginError>)
    ensures
        editor_id@ == enum_editor_kind() ==> r is Ok && r->Ok_0@ == resolved_path(
            file_path@,
            is_dir,
            enum_marker_file(),
        ),
        editor_id@ != enum_editor_kind() ==> (r matches Err(
            PluginError::EditorNotFound { editor_id: requested },
        ) && requested@ == editor_id@),
{
    let requested = editor_id.to_owned();
    let kind = editor_kind();
    if !(requested == kind) {
        return Err(PluginError::EditorNotFound { editor_id: requested });
    }
    let marker = marker_file();
    Ok(resolve_path(file_path, is_dir, marker.as_str()))
}

impl<P, E> Default for EnumEditorPlugin<P, E> {
    fn default() -> (r: Self)
        ensures
            r.wf(),
            r.records() == Map::<u64, EditorStorage<P, E>>::empty(),
            r.next_id() == 0,
            r.issued() == Seq::<u64>::empty(),
    {
        Self::new()
    }
}

/// The ids handed out over a registry's lifetime are pairwise distinct and
/// form the contiguous range from zero up to the counter; every open editor
/// holds one of them.
pub proof fn lemma_issued_ids_distinct_contiguous<P, E>(reg: &EnumEditorPlugin<P, E>)
    requires
        reg.wf(),
    ensures
        reg.issued().len() == reg.next_id(),
        forall|i: int| 0 <= i < reg.issued().len() ==> #[trigger] reg.issued()[i] == i,
        forall|i: int, j: int|
            0 <= i < j < reg.issued().len() ==> #[trigger] reg.issued()[i] != #[trigger] reg.issued()[j],
        forall|k: u64| #[trigger] reg.records().contains_key(k) ==> reg.issued().contains(k),
{
    assert forall|k: u64| #[trigger] reg.records().contains_key(k) implies reg.issued().contains(k) by {
        assert(reg.issued()[k as int] == k);
    }
}

/// Unloading twice in a row: the first unload reports how many editors were
/// open, the second reports none and leaves the registry empty.
pub proof fn lemma_unload_twice<P, E>(
    before: &EnumEditorPlugin<P, E>,
    between: &EnumEditorPlugin<P, E>,
    after: &EnumEditorPlugin<P, E>,
    first: nat,
    second: nat,
)
    requires
        before.unloaded(between, first),
        between.unloaded(after, second),
    ensures
        first == before.size(),
        second == 0,
        after.size() == 0,
        after.next_id() == before.next_id(),
{
}

} // verus!
