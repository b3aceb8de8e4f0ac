//! The helper windows beside the main window: their labels, the one-shot
//! hand-over of form data, and what a form reports when it is done.

use vstd::prelude::*;

verus! {

/// Label of the settings window.
pub const SETTINGS_WEBVIEW_LABEL: &'static str = "settings";
/// Label of the new-task window.
pub const TASK_ADD_WEBVIEW_LABEL: &'static str = "shelf-task-add";
/// Label of the task-edit window.
pub const TASK_EDIT_WEBVIEW_LABEL: &'static str = "shelf-task-edit";
/// Label of the vault-item window.
pub const VAULT_FORM_WEBVIEW_LABEL: &'static str = "shelf-vault-form";
/// Label of the memo window.
pub const MEMO_FORM_WEBVIEW_LABEL: &'static str = "shelf-memo-form";

/// The helper windows to close before the main window goes away, in the
/// order they are closed.
pub fn secondary_webview_labels() -> (res: [&'static str; 5])
    ensures
        res[0]@ == SETTINGS_WEBVIEW_LABEL@,
        res[1]@ == TASK_ADD_WEBVIEW_LABEL@,
        res[2]@ == TASK_EDIT_WEBVIEW_LABEL@,
        res[3]@ == VAULT_FORM_WEBVIEW_LABEL@,
        res[4]@ == MEMO_FORM_WEBVIEW_LABEL@,
{
    [
        SETTINGS_WEBVIEW_LABEL,
        TASK_ADD_WEBVIEW_LABEL,
        TASK_EDIT_WEBVIEW_LABEL,
        VAULT_FORM_WEBVIEW_LABEL,
        MEMO_FORM_WEBVIEW_LABEL,
    ]
}

/// Data handed to a window that reads it once after loading.
pub struct OneShotSlot<T> {
    pub value: Option<T>,
}

impl<T> OneShotSlot<T> {
    /// An empty slot.
    pub fn new() -> (res: Self)
        ensures
            res.value is None,
    {
        OneShotSlot { value: None }
    }

    /// Leaves `value` for the next reader, replacing what was there.
    pub fn put(&mut self, value: T)
        ensures
            final(self).value == Some(value),
    {
        self.value = Some(value);
    }

    /// Hands out what the slot holds and leaves it empty.
    pub fn take(&mut self) -> (res: Option<T>)
        ensures
            res == old(self).value,
            final(self).value is None,
    {
        let out = self.value.take();
        out
    }
}

/// What the memo window reports when it closes.
#[derive(Debug, Clone, Copy, PartialEq, Eq, Structural)]
pub struct ShelfMemoFormDone {
    pub cancelled: bool,
    pub saved_memo_id: Option<i64>,
}

/// What the new-task window reports.
#[derive(Debug, Clone, Copy, PartialEq, Eq, Structural)]
pub struct ShelfTaskAddFormDone {
    pub cancelled: bool,
    pub created_id: Option<i64>,
}

/// What the task-edit window reports.
#[derive(Debug, Clone, Copy, PartialEq, Eq, Structural)]
pub struct ShelfTaskEditFormDone {
    pub cancelled: bool,
    pub todo_id: Option<i64>,
    pub deleted: Option<bool>,
}

/// What the vault-item window reports.
#[derive(Debug, Clone, Copy, PartialEq, Eq, Structural)]
pub struct ShelfVaultFormDone {
    pub cancelled: bool,
    pub saved_item_id: Option<i64>,
    pub deleted: Option<bool>,
}

/// The project of a task form: ids above zero name a project, others none.
pub fn form_project_id(project_id: i64) -> (res: Option<i64>)
    ensures
        project_id > 0 ==> res == Some(project_id),
        project_id <= 0 ==> res is None,
{
    if project_id > 0 {
        Some(project_id)
    } else {
        None
    }
}

impl ShelfTaskAddFormDone {
    /// A task was created with this id; the window stays open for the next one.
    pub fn created(id: i64) -> (res: Self)
        ensures
            res == (ShelfTaskAddFormDone { cancelled: false, created_id: Some(id) }),
    {
        ShelfTaskAddFormDone { cancelled: false, created_id: Some(id) }
    }
}

/// The change that the task-edit window commits.
#[derive(Debug, Clone, Copy, PartialEq, Eq, Structural)]
pub enum TaskEditChange {
    /// Delete the task; the other fields are ignored.
    Delete { todo_id: i64 },
    /// Save the fields, and set the task's project.
    Update { todo_id: i64, project_id: Option<i64> },
}

/// What committing the task-edit form does: delete when asked, else update
/// the task and its project.
pub fn task_edit_change(delete_todo: bool, todo_id: i64, project_id: i64) -> (res: TaskEditChange)
    ensures
        delete_todo ==> res == (TaskEditChange::Delete { todo_id }),
        !delete_todo ==> res == (TaskEditChange::Update {
            todo_id,
            project_id: if project_id > 0 { Some(project_id) } else { None },
        }),
{
    if delete_todo {
        TaskEditChange::Delete { todo_id }
    } else {
        TaskEditChange::Update { todo_id, project_id: form_project_id(project_id) }
    }
}

impl ShelfTaskEditFormDone {
    /// The edit of task `todo_id` was committed; `deleted` tells whether it
    /// was a deletion.
    pub fn committed(todo_id: i64, deleted: bool) -> (res: Self)
        ensures
            res == (ShelfTaskEditFormDone { cancelled: false, todo_id: Some(todo_id), deleted: Some(deleted) }),
    {
        ShelfTaskEditFormDone { cancelled: false, todo_id: Some(todo_id), deleted: Some(deleted) }
    }
}

/// The change that the vault-item window commits.
#[derive(Debug, Clone, Copy, PartialEq, Eq, Structural)]
pub enum VaultEditChange {
    /// Delete the item; the title and content are ignored.
    Delete { id: i64 },
    /// Save the title and content of the item.
    Update { id: i64 },
}

/// What committing the vault-item form does: delete when asked, else update.
pub fn vault_edit_change(delete_vault_item: bool, id: i64) -> (res: VaultEditChange)
    ensures
        delete_vault_item ==> res == (VaultEditChange::Delete { id }),
        !delete_vault_item ==> res == (VaultEditChange::Update { id }),
{
    if delete_vault_item {
        VaultEditChange::Delete { id }
    } else {
        VaultEditChange::Update { id }
    }
}

impl ShelfVaultFormDone {
    /// A vault item was created with this id; the window stays open.
    pub fn created(id: i64) -> (res: Self)
        ensures
            res == (ShelfVaultFormDone { cancelled: false, saved_item_id: Some(id), deleted: None }),
    {
        ShelfVaultFormDone { cancelled: false, saved_item_id: Some(id), deleted: None }
    }

    /// Item `id` was saved or, with `deleted`, deleted.
    pub fn committed(id: i64, deleted: bool) -> (res: Self)
        ensures
            res == (ShelfVaultFormDone { cancelled: false, saved_item_id: Some(id), deleted: Some(deleted) }),
    {
        ShelfVaultFormDone { cancelled: false, saved_item_id: Some(id), deleted: Some(deleted) }
    }
}

} // verus!
