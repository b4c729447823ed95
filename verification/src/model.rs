//! The core entities that extensions attach to. Plugins see these through
//! hooks and query filters; their persisted shape stays with the store.

use vstd::prelude::*;

verus! {

/// One tracked activity.
#[derive(Debug, PartialEq)]
pub struct Activity {
    pub id: i64,
    pub started_at: i64,
    pub duration_sec: i64,
    pub is_idle: bool,
    pub category_id: Option<i64>,
    pub project_id: Option<i64>,
    pub task_id: Option<i64>,
}

impl Activity {
    /// An exact copy with a known contract.
    pub fn dup(&self) -> (r: Activity)
        ensures
            r == *self,
    {
        Activity {
            id: self.id,
            started_at: self.started_at,
            duration_sec: self.duration_sec,
            is_idle: self.is_idle,
            category_id: self.category_id,
            project_id: self.project_id,
            task_id: self.task_id,
        }
    }
}

} // verus!
