use vstd::prelude::*;
use crate::model::{TaskRequest, TaskRequestV};
use crate::moment::TimeOfDay;

verus! {

/// A reusable skeleton of a time entry, re-anchored to a date when used.
pub struct SavedTask {
    pub task: TaskRequest,
    pub name: String,
    pub start: TimeOfDay,
    pub end: TimeOfDay,
}

#[verifier::ext_equal]
pub struct SavedTaskV {
    pub task: TaskRequestV,
    pub name: Seq<char>,
    pub start: TimeOfDay,
    pub end: TimeOfDay,
}

impl View for SavedTask {
    type V = SavedTaskV;

    open spec fn view(&self) -> SavedTaskV {
        SavedTaskV { task: self.task@, name: self.name@, start: self.start, end: self.end }
    }
}

impl Clone for SavedTask {
    fn clone(&self) -> (r: SavedTask)
        ensures
            r@ == self@,
    {
        SavedTask {
            task: self.task.clone(),
            name: self.name.clone(),
            start: self.start,
            end: self.end,
        }
    }
}

/// Everything the process persists: the API key and the saved templates.
pub struct Config {
    pub api_key: String,
    pub saved_tasks: Vec<SavedTask>,
}

/// The views of a list of saved templates.
pub open spec fn saved_views(ts: Seq<SavedTask>) -> Seq<SavedTaskV> {
    ts.map_values(|t: SavedTask| t@)
}

/// Holds the configuration once it is loaded; empty before that.
pub struct ConfigManager {
    pub config: Option<Config>,
}

impl ConfigManager {
    /// Appends a template to the store: every template already saved stays,
    /// in order, and the new one stands at the end.
    pub fn save_task(&mut self, task: SavedTask)
        requires
            old(self).config is Some,
        ensures
            final(self).config is Some,
            final(self).config->Some_0.saved_tasks@ == old(self).config->Some_0.saved_tasks@.push(
                task,
            ),
            final(self).config->Some_0.api_key == old(self).config->Some_0.api_key,
    {
        let c = self.config.take();
        match c {
            Some(mut cfg) => {
                cfg.saved_tasks.push(task);
                self.config = Some(cfg);
            },
            None => {
            },
        }
    }

    /// Replaces the API key held in memory; the saved templates stay.
    pub fn set_api_key(&mut self, key: String)
        requires
            old(self).config is Some,
        ensures
            final(self).config is Some,
            final(self).config->Some_0.api_key@ == key@,
            final(self).config->Some_0.saved_tasks@ == old(self).config->Some_0.saved_tasks@,
    {
        let c = self.config.take();
        match c {
            Some(mut cfg) => {
                cfg.api_key = key;
                self.config = Some(cfg);
            },
            None => {
            },
        }
    }

    /// Hands out the saved templates: one for one, in order, each equal to
    /// the stored one.
    pub fn get_saved_tasks(&self) -> (r: Vec<SavedTask>)
        requires
            self.config is Some,
        ensures
            r@.len() == self.config->Some_0.saved_tasks@.len(),
            forall|k: int| 0 <= k < r@.len() ==> r@[k]@ == self.config->Some_0.saved_tasks@[k]@,
            saved_views(r@) == saved_views(self.config->Some_0.saved_tasks@),
    {
        let tasks = match &self.config {
            Some(cfg) => &cfg.saved_tasks,
            None => {
                unreached()
            },
        };
        let mut r: Vec<SavedTask> = Vec::new();
        let mut k: usize = 0;
        while k < tasks.len()
            invariant
                k <= tasks@.len(),
                r@.len() == k,
                forall|j: int| 0 <= j < k ==> r@[j]@ == tasks@[j]@,
            decreases tasks@.len() - k,
        {
            r.push(tasks[k].clone());
            k = k + 1;
        }
        proof {
            assert(saved_views(r@) =~= saved_views(tasks@));
        }
        r
    }
}

/// A template saved into the store and read back is the same template: the
/// templates already stored keep their places, and the one appended last
/// carries the very request, name and times that were saved.
pub proof fn lemma_template_round_trip(tasks: Seq<SavedTask>, t: SavedTask)
    ensures
        tasks.push(t).len() == tasks.len() + 1,
        tasks.push(t).last() == t,
        tasks.push(t).last()@.task == t@.task,
        forall|k: int| 0 <= k < tasks.len() ==> tasks.push(t)[k] == tasks[k],
{
}

/// The client facing the remote service; it owns the configuration.
pub struct Clockify {
    pub manager: ConfigManager,
}

/// The interactive command-line client around the remote client.
pub struct ClockifyCLI {
    pub api: Clockify,
}

} // verus!
