//! Quests that count plantings of one crop kind toward a reward.
use vstd::prelude::*;
use crate::tile::CropType;

verus! {

/// What a task asks for.
#[derive(Clone, Copy, PartialEq, Eq, Structural, Debug)]
pub enum TaskType {
    PlantCrop { crop: CropType, count: u32 },
}

/// One quest record.
#[derive(Clone, Copy, PartialEq, Eq, Structural, Debug)]
pub struct Task {
    pub id: u32,
    pub task_type: TaskType,
    pub progress: u32,
    pub target: u32,
    pub reward: u32,
    pub completed: bool,
    pub claimed: bool,
}

/// The task after a successful planting of `crop`: a matching, unfinished
/// task advances by one and completes on reaching its target.
pub open spec fn after_planting(t: Task, crop: CropType) -> Task {
    if !t.completed && t.task_type->crop == crop {
        Task { progress: (t.progress + 1) as u32, completed: t.progress + 1 >= t.target, ..t }
    } else {
        t
    }
}

/// Every task after a successful planting of `crop`.
pub open spec fn tasks_after_planting(ts: Seq<Task>, crop: CropType) -> Seq<Task> {
    ts.map_values(|t: Task| after_planting(t, crop))
}

impl Task {
    /// Progress stays within the target, completion means the target was
    /// reached, and only completed tasks are claimed.
    pub open spec fn wf(&self) -> bool {
        &&& self.progress <= self.target
        &&& self.completed == (self.progress == self.target)
        &&& self.claimed ==> self.completed
    }

    /// A task is claimable once completed, and only once.
    pub open spec fn claimable(&self) -> bool {
        self.completed && !self.claimed
    }

    /// A fresh task asking for `target` plantings of `crop`.
    pub fn new(id: u32, crop: CropType, target: u32, reward: u32) -> (r: Task)
        ensures
            r.wf(),
            r == (Task {
                id,
                task_type: TaskType::PlantCrop { crop, count: target },
                progress: 0,
                target,
                reward,
                completed: target == 0,
                claimed: false,
            }),
    {
        Task {
            id,
            task_type: TaskType::PlantCrop { crop, count: target },
            progress: 0,
            target,
            reward,
            completed: target == 0,
            claimed: false,
        }
    }

    /// Records a successful planting of `crop`.
    pub fn on_planted(&mut self, crop: CropType)
        requires
            old(self).wf(),
        ensures
            final(self).wf(),
            *final(self) == after_planting(*old(self), crop),
    {
        let TaskType::PlantCrop { crop: wanted, .. } = self.task_type;
        if !self.completed && wanted == crop {
            self.progress = self.progress + 1;
            if self.progress >= self.target {
                self.completed = true;
            }
        }
    }
}

/// The tasks of a new game, as values.
pub open spec fn default_tasks_view() -> Seq<Task> {
    seq![
        Task {
            id: 1,
            task_type: TaskType::PlantCrop { crop: CropType::Wheat, count: 10 },
            progress: 0,
            target: 10,
            reward: 30,
            completed: false,
            claimed: false,
        },
        Task {
            id: 2,
            task_type: TaskType::PlantCrop { crop: CropType::Corn, count: 5 },
            progress: 0,
            target: 5,
            reward: 20,
            completed: false,
            claimed: false,
        },
        Task {
            id: 3,
            task_type: TaskType::PlantCrop { crop: CropType::Carrot, count: 3 },
            progress: 0,
            target: 3,
            reward: 15,
            completed: false,
            claimed: false,
        },
    ]
}

/// The tasks of a new game.
pub fn default_tasks() -> (r: Vec<Task>)
    ensures
        r@ == default_tasks_view(),
        forall|i: int| 0 <= i < r.len() ==> (#[trigger] r@[i]).wf(),
{
    let mut r: Vec<Task> = Vec::new();
    r.push(Task::new(1, CropType::Wheat, 10, 30));
    r.push(Task::new(2, CropType::Corn, 5, 20));
    r.push(Task::new(3, CropType::Carrot, 3, 15));
    r
}

/// A planting never moves a task backwards nor past its target, and never
/// changes whether it was claimed.
pub proof fn planting_progress_law(t: Task, crop: CropType)
    requires
        t.wf(),
    ensures
        after_planting(t, crop).wf(),
        after_planting(t, crop).progress >= t.progress,
        after_planting(t, crop).progress <= after_planting(t, crop).target,
        after_planting(t, crop).claimed == t.claimed,
        after_planting(t, crop).target == t.target,
{
}

} // verus!
