//! Planning the dispatch of a batch: which effect each action becomes, in
//! order, with the batch's abort and skip rules.
//!
//! Every path is sanitized and resolved before it reaches an effect.  An
//! unsafe path aborts the batch at that action: earlier actions keep their
//! planned effects, the offending action and everything after it get none.
//! A write or append without content is skipped with a schema report and
//! the batch goes on — deliberately unlike the unsafe-path case.

use vstd::prelude::*;
use crate::action::Action;
use crate::action::ActionModel;
use crate::action::ActionType;
use crate::sandbox::sanitize_and_resolve_path;
use crate::sandbox::sanitize_path_string;
use crate::sandbox::sp_is_safe;
use crate::sandbox::sp_resolved_str;
use crate::sandbox::sp_sanitized;

verus! {

/// One file-system operation with its path already resolved: exactly what
/// the embedding program performs, nothing else.
#[allow(inconsistent_fields)]
#[derive(Debug, Clone, PartialEq, Eq)]
pub enum Effect {
    CreateFile { path: String, content: Option<String> },
    WriteFile { path: String, content: String },
    AppendFile { path: String, content: String },
    ReadFile { path: String },
    DeleteFile { path: String },
    CreateDir { path: String },
    MoveFile { from_path: String, to_path: String },
}

/// The model of an `Effect`.
#[allow(inconsistent_fields)]
pub enum EffectModel {
    CreateFile { path: Seq<char>, content: Option<Seq<char>> },
    WriteFile { path: Seq<char>, content: Seq<char> },
    AppendFile { path: Seq<char>, content: Seq<char> },
    ReadFile { path: Seq<char> },
    DeleteFile { path: Seq<char> },
    CreateDir { path: Seq<char> },
    MoveFile { from_path: Seq<char>, to_path: Seq<char> },
}

impl View for Effect {
    type V = EffectModel;

    open spec fn view(&self) -> EffectModel {
        match self {
            Effect::CreateFile { path, content } => EffectModel::CreateFile {
                path: path@,
                content: match content {
                    Some(c) => Some(c@),
                    None => None,
                },
            },
            Effect::WriteFile { path, content } => EffectModel::WriteFile {
                path: path@,
                content: content@,
            },
            Effect::AppendFile { path, content } => EffectModel::AppendFile {
                path: path@,
                content: content@,
            },
            Effect::ReadFile { path } => EffectModel::ReadFile { path: path@ },
            Effect::DeleteFile { path } => EffectModel::DeleteFile { path: path@ },
            Effect::CreateDir { path } => EffectModel::CreateDir { path: path@ },
            Effect::MoveFile { from_path, to_path } => EffectModel::MoveFile {
                from_path: from_path@,
                to_path: to_path@,
            },
        }
    }
}

/// What the planner decides for one action: perform an effect, or skip the
/// action with a schema report because its content is missing.
#[derive(Debug, Clone, PartialEq, Eq)]
pub enum StepPlan {
    Perform(Effect),
    SkipMissingContent,
}

/// The plan for a batch: one step per action up to (not including) the
/// first action with an unsafe path, which is recorded in `abort_at`.
#[derive(Debug, Clone, PartialEq, Eq)]
pub struct BatchPlan {
    pub steps: Vec<StepPlan>,
    pub abort_at: Option<usize>,
}

/// The kind requires a `content` field.
pub open spec fn sp_needs_content(t: ActionType) -> bool {
    t == ActionType::WriteFile || t == ActionType::AppendFile
}

/// An action's path, as the dispatcher hands it to the sandbox.
pub open spec fn sp_action_safe(cwd: Seq<char>, a: ActionModel) -> bool {
    sp_is_safe(cwd, sp_sanitized(a.path))
}

/// The resolved absolute path an action's effect carries.
pub open spec fn sp_action_resolved(cwd: Seq<char>, a: ActionModel) -> Seq<char> {
    sp_resolved_str(cwd, sp_sanitized(a.path))
}

/// The effect a safe, complete action becomes.
pub open spec fn sp_effect_for(cwd: Seq<char>, a: ActionModel) -> EffectModel {
    let rp = sp_action_resolved(cwd, a);
    match a.action_type {
        ActionType::CreateFile => EffectModel::CreateFile { path: rp, content: a.content },
        ActionType::WriteFile => EffectModel::WriteFile { path: rp, content: a.content->Some_0 },
        ActionType::AppendFile => EffectModel::AppendFile { path: rp, content: a.content->Some_0 },
        ActionType::ReadFile => EffectModel::ReadFile { path: rp },
        ActionType::DeleteFile => EffectModel::DeleteFile { path: rp },
    }
}

/// The step planned for one action, given that its path is safe.
pub open spec fn sp_step_for(cwd: Seq<char>, a: ActionModel, step: StepPlan) -> bool {
    if sp_needs_content(a.action_type) && a.content is None {
        step is SkipMissingContent
    } else {
        step is Perform && step->Perform_0@ == sp_effect_for(cwd, a)
    }
}

/// Plans a batch.  Steps cover exactly the actions before the first unsafe
/// path (all of them if every path is safe); each planned step performs the
/// action's effect on its resolved path, except that a write or append
/// without content is skipped with a schema report.
#[verifier::loop_isolation(false)]
pub fn plan_actions(cwd: &str, actions: &Vec<Action>) -> (r: BatchPlan)
    ensures
        r.steps@.len() <= actions@.len(),
        forall|q: int| 0 <= q < r.steps@.len() ==> sp_action_safe(cwd@, #[trigger] actions@[q]@)
            && sp_step_for(cwd@, actions@[q]@, r.steps@[q]),
        match r.abort_at {
            Some(k) => k as int == r.steps@.len() && (k as int) < actions@.len()
                && !sp_action_safe(cwd@, actions@[k as int]@),
            None => r.steps@.len() == actions@.len(),
        },
{
    let mut steps: Vec<StepPlan> = Vec::new();
    let mut i: usize = 0;
    while i < actions.len()
        invariant
            i <= actions@.len(),
            steps@.len() == i,
            forall|q: int| 0 <= q < i ==> sp_action_safe(cwd@, #[trigger] actions@[q]@)
                && sp_step_for(cwd@, actions@[q]@, steps@[q]),
        decreases actions@.len() - i,
    {
        let a = &actions[i];
        let spelled = sanitize_path_string(a.path.as_str());
        let resolved = match sanitize_and_resolve_path(cwd, spelled.as_str()) {
            Ok(p) => p,
            Err(_) => {
                return BatchPlan { steps, abort_at: Some(i) };
            },
        };
        let step = match a.action_type {
            ActionType::CreateFile => StepPlan::Perform(
                Effect::CreateFile {
                    path: resolved,
                    content: match &a.content {
                        Some(c) => Some(c.clone()),
                        None => None,
                    },
                },
            ),
            ActionType::WriteFile => match &a.content {
                Some(c) => StepPlan::Perform(
                    Effect::WriteFile { path: resolved, content: c.clone() },
                ),
                None => StepPlan::SkipMissingContent,
            },
            ActionType::AppendFile => match &a.content {
                Some(c) => StepPlan::Perform(
                    Effect::AppendFile { path: resolved, content: c.clone() },
                ),
                None => StepPlan::SkipMissingContent,
            },
            ActionType::ReadFile => StepPlan::Perform(Effect::ReadFile { path: resolved }),
            ActionType::DeleteFile => StepPlan::Perform(Effect::DeleteFile { path: resolved }),
        };
        steps.push(step);
        i = i + 1;
    }
    BatchPlan { steps, abort_at: None }
}

/// A model file system: the text each path holds.  Only file contents are
/// modelled; directories are taken as present.
pub open spec fn sp_apply_effect(
    fs: Map<Seq<char>, Seq<char>>,
    e: EffectModel,
) -> Map<Seq<char>, Seq<char>> {
    match e {
        EffectModel::CreateFile { path, content } => fs.insert(
            path,
            match content {
                Some(c) => c,
                None => Seq::empty(),
            },
        ),
        EffectModel::WriteFile { path, content } => fs.insert(path, content),
        EffectModel::AppendFile { path, content } => fs.insert(
            path,
            if fs.contains_key(path) {
                fs[path] + content
            } else {
                content
            },
        ),
        EffectModel::ReadFile { path } => fs,
        EffectModel::DeleteFile { path } => fs.remove(path),
        EffectModel::CreateDir { path } => fs,
        EffectModel::MoveFile { from_path, to_path } => if fs.contains_key(from_path) {
            fs.remove(from_path).insert(to_path, fs[from_path])
        } else {
            fs
        },
    }
}

/// The file system after one planned step: a skip changes nothing.
pub open spec fn sp_apply_step(fs: Map<Seq<char>, Seq<char>>, step: StepPlan) -> Map<
    Seq<char>,
    Seq<char>,
> {
    match step {
        StepPlan::Perform(e) => sp_apply_effect(fs, e@),
        StepPlan::SkipMissingContent => fs,
    }
}

/// The file system after a plan's steps, in order.
pub open spec fn sp_apply_steps(fs: Map<Seq<char>, Seq<char>>, steps: Seq<StepPlan>) -> Map<
    Seq<char>,
    Seq<char>,
>
    decreases steps.len(),
{
    if steps.len() == 0 {
        fs
    } else {
        sp_apply_steps(sp_apply_step(fs, steps[0]), steps.drop_first())
    }
}

/// A planned create-then-write pair on one path leaves the file holding
/// exactly the written text: whatever two steps the planner assigns to a
/// `CreateFile` action and a `WriteFile` action with content on the same
/// path, applying them in order pins the resolved file's contents.
pub proof fn lemma_batch_create_then_write(
    cwd: Seq<char>,
    fs: Map<Seq<char>, Seq<char>>,
    a1: ActionModel,
    a2: ActionModel,
    s1: StepPlan,
    s2: StepPlan,
)
    requires
        a1.action_type == ActionType::CreateFile,
        a2.action_type == ActionType::WriteFile,
        a2.content is Some,
        a1.path == a2.path,
        sp_step_for(cwd, a1, s1),
        sp_step_for(cwd, a2, s2),
    ensures
        sp_apply_steps(fs, seq![s1, s2]).contains_key(sp_action_resolved(cwd, a2)),
        sp_apply_steps(fs, seq![s1, s2])[sp_action_resolved(cwd, a2)] == a2.content->Some_0,
{
    let one = sp_apply_step(fs, s1);
    assert(seq![s1, s2].drop_first() =~= seq![s2]);
    assert(seq![s2].drop_first() =~= Seq::<StepPlan>::empty());
    assert(sp_apply_steps(fs, seq![s1, s2]) == sp_apply_steps(one, seq![s2]));
    assert(sp_apply_steps(one, seq![s2]) == sp_apply_steps(
        sp_apply_step(one, s2),
        Seq::<StepPlan>::empty(),
    ));
    assert(sp_apply_steps(sp_apply_step(one, s2), Seq::<StepPlan>::empty()) == sp_apply_step(
        one,
        s2,
    ));
}

/// Creating a file and then writing text to it, in that order, leaves the
/// file holding exactly that text, whatever stood there before.
pub proof fn lemma_create_then_write(
    fs: Map<Seq<char>, Seq<char>>,
    p: Seq<char>,
    init: Option<Seq<char>>,
    text: Seq<char>,
)
    ensures
        sp_apply_effect(
            sp_apply_effect(fs, EffectModel::CreateFile { path: p, content: init }),
            EffectModel::WriteFile { path: p, content: text },
        ).contains_key(p),
        sp_apply_effect(
            sp_apply_effect(fs, EffectModel::CreateFile { path: p, content: init }),
            EffectModel::WriteFile { path: p, content: text },
        )[p] == text,
{
}

} // verus!
