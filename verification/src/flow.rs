use vstd::prelude::*;
use vstd::string::StringExecFns;
use crate::digits::{dec_str, push_u32};
use crate::duration::{spec_duration_phrase, format_duration};
use crate::model::{
    Project, ProjectV, Tag, Task, TaskV, TaskRequest, TaskRequestV, Workspace, tag_ids_of,
    spec_tag_ids,
};
use crate::moment::{
    Date, Moment, TimeOfDay, spec_compose, spec_rfc3339, moment_le, rfc3339_millis,
    compose_pair_on, compose_pair_today,
};
use crate::select::spec_parse_index;
use crate::select::single_choice_step;
use crate::store::SavedTask;

verus! {

/// The terminal reports a flow can end with.
#[derive(Clone, Copy, PartialEq, Eq, Structural, Debug)]
pub enum FlowMessage {
    NoWorkspace,
    NoProject,
    NoTags,
    NoTime,
    BadDate,
    NoTemplates,
    BadTemplate,
    Created,
    CreateFailed,
    Deleted,
    DeleteFailed,
    NoTasks,
}

/// A pair of transport timestamps that stand in order: both render moments
/// the library composed, the start no later than the end.
pub open spec fn ordered_rfc3339(sv: Seq<char>, ev: Seq<char>) -> bool {
    exists|m1: Moment, m2: Moment|
        m1.wf() && m2.wf() && moment_le(m1, m2) && sv == spec_rfc3339(m1) && ev == spec_rfc3339(m2)
}

/// A request assembled by the add flow from its selections.
pub open spec fn built_from(
    rv: TaskRequestV,
    p: ProjectV,
    tags: Seq<Tag>,
    desc: Seq<char>,
) -> bool {
    &&& rv.billable == true
    &&& rv.description == desc
    &&& rv.project_id == p.id
    &&& rv.task_id is None
    &&& rv.tag_ids == spec_tag_ids(tags)
    &&& rv.custom_fields == Seq::<Seq<char>>::empty()
}

/// The request view with only its timestamps replaced.
pub open spec fn req_with_times(a: TaskRequestV, sv: Seq<char>, ev: Seq<char>) -> TaskRequestV {
    TaskRequestV {
        start: sv,
        billable: a.billable,
        description: a.description,
        project_id: a.project_id,
        task_id: a.task_id,
        end: ev,
        tag_ids: a.tag_ids,
        custom_fields: a.custom_fields,
    }
}

/// The request view with only its description replaced.
pub open spec fn req_with_description(a: TaskRequestV, d: Seq<char>) -> TaskRequestV {
    TaskRequestV {
        start: a.start,
        billable: a.billable,
        description: d,
        project_id: a.project_id,
        task_id: a.task_id,
        end: a.end,
        tag_ids: a.tag_ids,
        custom_fields: a.custom_fields,
    }
}

/// Assembles the write-side payload from the chosen parts and two composed
/// moments; the start never renders later than the end.
pub fn build_request(
    description: String,
    project_id: String,
    tag_ids: Vec<String>,
    m1: Moment,
    m2: Moment,
) -> (r: TaskRequest)
    requires
        m1.wf(),
        m2.wf(),
        moment_le(m1, m2),
    ensures
        r@.start == spec_rfc3339(m1),
        r@.end == spec_rfc3339(m2),
        r@.billable == true,
        r@.description == description@,
        r@.project_id == project_id@,
        r@.task_id is None,
        r@.tag_ids == crate::model::str_views(tag_ids@),
        r@.custom_fields == Seq::<Seq<char>>::empty(),
        ordered_rfc3339(r@.start, r@.end),
{
    let r = TaskRequest {
        start: rfc3339_millis(m1),
        billable: true,
        description,
        project_id,
        task_id: None,
        end: rfc3339_millis(m2),
        tag_ids,
        custom_fields: Vec::new(),
    };
    proof {
        assert(r@.custom_fields =~= Seq::<Seq<char>>::empty());
        assert(m1.wf() && m2.wf() && moment_le(m1, m2) && r@.start == spec_rfc3339(m1) && r@.end
            == spec_rfc3339(m2));
    }
    r
}

/// The states of the add flow, each carrying what is already chosen.
pub enum AddFlow {
    PickWorkspace,
    PickProject { workspace: Workspace },
    PickTags { workspace: Workspace, project: Project },
    EnterDescription { workspace: Workspace, project: Project, tags: Vec<Tag> },
    PickStart {
        workspace: Workspace,
        project: Project,
        tags: Vec<Tag>,
        description: String,
    },
    PickEnd {
        workspace: Workspace,
        project: Project,
        tags: Vec<Tag>,
        description: String,
        start: TimeOfDay,
    },
    AskCustomDate {
        workspace: Workspace,
        project: Project,
        tags: Vec<Tag>,
        description: String,
        start: TimeOfDay,
        end: TimeOfDay,
    },
    PickDate {
        workspace: Workspace,
        project: Project,
        tags: Vec<Tag>,
        description: String,
        start: TimeOfDay,
        end: TimeOfDay,
    },
    Submit { workspace: Workspace, request: TaskRequest, start: TimeOfDay, end: TimeOfDay },
    AskSave { request: TaskRequest, start: TimeOfDay, end: TimeOfDay },
    EnterName { request: TaskRequest, start: TimeOfDay, end: TimeOfDay },
    SaveTemplate { template: SavedTask },
    Done { message: FlowMessage },
}

/// What the outside world reports back into the add flow.
pub enum AddEvent {
    WorkspaceChosen(Option<Workspace>),
    ProjectChosen(Option<Project>),
    TagsChosen(Option<Vec<Tag>>),
    DescriptionEntered(String),
    StartChosen(Option<TimeOfDay>),
    EndChosen(Option<TimeOfDay>),
    CustomDateAnswered(bool),
    DateChosen(Option<Date>),
    SubmitAnswered(bool),
    SaveAnswered(bool),
    NameEntered(String),
    TemplateSaved,
}

/// The submit state the add flow reaches after composing its times.
pub open spec fn submit_reached(
    post: AddFlow,
    workspace: Workspace,
    project: Project,
    tags: Seq<Tag>,
    description: Seq<char>,
    start: TimeOfDay,
    end: TimeOfDay,
) -> bool {
    post matches AddFlow::Submit { workspace: w2, request, start: s2, end: e2 } && w2 == workspace
        && s2 == start && e2 == end && built_from(request@, project@, tags, description)
        && ordered_rfc3339(request@.start, request@.end)
}

/// The transition relation of the add flow: one step for one event.
pub open spec fn add_rel(pre: AddFlow, event: AddEvent, post: AddFlow) -> bool {
    match (pre, event) {
        (AddFlow::PickWorkspace, AddEvent::WorkspaceChosen(None)) => post == (AddFlow::Done {
            message: FlowMessage::NoWorkspace,
        }),
        (AddFlow::PickWorkspace, AddEvent::WorkspaceChosen(Some(w))) => post
            == (AddFlow::PickProject { workspace: w }),
        (AddFlow::PickProject { workspace }, AddEvent::ProjectChosen(None)) => post
            == (AddFlow::Done { message: FlowMessage::NoProject }),
        (AddFlow::PickProject { workspace }, AddEvent::ProjectChosen(Some(p))) => post
            == (AddFlow::PickTags { workspace, project: p }),
        (AddFlow::PickTags { workspace, project }, AddEvent::TagsChosen(None)) => post
            == (AddFlow::Done { message: FlowMessage::NoTags }),
        (AddFlow::PickTags { workspace, project }, AddEvent::TagsChosen(Some(tags))) => post
            == (AddFlow::EnterDescription { workspace, project, tags }),
        (
            AddFlow::EnterDescription { workspace, project, tags },
            AddEvent::DescriptionEntered(d),
        ) => post == (AddFlow::PickStart { workspace, project, tags, description: d }),
        (AddFlow::PickStart { .. }, AddEvent::StartChosen(None)) => post == (AddFlow::Done {
            message: FlowMessage::NoTime,
        }),
        (
            AddFlow::PickStart { workspace, project, tags, description },
            AddEvent::StartChosen(Some(t)),
        ) => post == (AddFlow::PickEnd { workspace, project, tags, description, start: t }),
        (AddFlow::PickEnd { .. }, AddEvent::EndChosen(None)) => post == (AddFlow::Done {
            message: FlowMessage::NoTime,
        }),
        (
            AddFlow::PickEnd { workspace, project, tags, description, start },
            AddEvent::EndChosen(Some(e)),
        ) => post == (AddFlow::AskCustomDate {
            workspace,
            project,
            tags,
            description,
            start,
            end: e,
        }),
        (
            AddFlow::AskCustomDate { workspace, project, tags, description, start, end },
            AddEvent::CustomDateAnswered(true),
        ) => post == (AddFlow::PickDate { workspace, project, tags, description, start, end }),
        (
            AddFlow::AskCustomDate { workspace, project, tags, description, start, end },
            AddEvent::CustomDateAnswered(false),
        ) => {
            ||| post == (AddFlow::Done { message: FlowMessage::BadDate })
            ||| (submit_reached(post, workspace, project, tags@, description@, start, end)
                && (exists|d: Date, off: int|
                d.composable() && (-86400 < off < 86400) && (post matches AddFlow::Submit {
                    request,
                    ..
                } && request@.start == spec_rfc3339(#[trigger] spec_compose(d, start, off))
                    && request@.end == spec_rfc3339(spec_compose(d, end, off)))))
        },
        (AddFlow::PickDate { .. }, AddEvent::DateChosen(None)) => post == (AddFlow::Done {
            message: FlowMessage::BadDate,
        }),
        (
            AddFlow::PickDate { workspace, project, tags, description, start, end },
            AddEvent::DateChosen(Some(d)),
        ) => submit_reached(post, workspace, project, tags@, description@, start, end) && (exists|
            off: int,
        |
            (-86400 < off < 86400) && (post matches AddFlow::Submit { request, .. }
                && request@.start == spec_rfc3339(#[trigger] spec_compose(d, start, off))
                && request@.end == spec_rfc3339(spec_compose(d, end, off)))),
        (
            AddFlow::Submit { workspace, request, start, end },
            AddEvent::SubmitAnswered(false),
        ) => post == (AddFlow::Done { message: FlowMessage::CreateFailed }),
        (AddFlow::Submit { workspace, request, start, end }, AddEvent::SubmitAnswered(true)) => post
            == (AddFlow::AskSave { request, start, end }),
        (AddFlow::AskSave { request, start, end }, AddEvent::SaveAnswered(false)) => post
            == (AddFlow::Done { message: FlowMessage::Created }),
        (AddFlow::AskSave { request, start, end }, AddEvent::SaveAnswered(true)) => post
            == (AddFlow::EnterName { request, start, end }),
        (AddFlow::EnterName { request, start, end }, AddEvent::NameEntered(n)) => post
            == (AddFlow::SaveTemplate {
            template: SavedTask { task: request, name: n, start, end },
        }),
        (AddFlow::SaveTemplate { .. }, AddEvent::TemplateSaved) => post == (AddFlow::Done {
            message: FlowMessage::Created,
        }),
        (s, _) => post == s,
    }
}

impl AddFlow {
    /// What each state guarantees of the data it carries: chosen times are
    /// real times of day and the start never stands after the end.
    pub open spec fn inv(self) -> bool {
        match self {
            AddFlow::PickEnd { start, .. } => start.valid(),
            AddFlow::AskCustomDate { start, end, .. } => start.valid() && end.valid()
                && start.spec_seconds() <= end.spec_seconds(),
            AddFlow::PickDate { start, end, .. } => start.valid() && end.valid()
                && start.spec_seconds() <= end.spec_seconds(),
            _ => true,
        }
    }

    /// What a step asks of the event handed in: exactly what the prompt
    /// loops that produce these events guarantee.
    pub open spec fn event_wf(self, event: AddEvent) -> bool {
        match (self, event) {
            (AddFlow::PickStart { .. }, AddEvent::StartChosen(Some(t))) => t.valid(),
            (AddFlow::PickEnd { start, .. }, AddEvent::EndChosen(Some(t))) => t.valid()
                && start.spec_seconds() <= t.spec_seconds(),
            (AddFlow::PickDate { .. }, AddEvent::DateChosen(Some(d))) => d.composable(),
            _ => true,
        }
    }

    /// Advances the add flow by one event.
    pub fn step(self, event: AddEvent) -> (r: AddFlow)
        requires
            self.inv(),
            self.event_wf(event),
        ensures
            add_rel(self, event, r),
            r.inv(),
    {
        match (self, event) {
            (AddFlow::PickWorkspace, AddEvent::WorkspaceChosen(None)) => AddFlow::Done {
                message: FlowMessage::NoWorkspace,
            },
            (AddFlow::PickWorkspace, AddEvent::WorkspaceChosen(Some(w))) => AddFlow::PickProject {
                workspace: w,
            },
            (AddFlow::PickProject { workspace }, AddEvent::ProjectChosen(None)) => AddFlow::Done {
                message: FlowMessage::NoProject,
            },
            (AddFlow::PickProject { workspace }, AddEvent::ProjectChosen(Some(p))) => {
                AddFlow::PickTags { workspace, project: p }
            },
            (AddFlow::PickTags { workspace, project }, AddEvent::TagsChosen(None)) => {
                AddFlow::Done { message: FlowMessage::NoTags }
            },
            (AddFlow::PickTags { workspace, project }, AddEvent::TagsChosen(Some(tags))) => {
                AddFlow::EnterDescription { workspace, project, tags }
            },
            (
                AddFlow::EnterDescription { workspace, project, tags },
                AddEvent::DescriptionEntered(d),
            ) => AddFlow::PickStart { workspace, project, tags, description: d },
            (AddFlow::PickStart { .. }, AddEvent::StartChosen(None)) => AddFlow::Done {
                message: FlowMessage::NoTime,
            },
            (
                AddFlow::PickStart { workspace, project, tags, description },
                AddEvent::StartChosen(Some(t)),
            ) => AddFlow::PickEnd { workspace, project, tags, description, start: t },
            (AddFlow::PickEnd { .. }, AddEvent::EndChosen(None)) => AddFlow::Done {
                message: FlowMessage::NoTime,
            },
            (
                AddFlow::PickEnd { workspace, project, tags, description, start },
                AddEvent::EndChosen(Some(e)),
            ) => AddFlow::AskCustomDate { workspace, project, tags, description, start, end: e },
            (
                AddFlow::AskCustomDate { workspace, project, tags, description, start, end },
                AddEvent::CustomDateAnswered(true),
            ) => AddFlow::PickDate { workspace, project, tags, description, start, end },
            (
                AddFlow::AskCustomDate { workspace, project, tags, description, start, end },
                AddEvent::CustomDateAnswered(false),
            ) => {
                match compose_pair_today(start, end) {
                    None => AddFlow::Done { message: FlowMessage::BadDate },
                    Some(pair) => {
                        let tag_ids = tag_ids_of(&tags);
                        let request = build_request(
                            description,
                            project.id,
                            tag_ids,
                            pair.0,
                            pair.1,
                        );
                        AddFlow::Submit { workspace, request, start, end }
                    },
                }
            },
            (AddFlow::PickDate { .. }, AddEvent::DateChosen(None)) => AddFlow::Done {
                message: FlowMessage::BadDate,
            },
            (
                AddFlow::PickDate { workspace, project, tags, description, start, end },
                AddEvent::DateChosen(Some(d)),
            ) => {
                let pair = compose_pair_on(d, start, end);
                let tag_ids = tag_ids_of(&tags);
                let request = build_request(description, project.id, tag_ids, pair.0, pair.1);
                AddFlow::Submit { workspace, request, start, end }
            },
            (AddFlow::Submit { .. }, AddEvent::SubmitAnswered(false)) => AddFlow::Done {
                message: FlowMessage::CreateFailed,
            },
            (
                AddFlow::Submit { workspace, request, start, end },
                AddEvent::SubmitAnswered(true),
            ) => AddFlow::AskSave { request, start, end },
            (AddFlow::AskSave { request, start, end }, AddEvent::SaveAnswered(false)) => {
                AddFlow::Done { message: FlowMessage::Created }
            },
            (AddFlow::AskSave { request, start, end }, AddEvent::SaveAnswered(true)) => {
                AddFlow::EnterName { request, start, end }
            },
            (AddFlow::EnterName { request, start, end }, AddEvent::NameEntered(n)) => {
                AddFlow::SaveTemplate { template: SavedTask { task: request, name: n, start, end } }
            },
            (AddFlow::SaveTemplate { template: _ }, AddEvent::TemplateSaved) => AddFlow::Done {
                message: FlowMessage::Created,
            },
            (s, _) => s,
        }
    }
}

/// The states of the create-from-template flow.
pub enum SavedFlow {
    PickTemplate { templates: Vec<SavedTask> },
    PickWorkspace { chosen: SavedTask },
    EditDescription { workspace: Workspace, chosen: SavedTask },
    AskCustomDate { workspace: Workspace, chosen: SavedTask },
    PickDate { workspace: Workspace, chosen: SavedTask },
    Submit { workspace: Workspace, request: TaskRequest },
    Done { message: FlowMessage },
}

/// What the outside world reports back into the create-from-template flow.
pub enum SavedEvent {
    TemplateLineRead(String),
    WorkspaceChosen(Option<Workspace>),
    DescriptionEntered(String),
    CustomDateAnswered(bool),
    DateChosen(Option<Date>),
    SubmitAnswered(bool),
}

/// A stored template whose wall-clock times can be re-anchored to a date.
pub open spec fn template_usable(t: SavedTask) -> bool {
    t.start.valid() && t.end.valid() && t.start.spec_seconds() <= t.end.spec_seconds()
}

/// The submit state the saved flow reaches: the stored request verbatim,
/// with only its timestamps re-derived, in order, from the stored times.
pub open spec fn saved_submit_reached(post: SavedFlow, workspace: Workspace, chosen: SavedTask) -> bool {
    post matches SavedFlow::Submit { workspace: w2, request } && w2 == workspace && request@
        == req_with_times(chosen@.task, request@.start, request@.end) && ordered_rfc3339(
        request@.start,
        request@.end,
    )
}

/// The transition relation of the create-from-template flow.
pub open spec fn saved_rel(pre: SavedFlow, event: SavedEvent, post: SavedFlow) -> bool {
    match (pre, event) {
        (SavedFlow::PickTemplate { templates }, SavedEvent::TemplateLineRead(line)) => {
            if spec_parse_index(line@) matches Some(v) && 1 <= v <= templates@.len() {
                post matches SavedFlow::PickWorkspace { chosen } && chosen@ == templates@[
                    spec_parse_index(line@)->Some_0 - 1]@
            } else {
                post == (SavedFlow::Done { message: FlowMessage::BadTemplate })
            }
        },
        (SavedFlow::PickWorkspace { chosen }, SavedEvent::WorkspaceChosen(None)) => post
            == (SavedFlow::Done { message: FlowMessage::NoWorkspace }),
        (SavedFlow::PickWorkspace { chosen }, SavedEvent::WorkspaceChosen(Some(w))) => post
            matches SavedFlow::EditDescription { workspace, chosen: c2 } && workspace == w && c2
            == chosen,
        (SavedFlow::EditDescription { workspace, chosen }, SavedEvent::DescriptionEntered(d)) => {
            post matches SavedFlow::AskCustomDate { workspace: w2, chosen: c2 } && w2 == workspace
                && c2@.task == req_with_description(chosen@.task, d@) && c2@.name == chosen@.name
                && c2@.start == chosen@.start && c2@.end == chosen@.end
        },
        (SavedFlow::AskCustomDate { workspace, chosen }, SavedEvent::CustomDateAnswered(true)) => {
            post == (SavedFlow::PickDate { workspace, chosen })
        },
        (SavedFlow::AskCustomDate { workspace, chosen }, SavedEvent::CustomDateAnswered(false)) => {
            if !template_usable(chosen) {
                post == (SavedFlow::Done { message: FlowMessage::BadTemplate })
            } else {
                ||| post == (SavedFlow::Done { message: FlowMessage::BadDate })
                ||| (saved_submit_reached(post, workspace, chosen) && (exists|d: Date, off: int|
                    d.composable() && (-86400 < off < 86400) && (post matches SavedFlow::Submit {
                        request,
                        ..
                    } && request@.start == spec_rfc3339(#[trigger] spec_compose(d, chosen.start, off))
                        && request@.end == spec_rfc3339(spec_compose(d, chosen.end, off)))))
            }
        },
        (SavedFlow::PickDate { .. }, SavedEvent::DateChosen(None)) => post == (SavedFlow::Done {
            message: FlowMessage::BadDate,
        }),
        (SavedFlow::PickDate { workspace, chosen }, SavedEvent::DateChosen(Some(d))) => {
            if !template_usable(chosen) {
                post == (SavedFlow::Done { message: FlowMessage::BadTemplate })
            } else {
                saved_submit_reached(post, workspace, chosen) && (exists|off: int|
                    (-86400 < off < 86400) && (post matches SavedFlow::Submit { request, .. }
                        && request@.start == spec_rfc3339(#[trigger] spec_compose(d, chosen.start, off))
                        && request@.end == spec_rfc3339(spec_compose(d, chosen.end, off))))
            }
        },
        (SavedFlow::Submit { .. }, SavedEvent::SubmitAnswered(ok)) => post == (SavedFlow::Done {
            message: if ok {
                FlowMessage::Created
            } else {
                FlowMessage::CreateFailed
            },
        }),
        (s, _) => post == s,
    }
}

impl SavedFlow {
    /// Enters the flow: with no stored templates there is nothing to pick.
    pub fn start(templates: Vec<SavedTask>) -> (r: SavedFlow)
        ensures
            templates@.len() == 0 ==> r == (SavedFlow::Done { message: FlowMessage::NoTemplates }),
            templates@.len() > 0 ==> r == (SavedFlow::PickTemplate { templates }),
    {
        if templates.is_empty() {
            SavedFlow::Done { message: FlowMessage::NoTemplates }
        } else {
            SavedFlow::PickTemplate { templates }
        }
    }

    /// What a step asks of the event handed in.
    pub open spec fn event_wf(self, event: SavedEvent) -> bool {
        match (self, event) {
            (SavedFlow::PickDate { .. }, SavedEvent::DateChosen(Some(d))) => d.composable(),
            _ => true,
        }
    }

    /// Advances the create-from-template flow by one event.
    pub fn step(self, event: SavedEvent) -> (r: SavedFlow)
        requires
            self.event_wf(event),
        ensures
            saved_rel(self, event, r),
    {
        match (self, event) {
            (SavedFlow::PickTemplate { templates }, SavedEvent::TemplateLineRead(line)) => {
                match single_choice_step(templates.len(), line.as_str()) {
                    Some(i) => SavedFlow::PickWorkspace { chosen: templates[i].clone() },
                    None => SavedFlow::Done { message: FlowMessage::BadTemplate },
                }
            },
            (SavedFlow::PickWorkspace { chosen: _ }, SavedEvent::WorkspaceChosen(None)) => {
                SavedFlow::Done { message: FlowMessage::NoWorkspace }
            },
            (SavedFlow::PickWorkspace { chosen }, SavedEvent::WorkspaceChosen(Some(w))) => {
                SavedFlow::EditDescription { workspace: w, chosen }
            },
            (
                SavedFlow::EditDescription { workspace, chosen },
                SavedEvent::DescriptionEntered(d),
            ) => {
                let mut c = chosen;
                c.task.description = d;
                proof {
                    assert(c@.task =~= req_with_description(chosen@.task, d@));
                }
                SavedFlow::AskCustomDate { workspace, chosen: c }
            },
            (
                SavedFlow::AskCustomDate { workspace, chosen },
                SavedEvent::CustomDateAnswered(true),
            ) => SavedFlow::PickDate { workspace, chosen },
            (
                SavedFlow::AskCustomDate { workspace, chosen },
                SavedEvent::CustomDateAnswered(false),
            ) => {
                if !(chosen.start.check_valid() && chosen.end.check_valid()) {
                    SavedFlow::Done { message: FlowMessage::BadTemplate }
                } else if chosen.start.seconds() > chosen.end.seconds() {
                    SavedFlow::Done { message: FlowMessage::BadTemplate }
                } else {
                    match compose_pair_today(chosen.start, chosen.end) {
                        None => SavedFlow::Done { message: FlowMessage::BadDate },
                        Some(pair) => {
                            let start = chosen.start;
                            let end = chosen.end;
                            let ghost oldreq = chosen@.task;
                            let mut request = chosen.task;
                            request.start = rfc3339_millis(pair.0);
                            request.end = rfc3339_millis(pair.1);
                            proof {
                                assert(request@ =~= req_with_times(
                                    oldreq,
                                    request@.start,
                                    request@.end,
                                ));
                                let (d, off) = choose|d: Date, off: int|
                                    d.composable() && (-86400 < off < 86400) && pair.0
                                        == spec_compose(d, start, off) && pair.1 == spec_compose(
                                        d,
                                        end,
                                        off,
                                    );
                                assert(d.composable() && (-86400 < off < 86400) && request@.start
                                    == spec_rfc3339(spec_compose(d, start, off)) && request@.end
                                    == spec_rfc3339(spec_compose(d, end, off)));
                            }
                            SavedFlow::Submit { workspace, request }
                        },
                    }
                }
            },
            (SavedFlow::PickDate { .. }, SavedEvent::DateChosen(None)) => SavedFlow::Done {
                message: FlowMessage::BadDate,
            },
            (SavedFlow::PickDate { workspace, chosen }, SavedEvent::DateChosen(Some(d))) => {
                if !(chosen.start.check_valid() && chosen.end.check_valid()) {
                    SavedFlow::Done { message: FlowMessage::BadTemplate }
                } else if chosen.start.seconds() > chosen.end.seconds() {
                    SavedFlow::Done { message: FlowMessage::BadTemplate }
                } else {
                    let pair = compose_pair_on(d, chosen.start, chosen.end);
                    let start = chosen.start;
                    let end = chosen.end;
                    let ghost oldreq = chosen@.task;
                    let mut request = chosen.task;
                    request.start = rfc3339_millis(pair.0);
                    request.end = rfc3339_millis(pair.1);
                    proof {
                        assert(request@ =~= req_with_times(oldreq, request@.start, request@.end));
                        let off = choose|off: int|
                            (-86400 < off < 86400) && pair.0 == spec_compose(d, start, off)
                                && pair.1 == spec_compose(d, end, off);
                        assert((-86400 < off < 86400) && request@.start == spec_rfc3339(
                            spec_compose(d, start, off),
                        ) && request@.end == spec_rfc3339(spec_compose(d, end, off)));
                    }
                    SavedFlow::Submit { workspace, request }
                }
            },
            (SavedFlow::Submit { .. }, SavedEvent::SubmitAnswered(ok)) => {
                if ok {
                    SavedFlow::Done { message: FlowMessage::Created }
                } else {
                    SavedFlow::Done { message: FlowMessage::CreateFailed }
                }
            },
            (s, _) => s,
        }
    }
}

/// The states of the delete flow.
pub enum DeleteFlow {
    PickWorkspace,
    PickTask { workspace: Workspace },
    AwaitResult { workspace: Workspace, task: Task },
    Done { message: FlowMessage },
}

/// What the outside world reports back into the delete flow.
pub enum DeleteEvent {
    WorkspaceChosen(Option<Workspace>),
    TaskChosen(Option<Task>),
    ResultReceived(bool),
}

/// The transition relation of the delete flow.
pub open spec fn delete_rel(pre: DeleteFlow, event: DeleteEvent, post: DeleteFlow) -> bool {
    match (pre, event) {
        (DeleteFlow::PickWorkspace, DeleteEvent::WorkspaceChosen(None)) => post == (DeleteFlow::Done {
            message: FlowMessage::NoWorkspace,
        }),
        (DeleteFlow::PickWorkspace, DeleteEvent::WorkspaceChosen(Some(w))) => post
            == (DeleteFlow::PickTask { workspace: w }),
        (DeleteFlow::PickTask { .. }, DeleteEvent::TaskChosen(None)) => post == (DeleteFlow::Done {
            message: FlowMessage::NoTasks,
        }),
        (DeleteFlow::PickTask { workspace }, DeleteEvent::TaskChosen(Some(t))) => post
            == (DeleteFlow::AwaitResult { workspace, task: t }),
        (DeleteFlow::AwaitResult { .. }, DeleteEvent::ResultReceived(ok)) => post
            == (DeleteFlow::Done {
            message: if ok {
                FlowMessage::Deleted
            } else {
                FlowMessage::DeleteFailed
            },
        }),
        (s, _) => post == s,
    }
}

impl DeleteFlow {
    /// Advances the delete flow by one event.
    pub fn step(self, event: DeleteEvent) -> (r: DeleteFlow)
        ensures
            delete_rel(self, event, r),
    {
        match (self, event) {
            (DeleteFlow::PickWorkspace, DeleteEvent::WorkspaceChosen(None)) => DeleteFlow::Done {
                message: FlowMessage::NoWorkspace,
            },
            (DeleteFlow::PickWorkspace, DeleteEvent::WorkspaceChosen(Some(w))) => {
                DeleteFlow::PickTask { workspace: w }
            },
            (DeleteFlow::PickTask { .. }, DeleteEvent::TaskChosen(None)) => DeleteFlow::Done {
                message: FlowMessage::NoTasks,
            },
            (DeleteFlow::PickTask { workspace }, DeleteEvent::TaskChosen(Some(t))) => {
                DeleteFlow::AwaitResult { workspace, task: t }
            },
            (DeleteFlow::AwaitResult { .. }, DeleteEvent::ResultReceived(ok)) => {
                if ok {
                    DeleteFlow::Done { message: FlowMessage::Deleted }
                } else {
                    DeleteFlow::Done { message: FlowMessage::DeleteFailed }
                }
            },
            (s, _) => s,
        }
    }
}

/// The line the list flow renders for one time entry, numbered from one.
pub open spec fn spec_task_line(i: int, t: TaskV) -> Seq<char> {
    "["@ + dec_str(i as nat) + "] "@ + t.description + " ["@ + spec_duration_phrase(t.time.duration)
        + "]"@
}

pub fn render_task_line(i: u32, t: &Task) -> (r: String)
    requires
        i >= 1,
    ensures
        r@ == spec_task_line(i as int, t@),
{
    let mut s = String::new();
    proof {
        reveal_strlit("[");
        reveal_strlit("] ");
        reveal_strlit(" [");
        reveal_strlit("]");
    }
    s.append("[");
    push_u32(&mut s, i);
    s.append("] ");
    s.append(t.description.as_str());
    s.append(" [");
    let d = format_duration(t.time.duration.as_str());
    s.append(d.as_str());
    s.append("]");
    proof {
        assert(s@ =~= spec_task_line(i as int, t@));
    }
    s
}

/// Renders the numbered list of time entries with their durations spelled
/// out, one line for one entry.
pub fn render_task_lines(tasks: &Vec<Task>) -> (r: Vec<String>)
    requires
        tasks@.len() < 4294967295,
    ensures
        r@.len() == tasks@.len(),
        forall|k: int| 0 <= k < tasks@.len() ==> r@[k]@ == spec_task_line(k + 1, tasks@[k]@),
{
    let mut r: Vec<String> = Vec::new();
    let mut k: usize = 0;
    while k < tasks.len()
        invariant
            k <= tasks@.len(),
            tasks@.len() < 4294967295,
            r@.len() == k,
            forall|j: int| 0 <= j < k ==> r@[j]@ == spec_task_line(j + 1, tasks@[j]@),
        decreases tasks@.len() - k,
    {
        r.push(render_task_line((k + 1) as u32, &tasks[k]));
        k = k + 1;
    }
    r
}

/// The line the projects listing renders for one project.
pub open spec fn spec_project_line(i: int, p: ProjectV) -> Seq<char> {
    "["@ + dec_str(i as nat) + "] "@ + p.name + " ["@ + spec_duration_phrase(p.duration) + "]"@
}

pub fn render_project_line(i: u32, p: &Project) -> (r: String)
    requires
        i >= 1,
    ensures
        r@ == spec_project_line(i as int, p@),
{
    let mut s = String::new();
    proof {
        reveal_strlit("[");
        reveal_strlit("] ");
        reveal_strlit(" [");
        reveal_strlit("]");
    }
    s.append("[");
    push_u32(&mut s, i);
    s.append("] ");
    s.append(p.name.as_str());
    s.append(" [");
    let d = format_duration(p.duration.as_str());
    s.append(d.as_str());
    s.append("]");
    proof {
        assert(s@ =~= spec_project_line(i as int, p@));
    }
    s
}

/// Renders the numbered list of projects with their tracked durations.
pub fn render_project_lines(projects: &Vec<Project>) -> (r: Vec<String>)
    requires
        projects@.len() < 4294967295,
    ensures
        r@.len() == projects@.len(),
        forall|k: int| 0 <= k < projects@.len() ==> r@[k]@ == spec_project_line(
            k + 1,
            projects@[k]@,
        ),
{
    let mut r: Vec<String> = Vec::new();
    let mut k: usize = 0;
    while k < projects.len()
        invariant
            k <= projects@.len(),
            projects@.len() < 4294967295,
            r@.len() == k,
            forall|j: int| 0 <= j < k ==> r@[j]@ == spec_project_line(j + 1, projects@[j]@),
        decreases projects@.len() - k,
    {
        r.push(render_project_line((k + 1) as u32, &projects[k]));
        k = k + 1;
    }
    r
}

/// The line the tags listing renders for one tag.
pub open spec fn spec_tag_line(i: int, t: crate::model::TagV) -> Seq<char> {
    " ["@ + dec_str(i as nat) + "] "@ + t.name
}

pub fn render_tag_line(i: u32, t: &Tag) -> (r: String)
    requires
        i >= 1,
    ensures
        r@ == spec_tag_line(i as int, t@),
{
    let mut s = String::new();
    proof {
        reveal_strlit(" [");
        reveal_strlit("] ");
    }
    s.append(" [");
    push_u32(&mut s, i);
    s.append("] ");
    s.append(t.name.as_str());
    proof {
        assert(s@ =~= spec_tag_line(i as int, t@));
    }
    s
}

/// Renders the numbered list of tags.
pub fn render_tag_lines(tags: &Vec<Tag>) -> (r: Vec<String>)
    requires
        tags@.len() < 4294967295,
    ensures
        r@.len() == tags@.len(),
        forall|k: int| 0 <= k < tags@.len() ==> r@[k]@ == spec_tag_line(k + 1, tags@[k]@),
{
    let mut r: Vec<String> = Vec::new();
    let mut k: usize = 0;
    while k < tags.len()
        invariant
            k <= tags@.len(),
            tags@.len() < 4294967295,
            r@.len() == k,
            forall|j: int| 0 <= j < k ==> r@[j]@ == spec_tag_line(j + 1, tags@[j]@),
        decreases tags@.len() - k,
    {
        r.push(render_tag_line((k + 1) as u32, &tags[k]));
        k = k + 1;
    }
    r
}

} // verus!
