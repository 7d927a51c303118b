use chrono::{Offset, TimeZone};
use clockify_cli::flow::{
    AddEvent, AddFlow, DeleteEvent, DeleteFlow, FlowMessage, SavedEvent, SavedFlow,
    render_project_lines, render_tag_lines, render_task_lines,
};
use clockify_cli::model::{Project, Tag, Task, TaskInterval, TaskRequest, Workspace};
use clockify_cli::moment::{Date, TimeOfDay};
use clockify_cli::select::run_single_choice;
use clockify_cli::store::SavedTask;

fn tod(hour: u8, minute: u8) -> TimeOfDay {
    TimeOfDay { hour, minute }
}

fn workspace(id: &str, name: &str) -> Workspace {
    Workspace { id: id.to_string(), name: name.to_string() }
}

fn project(id: &str, name: &str) -> Project {
    Project { id: id.to_string(), name: name.to_string(), duration: "PT1H".to_string() }
}

fn tag(id: &str, name: &str) -> Tag {
    Tag { id: id.to_string(), name: name.to_string() }
}

/// The transport timestamp of a local date and time under the machine's
/// current UTC offset, computed independently through chrono.
fn expected_timestamp(y: i32, mo: u32, d: u32, h: u32, mi: u32) -> String {
    let off = chrono::Local::now().offset().fix();
    let naive = chrono::NaiveDateTime::new(
        chrono::NaiveDate::from_ymd_opt(y, mo, d).unwrap(),
        chrono::NaiveTime::from_hms_opt(h, mi, 0).unwrap(),
    );
    off.from_local_datetime(&naive)
        .unwrap()
        .with_timezone(&chrono::Utc)
        .to_rfc3339_opts(chrono::SecondsFormat::Millis, true)
}

#[test]
fn the_second_workspace_drives_the_whole_flow() {
    let workspaces = vec![workspace("ws-a", "A"), workspace("ws-b", "B")];
    let picked = run_single_choice(workspaces.len(), &vec!["2".to_string()]).unwrap();
    assert_eq!(picked, 1);
    let chosen = workspaces[picked].clone();
    assert_eq!(chosen.name, "B");

    let flow = AddFlow::PickWorkspace;
    let flow = flow.step(AddEvent::WorkspaceChosen(Some(chosen)));
    match &flow {
        AddFlow::PickProject { workspace } => assert_eq!(workspace.id, "ws-b"),
        _ => panic!("expected the project prompt"),
    }
    let flow = flow.step(AddEvent::ProjectChosen(Some(project("proj-1", "docs"))));
    let flow = flow.step(AddEvent::TagsChosen(Some(vec![tag("tag-1", "writing")])));
    let flow = flow.step(AddEvent::DescriptionEntered("report".to_string()));
    let flow = flow.step(AddEvent::StartChosen(Some(tod(9, 0))));
    let flow = flow.step(AddEvent::EndChosen(Some(tod(17, 0))));
    let flow = flow.step(AddEvent::CustomDateAnswered(true));
    let flow = flow.step(AddEvent::DateChosen(Some(Date { year: 2024, month: 3, day: 10 })));
    match &flow {
        AddFlow::Submit { workspace, request, start, end } => {
            assert_eq!(workspace.id, "ws-b");
            assert_eq!(request.description, "report");
            assert_eq!(request.project_id, "proj-1");
            assert!(request.billable);
            assert!(request.task_id.is_none());
            assert_eq!(request.tag_ids, vec!["tag-1".to_string()]);
            assert!(request.custom_fields.is_empty());
            assert_eq!(request.start, expected_timestamp(2024, 3, 10, 9, 0));
            assert_eq!(request.end, expected_timestamp(2024, 3, 10, 17, 0));
            assert_eq!(*start, tod(9, 0));
            assert_eq!(*end, tod(17, 0));
        },
        _ => panic!("expected the submit state"),
    }
    let flow = flow.step(AddEvent::SubmitAnswered(true));
    let flow = flow.step(AddEvent::SaveAnswered(true));
    let flow = flow.step(AddEvent::NameEntered("daily".to_string()));
    match &flow {
        AddFlow::SaveTemplate { template } => {
            assert_eq!(template.name, "daily");
            assert_eq!(template.start, tod(9, 0));
            assert_eq!(template.end, tod(17, 0));
            assert_eq!(template.task.description, "report");
        },
        _ => panic!("expected the template to be handed out for saving"),
    }
    let flow = flow.step(AddEvent::TemplateSaved);
    match flow {
        AddFlow::Done { message } => assert_eq!(message, FlowMessage::Created),
        _ => panic!("expected the flow to finish"),
    }
}

#[test]
fn missing_selections_abort_the_add_flow() {
    match AddFlow::PickWorkspace.step(AddEvent::WorkspaceChosen(None)) {
        AddFlow::Done { message } => assert_eq!(message, FlowMessage::NoWorkspace),
        _ => panic!("expected an abort"),
    }
    let at_project = AddFlow::PickWorkspace.step(AddEvent::WorkspaceChosen(Some(workspace(
        "ws", "W",
    ))));
    match at_project.step(AddEvent::ProjectChosen(None)) {
        AddFlow::Done { message } => assert_eq!(message, FlowMessage::NoProject),
        _ => panic!("expected an abort"),
    }
}

#[test]
fn missing_tags_times_and_dates_abort_the_add_flow() {
    let to_tags = AddFlow::PickWorkspace
        .step(AddEvent::WorkspaceChosen(Some(workspace("ws", "W"))))
        .step(AddEvent::ProjectChosen(Some(project("p", "P"))));
    match to_tags.step(AddEvent::TagsChosen(None)) {
        AddFlow::Done { message } => assert_eq!(message, FlowMessage::NoTags),
        _ => panic!("expected an abort"),
    }
    let to_start = AddFlow::PickWorkspace
        .step(AddEvent::WorkspaceChosen(Some(workspace("ws", "W"))))
        .step(AddEvent::ProjectChosen(Some(project("p", "P"))))
        .step(AddEvent::TagsChosen(Some(vec![])))
        .step(AddEvent::DescriptionEntered("d".to_string()));
    match to_start.step(AddEvent::StartChosen(None)) {
        AddFlow::Done { message } => assert_eq!(message, FlowMessage::NoTime),
        _ => panic!("expected an abort"),
    }
    let to_date = AddFlow::PickWorkspace
        .step(AddEvent::WorkspaceChosen(Some(workspace("ws", "W"))))
        .step(AddEvent::ProjectChosen(Some(project("p", "P"))))
        .step(AddEvent::TagsChosen(Some(vec![])))
        .step(AddEvent::DescriptionEntered("d".to_string()))
        .step(AddEvent::StartChosen(Some(tod(9, 0))))
        .step(AddEvent::EndChosen(Some(tod(10, 0))))
        .step(AddEvent::CustomDateAnswered(true));
    match to_date.step(AddEvent::DateChosen(None)) {
        AddFlow::Done { message } => assert_eq!(message, FlowMessage::BadDate),
        _ => panic!("expected an abort"),
    }
}

#[test]
fn a_workspace_without_entries_ends_the_delete_flow() {
    let flow = DeleteFlow::PickWorkspace
        .step(DeleteEvent::WorkspaceChosen(Some(workspace("ws", "W"))));
    match flow.step(DeleteEvent::TaskChosen(None)) {
        DeleteFlow::Done { message } => assert_eq!(message, FlowMessage::NoTasks),
        _ => panic!("expected an abort"),
    }
}

#[test]
fn a_failed_submission_asks_to_report() {
    let flow = AddFlow::PickWorkspace;
    let flow = flow.step(AddEvent::WorkspaceChosen(Some(workspace("ws", "W"))));
    let flow = flow.step(AddEvent::ProjectChosen(Some(project("p", "P"))));
    let flow = flow.step(AddEvent::TagsChosen(Some(vec![])));
    let flow = flow.step(AddEvent::DescriptionEntered("x".to_string()));
    let flow = flow.step(AddEvent::StartChosen(Some(tod(8, 0))));
    let flow = flow.step(AddEvent::EndChosen(Some(tod(8, 0))));
    let flow = flow.step(AddEvent::CustomDateAnswered(false));
    match &flow {
        AddFlow::Submit { .. } => {},
        _ => panic!("expected the submit state"),
    }
    match flow.step(AddEvent::SubmitAnswered(false)) {
        AddFlow::Done { message } => assert_eq!(message, FlowMessage::CreateFailed),
        _ => panic!("expected a failure report"),
    }
}

fn sample_template() -> SavedTask {
    SavedTask {
        task: TaskRequest {
            start: "old-start".to_string(),
            billable: true,
            description: "stored words".to_string(),
            project_id: "proj-9".to_string(),
            task_id: None,
            end: "old-end".to_string(),
            tag_ids: vec!["tag-4".to_string()],
            custom_fields: vec![],
        },
        name: "tpl".to_string(),
        start: TimeOfDay { hour: 10, minute: 0 },
        end: TimeOfDay { hour: 11, minute: 30 },
    }
}

#[test]
fn the_saved_flow_reuses_the_stored_request() {
    let flow = SavedFlow::start(vec![sample_template()]);
    let flow = flow.step(SavedEvent::TemplateLineRead("1".to_string()));
    match &flow {
        SavedFlow::PickWorkspace { chosen } => assert_eq!(chosen.name, "tpl"),
        _ => panic!("expected the workspace prompt"),
    }
    let flow = flow.step(SavedEvent::WorkspaceChosen(Some(workspace("ws-s", "S"))));
    let flow = flow.step(SavedEvent::DescriptionEntered("new words".to_string()));
    let flow = flow.step(SavedEvent::CustomDateAnswered(true));
    let flow = flow.step(SavedEvent::DateChosen(Some(Date { year: 2024, month: 5, day: 2 })));
    match &flow {
        SavedFlow::Submit { workspace, request } => {
            assert_eq!(workspace.id, "ws-s");
            assert_eq!(request.description, "new words");
            assert_eq!(request.project_id, "proj-9");
            assert_eq!(request.tag_ids, vec!["tag-4".to_string()]);
            assert_eq!(request.start, expected_timestamp(2024, 5, 2, 10, 0));
            assert_eq!(request.end, expected_timestamp(2024, 5, 2, 11, 30));
        },
        _ => panic!("expected the submit state"),
    }
    match flow.step(SavedEvent::SubmitAnswered(true)) {
        SavedFlow::Done { message } => assert_eq!(message, FlowMessage::Created),
        _ => panic!("expected the flow to finish"),
    }
}

#[test]
fn the_saved_flow_rejects_bad_template_choices() {
    match SavedFlow::start(vec![]) {
        SavedFlow::Done { message } => assert_eq!(message, FlowMessage::NoTemplates),
        _ => panic!("expected an abort"),
    }
    match SavedFlow::start(vec![sample_template()]).step(SavedEvent::TemplateLineRead(
        "5".to_string(),
    )) {
        SavedFlow::Done { message } => assert_eq!(message, FlowMessage::BadTemplate),
        _ => panic!("expected an abort"),
    }
    match SavedFlow::start(vec![sample_template()]).step(SavedEvent::TemplateLineRead(
        "abc".to_string(),
    )) {
        SavedFlow::Done { message } => assert_eq!(message, FlowMessage::BadTemplate),
        _ => panic!("expected an abort"),
    }
}

#[test]
fn a_template_with_disordered_times_is_refused() {
    let mut t = sample_template();
    t.start = TimeOfDay { hour: 12, minute: 0 };
    t.end = TimeOfDay { hour: 9, minute: 0 };
    let flow = SavedFlow::start(vec![t]);
    let flow = flow.step(SavedEvent::TemplateLineRead("1".to_string()));
    let flow = flow.step(SavedEvent::WorkspaceChosen(Some(workspace("ws", "W"))));
    let flow = flow.step(SavedEvent::DescriptionEntered("d".to_string()));
    match flow.step(SavedEvent::CustomDateAnswered(false)) {
        SavedFlow::Done { message } => assert_eq!(message, FlowMessage::BadTemplate),
        _ => panic!("expected the template to be refused"),
    }
}

#[test]
fn the_delete_flow_reports_both_outcomes() {
    let task = Task {
        id: "t-1".to_string(),
        description: "old work".to_string(),
        time: TaskInterval {
            start: "s".to_string(),
            end: "e".to_string(),
            duration: "PT1H".to_string(),
        },
    };
    let flow = DeleteFlow::PickWorkspace;
    let flow = flow.step(DeleteEvent::WorkspaceChosen(Some(workspace("ws", "W"))));
    let flow = flow.step(DeleteEvent::TaskChosen(Some(task.clone())));
    match flow.step(DeleteEvent::ResultReceived(true)) {
        DeleteFlow::Done { message } => assert_eq!(message, FlowMessage::Deleted),
        _ => panic!("expected a confirmation"),
    }
    let again = DeleteFlow::PickWorkspace
        .step(DeleteEvent::WorkspaceChosen(Some(workspace("ws", "W"))))
        .step(DeleteEvent::TaskChosen(Some(task)))
        .step(DeleteEvent::ResultReceived(false));
    match again {
        DeleteFlow::Done { message } => assert_eq!(message, FlowMessage::DeleteFailed),
        _ => panic!("expected a failure report"),
    }
}

#[test]
fn listings_render_numbered_lines_with_durations() {
    let tasks = vec![Task {
        id: "t".to_string(),
        description: "Work".to_string(),
        time: TaskInterval {
            start: "s".to_string(),
            end: "e".to_string(),
            duration: "PT1H30M".to_string(),
        },
    }];
    let lines = render_task_lines(&tasks);
    assert_eq!(lines, vec!["[1] Work [1 hours & 30 minutes]".to_string()]);

    let projects = vec![
        project("p1", "Docs"),
        Project {
            id: "p2".to_string(),
            name: "Code".to_string(),
            duration: "PT0S".to_string(),
        },
    ];
    let lines = render_project_lines(&projects);
    assert_eq!(lines[0], "[1] Docs [1 hours]");
    assert_eq!(lines[1], "[2] Code [No time registered]");

    let tags = vec![tag("g1", "writing"), tag("g2", "review")];
    let lines = render_tag_lines(&tags);
    assert_eq!(lines, vec![" [1] writing".to_string(), " [2] review".to_string()]);
}
