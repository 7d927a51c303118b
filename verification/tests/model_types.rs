use clockify_cli::model::{Tag, TaskRequest};

#[test]
fn tags_are_equal_by_identifier_and_name() {
    let a = Tag { id: "t-1".to_string(), name: "writing".to_string() };
    let b = Tag { id: "t-1".to_string(), name: "writing".to_string() };
    let c = Tag { id: "t-1".to_string(), name: "review".to_string() };
    let d = Tag { id: "t-2".to_string(), name: "writing".to_string() };
    assert!(a == b);
    assert!(a != c);
    assert!(a != d);
}

#[test]
fn cloning_a_request_keeps_every_field() {
    let r = TaskRequest {
        start: "2024-03-10T08:00:00.000Z".to_string(),
        billable: true,
        description: "notes".to_string(),
        project_id: "p-1".to_string(),
        task_id: Some("t-9".to_string()),
        end: "2024-03-10T09:00:00.000Z".to_string(),
        tag_ids: vec!["a".to_string(), "b".to_string()],
        custom_fields: vec![],
    };
    let c = r.clone();
    assert_eq!(c.start, r.start);
    assert_eq!(c.billable, r.billable);
    assert_eq!(c.description, r.description);
    assert_eq!(c.project_id, r.project_id);
    assert_eq!(c.task_id, r.task_id);
    assert_eq!(c.end, r.end);
    assert_eq!(c.tag_ids, r.tag_ids);
    assert_eq!(c.custom_fields, r.custom_fields);
}
