use rayspace::date::Date;
use rayspace::post::{render_post, PostError, UpdatePost};
use rayspace::principal::Principal;
use rayspace::update::{prepare_update, PostWrite, UpdatePlan, UpdateRun};

fn admin() -> Principal {
    Principal::Administrator { user_id: "1".to_string(), display_name: "ray".to_string() }
}

fn update(title: Option<&str>, content: Option<&str>, date: Option<Date>) -> UpdatePost {
    UpdatePost { title: title.map(|s| s.to_string()), content: content.map(|s| s.to_string()), published_date: date }
}

#[test]
fn update_needs_administrator() {
    let r = prepare_update(&Principal::Anonymous, 1, update(Some("t"), None, None));
    assert_eq!(r, Err(PostError::Authorization));
}

#[test]
fn update_rejects_blank_fields() {
    assert_eq!(prepare_update(&admin(), 1, update(Some(" "), None, None)), Err(PostError::Validation));
    assert_eq!(prepare_update(&admin(), 1, update(None, Some(""), None)), Err(PostError::Validation));
}

#[test]
fn update_rejects_nonexistent_date() {
    let bad = Date { year: 2023, month: 2, day: 29 };
    assert_eq!(prepare_update(&admin(), 1, update(Some("t"), None, Some(bad))), Err(PostError::Validation));
}

#[test]
fn update_writes_in_order() {
    let d = Date::new(2024, 3, 1).unwrap();
    let plan = prepare_update(&admin(), 4, update(Some("New"), Some("Body"), Some(d))).unwrap();
    assert!(!plan.needs_stored_title());
    let w = plan.writes(None).unwrap();
    assert_eq!(
        w,
        vec![
            PostWrite::SetTitle { id: 4, title: "New".to_string() },
            PostWrite::SetDate { id: 4, published_date: d },
            PostWrite::WriteBlob { id: 4, content: render_post("New", "Body") },
        ]
    );
}

#[test]
fn body_alone_uses_stored_title() {
    let plan = prepare_update(&admin(), 4, update(None, Some("Body"), None)).unwrap();
    assert!(plan.needs_stored_title());
    assert_eq!(
        plan.writes(Some("Old".to_string())),
        Ok(vec![PostWrite::WriteBlob { id: 4, content: render_post("Old", "Body") }])
    );
}

#[test]
fn unreadable_stored_title_fails_before_writing() {
    let d = Date::new(2024, 3, 1).unwrap();
    let plan = prepare_update(&admin(), 4, update(None, Some("Body"), Some(d))).unwrap();
    assert!(plan.needs_stored_title());
    assert_eq!(plan.writes(None), Err(PostError::StoreFailure));
}

#[test]
fn empty_update_writes_nothing() {
    let plan = prepare_update(&admin(), 4, update(None, None, None)).unwrap();
    assert_eq!(plan, UpdatePlan { id: 4, title: None, body: None, published_date: None });
    let run = UpdateRun::new(plan.writes(None).unwrap());
    assert!(run.next_write().is_none());
    assert_eq!(run.outcome(), Some(Ok(())));
}

#[test]
fn failed_write_aborts_the_rest() {
    let d = Date::new(2024, 3, 1).unwrap();
    let plan = prepare_update(&admin(), 4, update(Some("New"), Some("Body"), Some(d))).unwrap();
    let mut run = UpdateRun::new(plan.writes(None).unwrap());
    assert_eq!(run.outcome(), None);
    assert_eq!(run.next_write(), Some(&PostWrite::SetTitle { id: 4, title: "New".to_string() }));
    run.record(true);
    assert_eq!(run.next_write(), Some(&PostWrite::SetDate { id: 4, published_date: d }));
    run.record(false);
    assert!(run.next_write().is_none());
    assert_eq!(run.outcome(), Some(Err(PostError::StoreFailure)));
}

#[test]
fn all_writes_applied_is_success() {
    let plan = prepare_update(&admin(), 4, update(Some("New"), None, None)).unwrap();
    let mut run = UpdateRun::new(plan.writes(None).unwrap());
    run.record(true);
    assert!(run.next_write().is_none());
    assert_eq!(run.outcome(), Some(Ok(())));
}
