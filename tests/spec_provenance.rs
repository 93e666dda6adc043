use avalancheup::apply::{ApplyAction, ApplyEvent, PollStatus, Reconciler};
use avalancheup::spec_store::Provenance;
use avalancheup::teardown::{DeletionPlan, TeardownRun};

#[test]
fn provenance_slots_follow_group_and_class_order() {
    let mut p = Provenance::empty();
    p.bucket_name = Some("bucket".to_string());
    p.validators_stack_id = Some("stack-1".to_string());
    assert_eq!(p.group_ids(), vec![None, None, Some("stack-1".to_string()), None]);
    assert_eq!(
        p.class_ids(),
        vec![
            Some("bucket".to_string()),
            Some("bucket".to_string()),
            None,
            None,
            None,
            Some("stack-1".to_string()),
        ]
    );
}

#[test]
fn apply_results_are_written_back_and_second_run_is_done() {
    let mut p = Provenance::empty();
    let mut r = Reconciler::new(p.group_ids(), p.request_handles(), 3);
    let mut a = r.step(ApplyEvent::Begin);
    let mut creates = 0;
    while a != ApplyAction::Done {
        a = match a {
            ApplyAction::Create(_) => {
                creates += 1;
                r.step(ApplyEvent::CreateAnswered(Some(format!("op{}", creates))))
            }
            ApplyAction::Poll(_) => r.step(ApplyEvent::Polled(PollStatus::Succeeded(format!("id{}", creates)))),
            ApplyAction::Persist => {
                p.set_group_ids(&r.ids);
                p.set_request_handles(&r.handles);
                r.step(ApplyEvent::Persisted)
            }
            other => panic!("unexpected action {:?}", other),
        };
    }
    assert_eq!(creates, 4);
    assert_eq!(p.signing_key_arns, Some("id1".to_string()));
    assert_eq!(p.telemetry_stack_id, Some("id4".to_string()));
    assert_eq!(p.request_handles(), vec![None, None, None, None]);
    let mut again = Reconciler::new(p.group_ids(), p.request_handles(), 3);
    assert_eq!(again.step(ApplyEvent::Begin), ApplyAction::Done);
}

#[test]
fn teardown_clears_deleted_classes_but_keeps_bucket_for_objects() {
    let mut p = Provenance::empty();
    p.bucket_name = Some("bucket".to_string());
    p.log_group_name = Some("logs".to_string());
    p.network_stack_id = Some("net".to_string());
    let plan = DeletionPlan {
        delete_storage_objects: true,
        delete_storage_bucket: false,
        delete_log_group: true,
        delete_static_ips: true,
        delete_volumes: true,
        delete_stack: true,
        skip_confirmation: true,
    };
    let mut ids = p.class_ids();
    let mut run = TeardownRun::start(&plan, &ids, 0);
    while run.next_delete().is_some() {
        run.record(true);
    }
    run.clear_provenance(&mut ids);
    p.set_class_ids(&ids);
    assert_eq!(p.bucket_name, Some("bucket".to_string()));
    assert_eq!(p.log_group_name, None);
    assert_eq!(p.network_stack_id, Some("net".to_string()));
}
