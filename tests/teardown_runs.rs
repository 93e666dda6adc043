use avalancheup::gate::{CONFIRM_OPTION, DECLINE_OPTION};
use avalancheup::teardown::{DeletionPlan, ResourceClass, TeardownError, TeardownRun};

fn all_enabled(skip_confirmation: bool) -> DeletionPlan {
    DeletionPlan {
        delete_storage_objects: true,
        delete_storage_bucket: true,
        delete_log_group: true,
        delete_static_ips: true,
        delete_volumes: true,
        delete_stack: true,
        skip_confirmation,
    }
}

fn ids(v: [Option<&str>; 6]) -> Vec<Option<String>> {
    v.iter().map(|o| o.map(|s| s.to_string())).collect()
}

#[test]
fn deletion_order_is_fixed_with_stack_last() {
    let recorded = ids([Some("b"), Some("b"), Some("lg"), Some("eip"), Some("vol"), Some("stack")]);
    let run = TeardownRun::start(&all_enabled(true), &recorded, DECLINE_OPTION);
    assert_eq!(
        run.targets,
        vec![
            ResourceClass::StorageObjects,
            ResourceClass::StorageBucket,
            ResourceClass::LogGroup,
            ResourceClass::StaticIps,
            ResourceClass::Volumes,
            ResourceClass::Stack,
        ]
    );
}

#[test]
fn class_without_identifier_is_a_no_op() {
    let plan = DeletionPlan {
        delete_storage_objects: false,
        delete_storage_bucket: false,
        delete_log_group: true,
        delete_static_ips: false,
        delete_volumes: false,
        delete_stack: false,
        skip_confirmation: true,
    };
    let recorded = ids([Some("b"), Some("b"), Some(""), None, None, Some("s")]);
    let run = TeardownRun::start(&plan, &recorded, DECLINE_OPTION);
    assert!(run.targets.is_empty());
    assert_eq!(run.next_delete(), None);
    assert_eq!(run.report(), Ok(()));
}

#[test]
fn failure_in_the_middle_does_not_stop_the_run() {
    let plan = DeletionPlan {
        delete_storage_objects: false,
        delete_storage_bucket: true,
        delete_log_group: true,
        delete_static_ips: false,
        delete_volumes: false,
        delete_stack: true,
        skip_confirmation: true,
    };
    let recorded = ids([Some("b"), Some("b"), Some("lg"), None, None, Some("s")]);
    let mut run = TeardownRun::start(&plan, &recorded, DECLINE_OPTION);
    assert_eq!(run.next_delete(), Some(ResourceClass::StorageBucket));
    run.record(true);
    assert_eq!(run.next_delete(), Some(ResourceClass::LogGroup));
    run.record(false);
    assert_eq!(run.next_delete(), Some(ResourceClass::Stack));
    run.record(true);
    assert_eq!(run.next_delete(), None);
    assert_eq!(
        run.report(),
        Err(vec![TeardownError::PartialDeletion(ResourceClass::LogGroup)])
    );
    let mut after = recorded.clone();
    run.clear_provenance(&mut after);
    assert_eq!(after, recorded);
}

#[test]
fn declined_teardown_deletes_nothing() {
    let recorded = ids([Some("b"), Some("b"), Some("lg"), Some("e"), Some("v"), Some("s")]);
    let run = TeardownRun::start(&all_enabled(false), &recorded, DECLINE_OPTION);
    assert_eq!(run.next_delete(), None);
    let confirmed = TeardownRun::start(&all_enabled(false), &recorded, CONFIRM_OPTION);
    assert_eq!(confirmed.next_delete(), Some(ResourceClass::StorageObjects));
}

#[test]
fn full_success_clears_deleted_identifiers() {
    let plan = DeletionPlan {
        delete_storage_objects: true,
        delete_storage_bucket: false,
        delete_log_group: false,
        delete_static_ips: false,
        delete_volumes: true,
        delete_stack: true,
        skip_confirmation: true,
    };
    let recorded = ids([Some("b"), Some("b"), Some("lg"), None, Some("v"), Some("s")]);
    let mut run = TeardownRun::start(&plan, &recorded, DECLINE_OPTION);
    while run.next_delete().is_some() {
        run.record(true);
    }
    assert_eq!(run.report(), Ok(()));
    let mut after = recorded.clone();
    run.clear_provenance(&mut after);
    assert_eq!(after, ids([None, Some("b"), Some("lg"), None, None, None]));
}
