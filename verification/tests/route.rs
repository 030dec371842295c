use notes_api::route::{CorsPolicy, FeatureSet, Method, Operation};

#[test]
fn the_methods_have_their_upper_case_names() {
    assert_eq!(Method::Get.as_str(), "GET");
    assert_eq!(Method::Post.as_str(), "POST");
    assert_eq!(Method::Patch.as_str(), "PATCH");
    assert_eq!(Method::Delete.as_str(), "DELETE");
}

#[test]
fn the_route_table_binds_each_operation_to_a_method_and_a_path() {
    let table: Vec<(Method, &str)> = [
        Operation::HealthCheck,
        Operation::ListNotes,
        Operation::CreateNote,
        Operation::GetNote,
        Operation::EditNote,
        Operation::DeleteNote,
    ]
    .into_iter()
    .map(|operation| (operation.method(), operation.path()))
    .collect();
    assert_eq!(
        table,
        vec![
            (Method::Get, "/api/healthcheck"),
            (Method::Get, "/api/notes/"),
            (Method::Post, "/api/notes/"),
            (Method::Get, "/api/notes/{id}"),
            (Method::Patch, "/api/notes/{id}"),
            (Method::Delete, "/api/notes/{id}"),
        ]
    );
}

#[test]
fn no_two_operations_share_a_method_and_a_path() {
    let table = FeatureSet::Full.operations();
    for (i, one) in table.iter().enumerate() {
        for other in &table[i + 1..] {
            assert!(one.method() != other.method() || one.path() != other.path());
        }
    }
}

#[test]
fn the_full_server_serves_every_operation() {
    assert_eq!(
        FeatureSet::Full.operations(),
        vec![
            Operation::HealthCheck,
            Operation::ListNotes,
            Operation::CreateNote,
            Operation::GetNote,
            Operation::EditNote,
            Operation::DeleteNote,
        ]
    );
}

#[test]
fn the_minimal_server_serves_the_health_check_alone() {
    assert_eq!(FeatureSet::Minimal.operations(), vec![Operation::HealthCheck]);
    assert_eq!(FeatureSet::Minimal.cross_origin(), None);
}

#[test]
fn the_cross_origin_policy_allows_get_and_post_from_anywhere() {
    assert_eq!(
        FeatureSet::Full.cross_origin(),
        Some(CorsPolicy {
            any_origin: true,
            methods: vec![Method::Get, Method::Post],
            headers: vec!["content-type"],
        })
    );
}
