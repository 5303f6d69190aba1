use rustle::lance_index::{
    serde_to_rustle_error, top_n_ids_row_id, top_n_row_id, DistanceType, LanceDbVectorIndex,
    QueryStep, SerustlehParams, SerustlehType,
};
use rustle::vector_store::VectorStoreError;

fn steps(params: SerustlehParams) -> Vec<QueryStep> {
    let index = LanceDbVectorIndex::new((), (), "id", params).unwrap();
    index.build_query()
}

fn describe(steps: &[QueryStep]) -> Vec<String> {
    steps.iter().map(|s| format!("{:?}", s)).collect()
}

#[test]
fn default_params_apply_nothing() {
    assert!(steps(SerustlehParams::default()).is_empty());
}

#[test]
fn approximate_search_settings() {
    let params = SerustlehParams::default()
        .distance_type(DistanceType::Cosine)
        .serustleh_type(SerustlehType::Approximate)
        .nprobes(20)
        .refine_factor(5)
        .post_filter(true)
        .column("vec");
    assert_eq!(
        describe(&steps(params)),
        vec![
            "DistanceType(Cosine)",
            "Nprobes(20)",
            "RefineFactor(5)",
            "Postfilter",
            "Column(\"vec\")",
        ]
    );
}

#[test]
fn flat_search_ignores_ann_settings() {
    let params = SerustlehParams::default()
        .serustleh_type(SerustlehType::Flat)
        .nprobes(20)
        .refine_factor(5);
    assert_eq!(describe(&steps(params)), vec!["BypassVectorIndex"]);
}

#[test]
fn ann_settings_without_search_type_do_nothing() {
    let params = SerustlehParams::default().nprobes(3).refine_factor(2).post_filter(false);
    assert!(steps(params).is_empty());
}

#[test]
fn later_setting_wins() {
    let params = SerustlehParams::default()
        .distance_type(DistanceType::L2)
        .distance_type(DistanceType::Dot)
        .serustleh_type(SerustlehType::Flat)
        .serustleh_type(SerustlehType::Approximate)
        .nprobes(1);
    assert_eq!(describe(&steps(params)), vec!["DistanceType(Dot)", "Nprobes(1)"]);
}

#[test]
fn index_fields() {
    let index =
        LanceDbVectorIndex::new("table", 7u8, "doc_id", SerustlehParams::default()).unwrap();
    assert_eq!(*index.table(), "table");
    assert_eq!(*index.model(), 7u8);
    assert_eq!(index.id_field(), "doc_id");
}

#[test]
fn top_n_ids_of_rows() {
    assert_eq!(top_n_row_id(Some("doc-3".to_string()), 0), "doc-3");
    assert_eq!(top_n_row_id(None, 0), "unknown0");
    assert_eq!(top_n_row_id(None, 7), "unknown7");
    assert_eq!(top_n_row_id(None, 1024), "unknown1024");
    assert_ne!(top_n_row_id(None, 1), top_n_row_id(None, 10));
}

#[test]
fn top_n_ids_only_rows() {
    assert_eq!(top_n_ids_row_id(Some("a".to_string())), "a");
    assert_eq!(top_n_ids_row_id(None), "");
}

#[test]
fn json_error_conversion() {
    let e = serde_json::from_str::<serde_json::Value>("{").unwrap_err();
    let text = e.to_string();
    match serde_to_rustle_error(e) {
        VectorStoreError::JsonError(inner) => assert_eq!(inner.to_string(), text),
        other => panic!("unexpected {:?}", other),
    }
}

fn row(distance: f64, id: Option<&str>, record: &str) -> rustle::lance_index::ScoredRow<f64, u32> {
    rustle::lance_index::ScoredRow {
        distance,
        id: id.map(|s| s.to_string()),
        record: serde_json::from_str::<u32>(record),
    }
}

#[test]
fn top_n_results_in_order() {
    let out = rustle::lance_index::top_n_results(vec![
        row(0.5, Some("a"), "10"),
        row(0.75, None, "20"),
        row(1.0, Some("c"), "30"),
    ])
    .unwrap();
    assert_eq!(
        out,
        vec![
            (0.5, "a".to_string(), 10),
            (0.75, "unknown1".to_string(), 20),
            (1.0, "c".to_string(), 30),
        ]
    );
}

#[test]
fn top_n_results_first_error() {
    let res = rustle::lance_index::top_n_results(vec![
        row(0.5, Some("a"), "10"),
        row(0.75, None, "\"text\""),
        row(1.0, Some("c"), "[1"),
    ]);
    match res {
        Err(VectorStoreError::JsonError(e)) => assert!(e.to_string().contains("invalid type")),
        other => panic!("unexpected {:?}", other),
    }
    let empty = rustle::lance_index::top_n_results::<f64, u32>(vec![]).unwrap();
    assert!(empty.is_empty());
}

#[test]
fn top_n_ids_results_in_order() {
    let out = rustle::lance_index::top_n_ids_results(vec![
        (0.25, Some("x".to_string())),
        (0.5, None),
    ]);
    assert_eq!(out, vec![(0.25, "x".to_string()), (0.5, String::new())]);
}
