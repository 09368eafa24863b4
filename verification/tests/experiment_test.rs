use langfuse::experiment::{
    keep_after, str_lt, BatchedEvaluationConfig, DatasetItem, ExperimentConfig, Pager,
};

fn item(id: &str) -> DatasetItem {
    DatasetItem {
        id: id.to_string(),
        dataset_id: "ds".to_string(),
        input: None,
        expected_output: None,
        metadata: None,
        source_trace_id: None,
        source_observation_id: None,
        status: "ACTIVE".to_string(),
    }
}

fn config(base_url: &str, dataset: &str, name: &str) -> ExperimentConfig {
    ExperimentConfig {
        name: name.to_string(),
        max_concurrency: 1,
        base_url: base_url.to_string(),
        dataset_name: dataset.to_string(),
    }
}

#[test]
fn dataset_run_url_is_built_from_the_config() {
    assert_eq!(
        config("https://cloud.langfuse.com/", "qa", "run-1").dataset_run_url(),
        "https://cloud.langfuse.com/datasets/qa/runs/run-1"
    );
    assert_eq!(config("", "qa", "run-1").dataset_run_url(), "");
    assert_eq!(config("https://x", "", "run-1").dataset_run_url(), "");
}

#[test]
fn experiment_config_default() {
    let c = ExperimentConfig::default();
    assert!(c.name.starts_with("experiment-"));
    assert_eq!(c.name.len(), "experiment-".len() + 15);
    assert_eq!(c.max_concurrency, 10);
    assert!(c.base_url.is_empty());
    assert!(c.dataset_name.is_empty());
}

#[test]
fn batched_evaluation_config_default() {
    let c = BatchedEvaluationConfig::default();
    assert_eq!(c.max_concurrency, 10);
    assert_eq!(c.page_size, 50);
    assert_eq!(c.max_retries, 3);
    assert!(c.start_after.is_none());
    assert!(c.run_name.starts_with("batch-eval-"));
    let ts = &c.run_name["batch-eval-".len()..];
    assert_eq!(ts.len(), 15);
    assert_eq!(ts.as_bytes()[8], b'-');
    assert!(ts.chars().enumerate().all(|(i, ch)| i == 8 || ch.is_ascii_digit()));
    let e = c.experiment_config("https://h", "ds");
    assert_eq!(e.name, c.run_name);
    assert_eq!(e.max_concurrency, 10);
    assert_eq!(e.dataset_run_url(), format!("https://h/datasets/ds/runs/{}", c.run_name));
}

#[test]
fn string_order_is_the_std_order() {
    let words = ["", "a", "ab", "b", "B", "é", "z", "aa", "item-10", "item-9"];
    for x in words {
        for y in words {
            assert_eq!(str_lt(x, y), x < y, "{x:?} < {y:?}");
        }
    }
}

#[test]
fn resume_token_keeps_only_later_items() {
    let items = vec![item("item-3"), item("item-1"), item("item-5"), item("item-2")];
    let kept = keep_after(items, &Some("item-2".to_string()));
    let ids: Vec<&str> = kept.iter().map(|i| i.id.as_str()).collect();
    assert_eq!(ids, vec!["item-3", "item-5"]);
    let all = keep_after(vec![item("a"), item("b")], &None);
    assert_eq!(all.len(), 2);
}

#[test]
fn pager_collects_pages_until_a_short_one() {
    let mut pager: Pager<u32> = Pager::new(2);
    assert_eq!(pager.next_page(), Some(1));
    pager.receive(vec![1, 2]);
    assert_eq!(pager.next_page(), Some(2));
    pager.receive(vec![3, 4]);
    assert_eq!(pager.next_page(), Some(3));
    pager.receive(vec![5]);
    assert_eq!(pager.next_page(), None);
    assert_eq!(pager.into_items(), vec![1, 2, 3, 4, 5]);
}

#[test]
fn pager_stops_on_an_empty_page() {
    let mut pager: Pager<u32> = Pager::new(3);
    assert!(pager.can_advance());
    pager.receive(vec![]);
    assert_eq!(pager.next_page(), None);
    assert!(pager.into_items().is_empty());
}
