use jarvix::parallel::DownloadResult;
use jarvix::storage::{parsed_columns, result_columns, ParsedRecord};

#[test]
fn test_save_results() {
    let results = vec![DownloadResult {
        url: "https://example.com".to_string(),
        success: true,
        content: Some("<html>test</html>".to_string()),
        status_code: Some(200),
        error: None,
        duration_ms: 100,
    }];

    let columns = result_columns(&results);
    assert_eq!(columns.urls, vec!["https://example.com"]);
    assert_eq!(columns.success, vec![true]);
    assert_eq!(columns.contents, vec![Some("<html>test</html>".to_string())]);
    assert_eq!(columns.status_codes, vec![Some(200u64)]);
    assert_eq!(columns.errors, vec![None]);
    assert_eq!(columns.durations, vec![100u64]);
}

#[test]
fn columns_keep_the_order_of_the_rows() {
    let results = vec![
        DownloadResult {
            url: "a".to_string(),
            success: false,
            content: None,
            status_code: Some(404),
            error: Some("HTTP 404".to_string()),
            duration_ms: 1,
        },
        DownloadResult {
            url: "b".to_string(),
            success: false,
            content: None,
            status_code: None,
            error: Some("timed out".to_string()),
            duration_ms: 2,
        },
    ];
    let columns = result_columns(&results);
    assert_eq!(columns.urls, vec!["a", "b"]);
    assert_eq!(columns.status_codes, vec![Some(404u64), None]);
    assert_eq!(columns.errors, vec![Some("HTTP 404".to_string()), Some("timed out".to_string())]);
    assert_eq!(columns.durations, vec![1u64, 2]);
    let empty = result_columns(&vec![]);
    assert!(empty.urls.is_empty());
    assert!(empty.durations.is_empty());
}

#[test]
fn parsed_records_by_column() {
    let data = vec![
        ParsedRecord {
            canonical_id: "id-1".to_string(),
            title: Some("First".to_string()),
            text_length: 1200,
            has_buy_keywords: true,
            quality_score: 87,
        },
        ParsedRecord {
            canonical_id: "id-2".to_string(),
            title: None,
            text_length: 0,
            has_buy_keywords: false,
            quality_score: 0,
        },
    ];
    let columns = parsed_columns(&data);
    assert_eq!(columns.ids, vec!["id-1", "id-2"]);
    assert_eq!(columns.titles, vec![Some("First".to_string()), None]);
    assert_eq!(columns.lengths, vec![1200u64, 0]);
    assert_eq!(columns.buy_keywords, vec![true, false]);
    assert_eq!(columns.quality, vec![87u64, 0]);
}
