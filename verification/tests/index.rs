use ftms::index::{
    build_filter, collect_hits, collect_records, count_outcome, count_statement,
    database_location, insert_params, page_statement,
    integer_at, lookup_outcome, lookup_params, optional_text_at, real_at, row_to_hit,
    row_to_record, search_params, settle, size_from_integer, text_at, text_params, update_params,
    FileIndex, IndexStep, RowError,
};
use ftms::sql::{SqlParam, SqlValue};
use ftms::FileRecord;

fn record(id: &str, filename: &str, uploaded_at: &str) -> FileRecord {
    FileRecord {
        id: id.to_string(),
        filename: filename.to_string(),
        mime_type: "text/plain".to_string(),
        file_path: format!("2024/03/07/{}.txt", id),
        file_size: 12,
        extracted_text: Some("alpha beta".to_string()),
        ai_description: None,
        session_id: None,
        channel: None,
        uploaded_at: uploaded_at.to_string(),
        tags: None,
    }
}

fn row_of(r: &FileRecord) -> Vec<SqlValue> {
    fn opt(t: &Option<String>) -> SqlValue {
        match t {
            Some(t) => SqlValue::Text(t.clone()),
            None => SqlValue::Null,
        }
    }
    vec![
        SqlValue::Text(r.id.clone()),
        SqlValue::Text(r.filename.clone()),
        SqlValue::Text(r.mime_type.clone()),
        SqlValue::Text(r.file_path.clone()),
        SqlValue::Integer(r.file_size as i64),
        opt(&r.extracted_text),
        opt(&r.ai_description),
        opt(&r.session_id),
        opt(&r.channel),
        SqlValue::Text(r.uploaded_at.clone()),
        opt(&r.tags),
    ]
}

fn full_record() -> FileRecord {
    FileRecord {
        id: "id-1".to_string(),
        filename: "report final.pdf".to_string(),
        mime_type: "application/pdf".to_string(),
        file_path: "2024/03/07/id-1.pdf".to_string(),
        file_size: 9_000_000_000,
        extracted_text: Some("quarterly figures".to_string()),
        ai_description: Some("a chart".to_string()),
        session_id: Some("s1".to_string()),
        channel: Some("web".to_string()),
        uploaded_at: "2024-03-07T10:00:00+01:00".to_string(),
        tags: Some("finance, q1".to_string()),
    }
}

#[test]
fn inserted_record_is_read_back_equal() {
    let index = FileIndex::new(":memory:").unwrap();
    let r = full_record();
    index.insert(&r).unwrap();
    assert_eq!(index.get("id-1").unwrap(), Some(r));
    let plain = record("id-2", "notes.txt", "2024-03-07T11:00:00+01:00");
    index.insert(&plain).unwrap();
    assert_eq!(index.get("id-2").unwrap(), Some(plain));
}

#[test]
fn missing_identifier_is_not_found() {
    let index = FileIndex::new(":memory:").unwrap();
    assert_eq!(index.get("nobody").unwrap(), None);
    index.insert(&record("a", "a.txt", "2024-01-01T00:00:00+00:00")).unwrap();
    assert_eq!(index.get("b").unwrap(), None);
    assert_eq!(index.get("").unwrap(), None);
}

#[test]
fn an_identifier_is_inserted_once() {
    let index = FileIndex::new(":memory:").unwrap();
    let r = record("a", "a.txt", "2024-01-01T00:00:00+00:00");
    index.insert(&r).unwrap();
    let again = index.insert(&record("a", "other.txt", "2024-01-02T00:00:00+00:00"));
    assert_eq!(again.unwrap_err().step, IndexStep::Insert);
    assert_eq!(index.get("a").unwrap(), Some(r));
    assert_eq!(index.list(0, 10, None, None).unwrap().total, 1);
}

#[test]
fn a_size_beyond_the_engines_integers_is_refused() {
    let index = FileIndex::new(":memory:").unwrap();
    let mut r = record("big", "big.bin", "2024-01-01T00:00:00+00:00");
    r.file_size = i64::MAX as u64 + 1;
    let refused = index.insert(&r).unwrap_err();
    assert_eq!(refused.step, IndexStep::Insert);
    assert_eq!(refused.message, "the file size is out of range");
    assert_eq!(insert_params(&r), None);
    assert_eq!(index.get("big").unwrap(), None);
    r.file_size = i64::MAX as u64;
    index.insert(&r).unwrap();
    assert_eq!(index.get("big").unwrap(), Some(r));
}

#[test]
fn update_sets_text_and_description_and_nothing_else() {
    let index = FileIndex::new(":memory:").unwrap();
    let r = full_record();
    index.insert(&r).unwrap();
    index.update_content("id-1", Some("new text"), None).unwrap();
    let mut expected = r.clone();
    expected.extracted_text = Some("new text".to_string());
    expected.ai_description = None;
    assert_eq!(index.get("id-1").unwrap(), Some(expected.clone()));
    index.update_content("id-1", None, Some("a caption")).unwrap();
    expected.extracted_text = None;
    expected.ai_description = Some("a caption".to_string());
    assert_eq!(index.get("id-1").unwrap(), Some(expected));
}

#[test]
fn update_of_a_missing_record_changes_nothing() {
    let index = FileIndex::new(":memory:").unwrap();
    let r = record("a", "a.txt", "2024-01-01T00:00:00+00:00");
    index.insert(&r).unwrap();
    index.update_content("zzz", Some("x"), Some("y")).unwrap();
    assert_eq!(index.get("a").unwrap(), Some(r));
    assert_eq!(index.get("zzz").unwrap(), None);
}

#[test]
fn search_finds_a_term_in_each_searchable_field() {
    let index = FileIndex::new(":memory:").unwrap();
    let mut a = record("a", "zebra.txt", "2024-01-01T00:00:00+00:00");
    a.extracted_text = None;
    let mut b = record("b", "b.txt", "2024-01-02T00:00:00+00:00");
    b.extracted_text = Some("the giraffe eats".to_string());
    let mut c = record("c", "c.png", "2024-01-03T00:00:00+00:00");
    c.extracted_text = None;
    c.ai_description = Some("a picture of an okapi".to_string());
    let mut d = record("d", "d.txt", "2024-01-04T00:00:00+00:00");
    d.extracted_text = None;
    d.tags = Some("wildebeest".to_string());
    for r in [&a, &b, &c, &d] {
        index.insert(r).unwrap();
    }
    for (query, expected) in [("zebra", &a), ("giraffe", &b), ("okapi", &c), ("wildebeest", &d)] {
        let hits = index.search(query, 10).unwrap();
        assert_eq!(hits.len(), 1, "{}", query);
        assert_eq!(&hits[0].file, expected);
    }
    assert!(index.search("elephant", 10).unwrap().is_empty());
}

#[test]
fn search_does_not_find_other_fields() {
    let index = FileIndex::new(":memory:").unwrap();
    let mut r = record("a", "a.txt", "2024-01-01T00:00:00+00:00");
    r.session_id = Some("sessionword".to_string());
    r.channel = Some("channelword".to_string());
    r.mime_type = "mimeword".to_string();
    index.insert(&r).unwrap();
    assert!(index.search("sessionword", 10).unwrap().is_empty());
    assert!(index.search("channelword", 10).unwrap().is_empty());
    assert!(index.search("mimeword", 10).unwrap().is_empty());
}

#[test]
fn search_follows_a_content_update() {
    let index = FileIndex::new(":memory:").unwrap();
    let mut r = record("a", "a.bin", "2024-01-01T00:00:00+00:00");
    r.extracted_text = Some("quokka".to_string());
    index.insert(&r).unwrap();
    assert_eq!(index.search("quokka", 10).unwrap().len(), 1);
    index.update_content("a", Some("numbat"), None).unwrap();
    assert!(index.search("quokka", 10).unwrap().is_empty());
    let hits = index.search("numbat", 10).unwrap();
    assert_eq!(hits.len(), 1);
    assert_eq!(hits[0].file.extracted_text, Some("numbat".to_string()));
    index.update_content("a", None, None).unwrap();
    assert!(index.search("numbat", 10).unwrap().is_empty());
}

#[test]
fn search_is_capped_and_ranked() {
    let index = FileIndex::new(":memory:").unwrap();
    for i in 0..5 {
        let mut r = record(&format!("r{}", i), "f.txt", "2024-01-01T00:00:00+00:00");
        r.extracted_text = Some(format!("{} filler words", "lemur ".repeat(i + 1)));
        index.insert(&r).unwrap();
    }
    assert_eq!(index.search("lemur", 10).unwrap().len(), 5);
    assert_eq!(index.search("lemur", 0).unwrap().len(), 0);
    let hits = index.search("lemur", 3).unwrap();
    assert_eq!(hits.len(), 3);
    for pair in hits.windows(2) {
        assert!(f64::from_bits(pair[0].rank_bits) <= f64::from_bits(pair[1].rank_bits));
    }
    for hit in &hits {
        assert!(f64::from_bits(hit.rank_bits) < 0.0);
    }
    assert_eq!(index.search("lemur", usize::MAX).unwrap().len(), 5);
}

#[test]
fn a_malformed_query_is_an_error() {
    let index = FileIndex::new(":memory:").unwrap();
    index.insert(&record("a", "a.txt", "2024-01-01T00:00:00+00:00")).unwrap();
    let failed = index.search("\"unbalanced", 10).unwrap_err();
    assert_eq!(failed.step, IndexStep::Search);
    assert!(!failed.message.is_empty());
    assert_eq!(index.search("AND", 10).unwrap_err().step, IndexStep::Search);
}

#[test]
fn search_speaks_the_engines_query_syntax() {
    let index = FileIndex::new(":memory:").unwrap();
    let mut a = record("a", "a.txt", "2024-01-01T00:00:00+00:00");
    a.extracted_text = Some("red green".to_string());
    let mut b = record("b", "b.txt", "2024-01-02T00:00:00+00:00");
    b.extracted_text = Some("red blue".to_string());
    index.insert(&a).unwrap();
    index.insert(&b).unwrap();
    assert_eq!(index.search("red", 10).unwrap().len(), 2);
    assert_eq!(index.search("red AND green", 10).unwrap().len(), 1);
    assert_eq!(index.search("green OR blue", 10).unwrap().len(), 2);
    assert_eq!(index.search("red NOT blue", 10).unwrap()[0].file.id, "a");
    assert_eq!(index.search("\"red blue\"", 10).unwrap()[0].file.id, "b");
    assert_eq!(index.search("gre*", 10).unwrap()[0].file.id, "a");
}

#[test]
fn list_filters_by_session_and_puts_the_newest_first() {
    let index = FileIndex::new(":memory:").unwrap();
    for (i, session) in [(1, "s1"), (2, "s2"), (3, "s1"), (4, "s1"), (5, "s2"), (6, "s1")] {
        let mut r = record(&format!("r{}", i), "f.txt", &format!("2024-01-0{}T00:00:00+00:00", i));
        r.session_id = Some(session.to_string());
        index.insert(&r).unwrap();
    }
    let page = index.list(0, 10, Some("s1"), None).unwrap();
    assert_eq!(page.total, 4);
    let ids: Vec<&str> = page.files.iter().map(|f| f.id.as_str()).collect();
    assert_eq!(ids, vec!["r6", "r4", "r3", "r1"]);
    assert!(page.files.iter().all(|f| f.session_id.as_deref() == Some("s1")));

    let page = index.list(0, 2, Some("s1"), None).unwrap();
    assert_eq!(page.total, 4);
    assert_eq!(page.limit, 2);
    assert_eq!(page.offset, 0);
    let ids: Vec<&str> = page.files.iter().map(|f| f.id.as_str()).collect();
    assert_eq!(ids, vec!["r6", "r4"]);

    let page = index.list(3, 2, Some("s1"), None).unwrap();
    assert_eq!(page.total, 4);
    assert_eq!(page.offset, 3);
    let ids: Vec<&str> = page.files.iter().map(|f| f.id.as_str()).collect();
    assert_eq!(ids, vec!["r1"]);

    let page = index.list(0, 10, Some("s3"), None).unwrap();
    assert_eq!(page.total, 0);
    assert!(page.files.is_empty());

    let page = index.list(0, 10, None, None).unwrap();
    assert_eq!(page.total, 6);
    let ids: Vec<&str> = page.files.iter().map(|f| f.id.as_str()).collect();
    assert_eq!(ids, vec!["r6", "r5", "r4", "r3", "r2", "r1"]);
}

#[test]
fn list_filters_by_the_prefix_of_the_type() {
    let index = FileIndex::new(":memory:").unwrap();
    for (i, mime, session) in [
        (1, "image/png", "s1"),
        (2, "image/jpeg", "s2"),
        (3, "text/plain", "s1"),
        (4, "IMAGE/png", "s1"),
        (5, "ximage/png", "s1"),
        (6, "imagex", "s1"),
    ] {
        let mut r = record(&format!("r{}", i), "f", &format!("2024-01-0{}T00:00:00+00:00", i));
        r.mime_type = mime.to_string();
        r.session_id = Some(session.to_string());
        index.insert(&r).unwrap();
    }
    let ids = |session: Option<&str>, prefix: Option<&str>| -> (usize, Vec<String>) {
        let page = index.list(0, 10, session, prefix).unwrap();
        (page.total, page.files.iter().map(|f| f.id.clone()).collect())
    };
    assert_eq!(ids(None, Some("image/")), (2, vec!["r2".to_string(), "r1".to_string()]));
    assert_eq!(ids(Some("s1"), Some("image/")), (1, vec!["r1".to_string()]));
    assert_eq!(ids(None, Some("image")), (3, vec!["r6".to_string(), "r2".to_string(), "r1".to_string()]));
    assert_eq!(ids(None, Some("text/plain")), (1, vec!["r3".to_string()]));
    assert_eq!(ids(None, Some("%")), (0, vec![]));
    assert_eq!(ids(None, Some("image_")), (0, vec![]));
    assert_eq!(ids(None, Some("")).0, 6);
    assert_eq!(ids(Some("s2"), Some("text/")), (0, vec![]));
}

#[test]
fn list_pages_do_not_change_the_total() {
    let index = FileIndex::new(":memory:").unwrap();
    for i in 0..15 {
        let r = record(&format!("r{:02}", i), "f.txt", &format!("2024-01-{:02}T00:00:00+00:00", i + 1));
        index.insert(&r).unwrap();
    }
    let page = index.list(0, 10, None, None).unwrap();
    assert_eq!(page.files.len(), 10);
    assert_eq!(page.total, 15);
    assert_eq!(page.files[0].id, "r14");
    let page = index.list(10, 10, None, None).unwrap();
    assert_eq!(page.files.len(), 5);
    assert_eq!(page.total, 15);
    let page = index.list(20, 10, None, None).unwrap();
    assert_eq!(page.files.len(), 0);
    assert_eq!(page.total, 15);
    let page = index.list(0, 0, None, None).unwrap();
    assert_eq!(page.files.len(), 0);
    assert_eq!(page.total, 15);
}

#[test]
fn opening_fails_where_the_file_cannot_be_made() {
    let failed = match FileIndex::new("/nonexistent-directory-of-ftms/sub/ftms.db") {
        Ok(_) => panic!("opened"),
        Err(e) => e,
    };
    assert_eq!(failed.step, IndexStep::Open);
}

#[test]
fn the_database_lies_below_the_workspace() {
    assert_eq!(
        database_location("/work"),
        ("/work/ftms".to_string(), "/work/ftms/ftms.db".to_string())
    );
    assert_eq!(database_location("ws/").1, "ws/ftms/ftms.db");
}

#[test]
fn filter_is_built_from_the_options_that_are_set() {
    assert_eq!(
        build_filter(None, None, 5, 10),
        (String::new(), vec![], vec!["10".to_string(), "5".to_string()])
    );
    assert_eq!(
        build_filter(Some("s1"), None, 0, 20),
        (
            "WHERE session_id = ?".to_string(),
            vec!["s1".to_string()],
            vec!["s1".to_string(), "20".to_string(), "0".to_string()]
        )
    );
    assert_eq!(
        build_filter(None, Some("image/"), 30, 1),
        (
            "WHERE instr(mime_type, ?) = 1".to_string(),
            vec!["image/".to_string()],
            vec!["image/".to_string(), "1".to_string(), "30".to_string()]
        )
    );
    assert_eq!(
        build_filter(Some("a b"), Some("text/"), 7, 3),
        (
            "WHERE session_id = ? AND instr(mime_type, ?) = 1".to_string(),
            vec!["a b".to_string(), "text/".to_string()],
            vec!["a b".to_string(), "text/".to_string(), "3".to_string(), "7".to_string()]
        )
    );
}

#[test]
fn parameters_follow_the_columns() {
    let r = full_record();
    assert_eq!(
        insert_params(&r),
        Some(vec![
            SqlParam::Text("id-1".to_string()),
            SqlParam::Text("report final.pdf".to_string()),
            SqlParam::Text("application/pdf".to_string()),
            SqlParam::Text("2024/03/07/id-1.pdf".to_string()),
            SqlParam::Integer(9_000_000_000),
            SqlParam::Text("quarterly figures".to_string()),
            SqlParam::Text("a chart".to_string()),
            SqlParam::Text("s1".to_string()),
            SqlParam::Text("web".to_string()),
            SqlParam::Text("2024-03-07T10:00:00+01:00".to_string()),
            SqlParam::Text("finance, q1".to_string()),
        ])
    );
    let plain = record("p", "p.txt", "t");
    let params = insert_params(&plain).unwrap();
    assert_eq!(params[6], SqlParam::Null);
    assert_eq!(params[10], SqlParam::Null);
    assert_eq!(
        update_params("id", Some("t"), None),
        vec![SqlParam::Text("t".to_string()), SqlParam::Null, SqlParam::Text("id".to_string())]
    );
    assert_eq!(
        search_params("q", 5),
        vec![SqlParam::Text("q".to_string()), SqlParam::Integer(5)]
    );
    if usize::BITS == 64 {
        assert_eq!(search_params("q", usize::MAX)[1], SqlParam::Integer(i64::MAX));
        assert_eq!(search_params("q", i64::MAX as usize)[1], SqlParam::Integer(i64::MAX));
    }
    assert_eq!(
        text_params(&vec!["a".to_string(), "".to_string()]),
        vec![SqlParam::Text("a".to_string()), SqlParam::Text(String::new())]
    );
}

#[test]
fn a_row_is_read_as_the_record_it_holds() {
    let r = full_record();
    assert_eq!(row_to_record(&row_of(&r)), Ok(r.clone()));
    let plain = record("p", "p.txt", "t");
    assert_eq!(row_to_record(&row_of(&plain)), Ok(plain));
    let mut longer = row_of(&r);
    longer.push(SqlValue::Real(0));
    assert_eq!(row_to_record(&longer), Ok(r));
}

#[test]
fn the_first_unreadable_column_is_reported() {
    let r = full_record();
    for column in 0..11usize {
        let mut row = row_of(&r);
        row[column] = SqlValue::Blob(vec![1, 2, 3]);
        assert_eq!(row_to_record(&row), Err(RowError { column }));
        let mut short = row_of(&r);
        short.truncate(column);
        assert_eq!(row_to_record(&short), Err(RowError { column }));
    }
    let mut row = row_of(&r);
    row[2] = SqlValue::Null;
    row[9] = SqlValue::Integer(3);
    assert_eq!(row_to_record(&row), Err(RowError { column: 2 }));
    let mut row = row_of(&r);
    row[4] = SqlValue::Text("12".to_string());
    assert_eq!(row_to_record(&row), Err(RowError { column: 4 }));
    let mut row = row_of(&r);
    row[5] = SqlValue::Integer(1);
    assert_eq!(row_to_record(&row), Err(RowError { column: 5 }));
}

#[test]
fn columns_are_read_by_their_type() {
    let row = vec![
        SqlValue::Text("t".to_string()),
        SqlValue::Null,
        SqlValue::Integer(-5),
        SqlValue::Real(0x4000_0000_0000_0000),
    ];
    assert_eq!(text_at(&row, 0), Ok("t".to_string()));
    assert_eq!(text_at(&row, 1), Err(RowError { column: 1 }));
    assert_eq!(text_at(&row, 4), Err(RowError { column: 4 }));
    assert_eq!(optional_text_at(&row, 0), Ok(Some("t".to_string())));
    assert_eq!(optional_text_at(&row, 1), Ok(None));
    assert_eq!(optional_text_at(&row, 2), Err(RowError { column: 2 }));
    assert_eq!(integer_at(&row, 2), Ok(-5));
    assert_eq!(integer_at(&row, 3), Err(RowError { column: 3 }));
    assert_eq!(real_at(&row, 3), Ok(0x4000_0000_0000_0000));
    assert_eq!(real_at(&row, 2), Err(RowError { column: 2 }));
}

#[test]
fn a_stored_size_is_read_back() {
    assert_eq!(size_from_integer(0), 0);
    assert_eq!(size_from_integer(50), 50);
    assert_eq!(size_from_integer(i64::MAX), i64::MAX as u64);
    assert_eq!(size_from_integer(-1), u64::MAX);
    assert_eq!(size_from_integer(i64::MIN), 1u64 << 63);
    for i in [-2i64, -1000, 77] {
        assert_eq!(size_from_integer(i), i as u64);
    }
}

#[test]
fn a_search_result_is_a_record_with_a_score() {
    let r = full_record();
    let mut row = row_of(&r);
    assert_eq!(row_to_hit(&row), None);
    row.push(SqlValue::Real((-1.5f64).to_bits()));
    let hit = row_to_hit(&row).unwrap();
    assert_eq!(hit.file, r);
    assert_eq!(f64::from_bits(hit.rank_bits), -1.5);
    row[11] = SqlValue::Integer(1);
    assert_eq!(row_to_hit(&row), None);
    row[11] = SqlValue::Real(0);
    row[0] = SqlValue::Null;
    assert_eq!(row_to_hit(&row), None);
}

#[test]
fn rows_that_hold_no_record_are_dropped() {
    let a = record("a", "a.txt", "1");
    let b = record("b", "b.txt", "2");
    let mut bad = row_of(&a);
    bad[0] = SqlValue::Integer(1);
    let rows = vec![Ok(row_of(&a)), Ok(bad), Ok(vec![]), Ok(row_of(&b))];
    assert_eq!(collect_records(&rows, IndexStep::List), Ok(vec![a.clone(), b.clone()]));
    assert_eq!(collect_records(&vec![], IndexStep::List), Ok(vec![]));
    let mut hit_row = row_of(&b);
    hit_row.push(SqlValue::Real(7));
    let rows = vec![Ok(row_of(&a)), Ok(hit_row)];
    let hits = collect_hits(&rows).unwrap();
    assert_eq!(hits.len(), 1);
    assert_eq!(hits[0].file, b);
    assert_eq!(hits[0].rank_bits, 7);
}

#[test]
fn a_row_that_came_with_an_error_fails_the_answer() {
    let a = record("a", "a.txt", "1");
    let rows = vec![Ok(row_of(&a)), Err(rusqlite::Error::InvalidQuery)];
    let failed = collect_records(&rows, IndexStep::List).unwrap_err();
    assert_eq!(failed.step, IndexStep::List);
    assert_eq!(failed.message, rusqlite::Error::InvalidQuery.to_string());
    let mut hit_row = row_of(&a);
    hit_row.push(SqlValue::Real(7));
    let rows = vec![Err(rusqlite::Error::InvalidQuery), Ok(hit_row)];
    assert_eq!(collect_hits(&rows).unwrap_err().step, IndexStep::Search);
}

#[test]
fn a_count_is_read_from_the_first_row() {
    assert_eq!(count_outcome(&vec![Ok(vec![SqlValue::Integer(15)])]), Ok(15));
    assert_eq!(count_outcome(&vec![Ok(vec![SqlValue::Integer(0)])]), Ok(0));
    assert_eq!(
        count_outcome(&vec![Ok(vec![SqlValue::Integer(3)]), Ok(vec![SqlValue::Integer(4)])]),
        Ok(3)
    );
    let failed = count_outcome(&vec![]).unwrap_err();
    assert_eq!(failed.step, IndexStep::Count);
    assert_eq!(failed.message, "the count query returned no row");
    let failed = count_outcome(&vec![Ok(vec![SqlValue::Integer(-1)])]).unwrap_err();
    assert_eq!(failed.message, "the count is out of range");
    let failed = count_outcome(&vec![Ok(vec![SqlValue::Text("3".to_string())])]).unwrap_err();
    assert_eq!(failed.step, IndexStep::Count);
    assert_eq!(failed.message, "column 0 of the row cannot be read");
    let failed = count_outcome(&vec![Err(rusqlite::Error::InvalidQuery)]).unwrap_err();
    assert_eq!(failed.step, IndexStep::Count);
}

#[test]
fn a_lookup_reads_the_first_row_or_nothing() {
    let a = record("a", "a.txt", "1");
    assert_eq!(lookup_outcome(&vec![]), Ok(None));
    assert_eq!(lookup_outcome(&vec![Ok(row_of(&a))]), Ok(Some(a.clone())));
    assert_eq!(
        lookup_outcome(&vec![Ok(row_of(&a)), Err(rusqlite::Error::InvalidQuery)]),
        Ok(Some(a.clone()))
    );
    let mut bad = row_of(&a);
    bad[9] = SqlValue::Null;
    let failed = lookup_outcome(&vec![Ok(bad)]).unwrap_err();
    assert_eq!(failed.step, IndexStep::Lookup);
    assert_eq!(failed.message, "column 9 of the row cannot be read");
    let failed = lookup_outcome(&vec![Err(rusqlite::Error::InvalidQuery), Ok(row_of(&a))]).unwrap_err();
    assert_eq!(failed.step, IndexStep::Lookup);
}

#[test]
fn a_limit_beyond_the_engines_integers_is_the_engines_to_judge() {
    let index = FileIndex::new(":memory:").unwrap();
    index.insert(&record("a", "a.txt", "2024-01-01T00:00:00+00:00")).unwrap();
    let page = index.list(0, i64::MAX as usize, None, None).unwrap();
    assert_eq!(page.total, 1);
    assert_eq!(page.files.len(), 1);
    if usize::BITS == 64 {
        let failed = index.list(0, usize::MAX, None, None).unwrap_err();
        assert_eq!(failed.step, IndexStep::List);
    }
}

#[test]
fn a_step_comes_to_the_engines_answer_or_to_its_failure() {
    assert_eq!(settle(IndexStep::Update, Ok(3usize)), Ok(3));
    assert_eq!(settle(IndexStep::Open, Ok("answer")), Ok("answer"));
    let failed = settle::<usize>(IndexStep::Update, Err(rusqlite::Error::InvalidQuery)).unwrap_err();
    assert_eq!(failed.step, IndexStep::Update);
    assert_eq!(failed.message, rusqlite::Error::InvalidQuery.to_string());
    let failed = settle::<()>(IndexStep::Schema, Err(rusqlite::Error::QueryReturnedNoRows));
    assert_eq!(failed.unwrap_err().step, IndexStep::Schema);
}

#[test]
fn a_record_is_looked_up_by_its_identifier() {
    assert_eq!(lookup_params("id-1"), vec![SqlParam::Text("id-1".to_string())]);
    assert_eq!(lookup_params(""), vec![SqlParam::Text(String::new())]);
}

#[test]
fn the_statements_of_a_listing_are_put_together_whole() {
    assert_eq!(count_statement(""), "SELECT COUNT(*) FROM ftms_files ");
    assert_eq!(
        count_statement("WHERE session_id = ?"),
        "SELECT COUNT(*) FROM ftms_files WHERE session_id = ?"
    );
    assert_eq!(
        page_statement(""),
        "SELECT id, filename, mime_type, file_path, file_size, extracted_text, ai_description, \
         session_id, channel, uploaded_at, tags FROM ftms_files  \
         ORDER BY uploaded_at DESC LIMIT ? OFFSET ?"
    );
    let sql = page_statement("WHERE instr(mime_type, ?) = 1");
    assert!(sql.ends_with(
        "FROM ftms_files WHERE instr(mime_type, ?) = 1 ORDER BY uploaded_at DESC LIMIT ? OFFSET ?"
    ));
}
