use echo_core::database::{
    has_more, page_of, page_request, plan_search, HistoryPage, SearchPlan, TranscriptionEntry,
    DEFAULT_PAGE_SIZE, FULL_TEXT_MIN_CHARS,
};
use rusqlite::Connection;

const SCHEMA: &str = "
CREATE TABLE transcriptions (
    id INTEGER PRIMARY KEY AUTOINCREMENT,
    created_at TEXT NOT NULL DEFAULT (datetime('now', 'localtime')),
    duration_ms INTEGER,
    text TEXT NOT NULL,
    raw_text TEXT,
    language TEXT,
    model_name TEXT,
    segments_json TEXT
);
CREATE VIRTUAL TABLE transcriptions_fts
    USING fts5(text, content=transcriptions, content_rowid=id, tokenize='trigram');
CREATE TRIGGER transcriptions_ai AFTER INSERT ON transcriptions BEGIN
    INSERT INTO transcriptions_fts(rowid, text) VALUES (new.id, new.text);
END;
CREATE TRIGGER transcriptions_ad AFTER DELETE ON transcriptions BEGIN
    INSERT INTO transcriptions_fts(transcriptions_fts, rowid, text)
        VALUES('delete', old.id, old.text);
END;
";

const COLUMNS: &str = "id, created_at, duration_ms, text, raw_text, language, model_name, segments_json";

/// A store in memory that asks the library how to search and how to page.
struct Store {
    conn: Connection,
}

impl Store {
    fn insert(&self, entry: &TranscriptionEntry) -> rusqlite::Result<i64> {
        self.conn.execute(
            "INSERT INTO transcriptions (duration_ms, text, raw_text, language, model_name, segments_json)
             VALUES (?1, ?2, ?3, ?4, ?5, ?6)",
            (
                entry.duration_ms.map(|ms| ms as i64),
                &entry.text,
                &entry.raw_text,
                &entry.language,
                &entry.model_name,
                &entry.segments_json,
            ),
        )?;
        Ok(self.conn.last_insert_rowid())
    }

    fn select(&self, sql: &str, args: &[&dyn rusqlite::ToSql]) -> rusqlite::Result<Vec<TranscriptionEntry>> {
        let mut stmt = self.conn.prepare(sql)?;
        let rows = stmt.query_map(args, |row| {
            let duration: Option<i64> = row.get(2)?;
            Ok(TranscriptionEntry {
                id: row.get(0)?,
                created_at: row.get(1)?,
                duration_ms: duration.map(|ms| ms as u64),
                text: row.get(3)?,
                raw_text: row.get(4)?,
                language: row.get(5)?,
                model_name: row.get(6)?,
                segments_json: row.get(7)?,
            })
        })?;
        rows.collect()
    }

    fn count(&self) -> rusqlite::Result<u32> {
        self.conn.query_row("SELECT COUNT(*) FROM transcriptions", [], |row| row.get(0))
    }

    fn get_all(&self, limit: u32, offset: u32) -> rusqlite::Result<HistoryPage> {
        let total = self.count()?;
        let sql = format!(
            "SELECT {} FROM transcriptions ORDER BY created_at DESC, id DESC LIMIT ?1 OFFSET ?2",
            COLUMNS
        );
        Ok(page_of(self.select(&sql, &[&limit, &offset])?, limit, offset, total))
    }

    fn search(&self, query: &str, limit: u32, offset: u32) -> rusqlite::Result<HistoryPage> {
        match plan_search(query) {
            SearchPlan::FullText(q) => {
                let total: u32 = self.conn.query_row(
                    "SELECT COUNT(*) FROM transcriptions_fts WHERE text MATCH ?1",
                    (&q,),
                    |row| row.get(0),
                )?;
                let entries = self.select(
                    "SELECT t.id, t.created_at, t.duration_ms, t.text, t.raw_text, t.language, t.model_name, t.segments_json
                     FROM transcriptions t JOIN transcriptions_fts fts ON t.id = fts.rowid
                     WHERE fts.text MATCH ?1 ORDER BY t.created_at DESC LIMIT ?2 OFFSET ?3",
                    &[&q, &limit, &offset],
                )?;
                Ok(page_of(entries, limit, offset, total))
            }
            SearchPlan::Substring(pattern) => {
                let total: u32 = self.conn.query_row(
                    "SELECT COUNT(*) FROM transcriptions WHERE text LIKE ?1",
                    (&pattern,),
                    |row| row.get(0),
                )?;
                let sql = format!(
                    "SELECT {} FROM transcriptions WHERE text LIKE ?1 ORDER BY created_at DESC LIMIT ?2 OFFSET ?3",
                    COLUMNS
                );
                Ok(page_of(self.select(&sql, &[&pattern, &limit, &offset])?, limit, offset, total))
            }
        }
    }

    fn delete(&self, id: i64) -> rusqlite::Result<bool> {
        Ok(self.conn.execute("DELETE FROM transcriptions WHERE id = ?1", (id,))? > 0)
    }

    fn delete_all(&self) -> rusqlite::Result<u32> {
        Ok(self.conn.execute("DELETE FROM transcriptions", [])? as u32)
    }
}

fn temp_db() -> Store {
    let conn = Connection::open_in_memory().unwrap();
    conn.execute_batch(SCHEMA).unwrap();
    Store { conn }
}

fn sample_entry(text: &str) -> TranscriptionEntry {
    TranscriptionEntry {
        id: None,
        created_at: String::new(),
        duration_ms: Some(2500),
        text: text.to_string(),
        raw_text: None,
        language: Some("Japanese".to_string()),
        model_name: Some("mlx-community/Qwen3-ASR-0.6B-8bit".to_string()),
        segments_json: None,
    }
}

#[test]
fn test_insert_and_get() {
    let db = temp_db();

    let id = db.insert(&sample_entry("テスト書き起こし")).unwrap();
    assert!(id > 0);

    let page = db.get_all(10, 0).unwrap();
    assert_eq!(page.total_count, 1);
    assert_eq!(page.entries.len(), 1);
    assert_eq!(page.entries[0].text, "テスト書き起こし");
    assert_eq!(page.entries[0].id, Some(id));
    assert!(!page.entries[0].created_at.is_empty());
}

#[test]
fn entry_comes_back_as_it_went_in() {
    let db = temp_db();
    let mut entry = sample_entry("  spaces stay  ");
    entry.duration_ms = Some(1536);
    entry.language = None;
    entry.segments_json = Some(r#"[{"start":0,"end":1.5,"text":"x"}]"#.to_string());
    db.insert(&entry).unwrap();
    let page = db.get_all(10, 0).unwrap();
    let read = &page.entries[0];
    assert_eq!(read.text, entry.text);
    assert_eq!(read.duration_ms, entry.duration_ms);
    assert_eq!(read.language, entry.language);
    assert_eq!(read.model_name, entry.model_name);
    assert_eq!(read.segments_json, entry.segments_json);
}

#[test]
fn test_pagination() {
    let db = temp_db();

    for i in 0..5 {
        db.insert(&sample_entry(&format!("Entry {}", i))).unwrap();
    }

    let page1 = db.get_all(2, 0).unwrap();
    assert_eq!(page1.total_count, 5);
    assert_eq!(page1.entries.len(), 2);
    assert!(page1.has_more);

    let page2 = db.get_all(2, 2).unwrap();
    assert_eq!(page2.entries.len(), 2);
    assert!(page2.has_more);

    let page3 = db.get_all(2, 4).unwrap();
    assert_eq!(page3.entries.len(), 1);
    assert!(!page3.has_more);
}

#[test]
fn test_fts5_search() {
    let db = temp_db();

    db.insert(&sample_entry("今日は天気がいいですね")).unwrap();
    db.insert(&sample_entry("明日の会議は10時からです")).unwrap();
    db.insert(&sample_entry("天気予報によると雨です")).unwrap();

    // 3+ chars: uses FTS5 trigram
    let page = db.search("天気予報", 10, 0).unwrap();
    assert_eq!(page.total_count, 1);

    // 2 chars: falls back to LIKE
    let page = db.search("天気", 10, 0).unwrap();
    assert_eq!(page.total_count, 2);
    assert_eq!(page.entries.len(), 2);

    // English substring (3+ chars via FTS5 trigram)
    db.insert(&sample_entry("hello world")).unwrap();
    let page = db.search("hello", 10, 0).unwrap();
    assert_eq!(page.total_count, 1);
}

#[test]
fn test_delete() {
    let db = temp_db();

    let id = db.insert(&sample_entry("削除テスト")).unwrap();
    assert_eq!(db.count().unwrap(), 1);

    assert!(db.delete(id).unwrap());
    assert_eq!(db.count().unwrap(), 0);

    assert!(!db.delete(id).unwrap());
}

#[test]
fn test_delete_all() {
    let db = temp_db();

    for i in 0..3 {
        db.insert(&sample_entry(&format!("Entry {}", i))).unwrap();
    }

    let deleted = db.delete_all().unwrap();
    assert_eq!(deleted, 3);
    assert_eq!(db.count().unwrap(), 0);
}

#[test]
fn test_fts5_sync_on_delete() {
    let db = temp_db();

    let id = db.insert(&sample_entry("検索用テキスト")).unwrap();

    // 3+ chars uses FTS5 trigram
    let page = db.search("検索用", 10, 0).unwrap();
    assert_eq!(page.total_count, 1);

    db.delete(id).unwrap();

    let page = db.search("検索用", 10, 0).unwrap();
    assert_eq!(page.total_count, 0);

    // Also verify LIKE fallback works after delete
    let id2 = db.insert(&sample_entry("テスト文字列")).unwrap();
    let page = db.search("テス", 10, 0).unwrap();
    assert_eq!(page.total_count, 1);
    db.delete(id2).unwrap();
    let page = db.search("テス", 10, 0).unwrap();
    assert_eq!(page.total_count, 0);
}

#[test]
fn short_queries_fall_back_to_substring_search() {
    assert_eq!(FULL_TEXT_MIN_CHARS, 3);
    assert!(matches!(plan_search("天気"), SearchPlan::Substring(p) if p == "%天気%"));
    assert!(matches!(plan_search("天気予"), SearchPlan::FullText(q) if q == "天気予"));
    assert!(matches!(plan_search("ab"), SearchPlan::Substring(p) if p == "%ab%"));
    assert!(matches!(plan_search("abc"), SearchPlan::FullText(q) if q == "abc"));
    assert!(matches!(plan_search(""), SearchPlan::Substring(p) if p == "%%"));
    assert!(matches!(plan_search("hello world"), SearchPlan::FullText(q) if q == "hello world"));
}

#[test]
fn pages_know_whether_more_follows() {
    assert!(has_more(2, 0, 5));
    assert!(has_more(2, 2, 5));
    assert!(!has_more(2, 4, 5));
    assert!(!has_more(10, 0, 1));
    assert!(!has_more(0, 0, 0));
    assert!(!has_more(u32::MAX, u32::MAX, u32::MAX));
    let page = page_of(vec![sample_entry("a"), sample_entry("b")], 2, 0, 5);
    assert_eq!(page.entries.len(), 2);
    assert_eq!(page.entries[1].text, "b");
    assert_eq!(page.total_count, 5);
    assert!(page.has_more);
    assert_eq!(page_request(None, None), (DEFAULT_PAGE_SIZE, 0));
    assert_eq!(page_request(Some(5), Some(10)), (5, 10));
    assert_eq!(DEFAULT_PAGE_SIZE, 20);
}
