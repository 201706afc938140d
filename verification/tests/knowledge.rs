use hightower::knowledge::{EmbeddedKnowledgeRepository, EMBEDDED_DATABASE};
use hightower::ports::{KnownProcess, ProcessKnowledgeRepository};
use hightower::process::ProcessCategory;

fn text_field(entry: &serde_json::Value, key: &str) -> Result<String, String> {
    entry
        .get(key)
        .and_then(|value| value.as_str())
        .map(|text| text.to_string())
        .ok_or_else(|| format!("missing text field {key}"))
}

fn category_of(name: &str) -> Result<ProcessCategory, String> {
    match name {
        "core-windows" => Ok(ProcessCategory::CoreWindows),
        "driver" => Ok(ProcessCategory::Driver),
        "third-party-known" => Ok(ProcessCategory::ThirdPartyKnown),
        "unknown" => Ok(ProcessCategory::Unknown),
        other => Err(format!("unknown category {other}")),
    }
}

/// Decodes the embedded JSON by hand (the front end does it with serde's
/// derives; tests cannot use them).
fn parse_database(text: &str) -> Result<Vec<KnownProcess>, String> {
    let value: serde_json::Value = serde_json::from_str(text).map_err(|error| error.to_string())?;
    let items = value.as_array().ok_or_else(|| "not an array".to_string())?;
    let mut entries = Vec::new();
    for item in items {
        let directories = item
            .get("expectedDirectories")
            .and_then(|value| value.as_array())
            .ok_or_else(|| "missing expectedDirectories".to_string())?;
        let mut expected_directories = Vec::new();
        for directory in directories {
            let text = directory.as_str().ok_or_else(|| "directory is not text".to_string())?;
            expected_directories.push(text.to_string());
        }
        entries.push(KnownProcess {
            process_name: text_field(item, "processName")?,
            expected_directories,
            publisher: text_field(item, "publisher")?,
            category: category_of(&text_field(item, "category")?)?,
            description_en: text_field(item, "descriptionEN")?,
            description_pt: text_field(item, "descriptionPT")?,
        });
    }
    Ok(entries)
}

fn repository() -> EmbeddedKnowledgeRepository {
    EmbeddedKnowledgeRepository::new(parse_database(EMBEDDED_DATABASE))
        .expect("embedded database should parse")
}

#[test]
fn embedded_database_parses_and_is_not_empty() {
    assert!(!repository().entries_list().is_empty());
}

#[test]
fn looks_up_a_known_process() {
    let entry = repository()
        .lookup("svchost.exe")
        .expect("svchost is known");
    assert_eq!(entry.category, ProcessCategory::CoreWindows);
    assert_eq!(entry.publisher, "Microsoft Windows");
    assert!(!entry.description_en.is_empty());
    assert!(!entry.description_pt.is_empty());
}

#[test]
fn lookup_is_case_insensitive() {
    let repository = repository();
    assert!(repository.lookup("SVCHOST.EXE").is_some());
    assert!(repository.lookup("SvcHost.Exe").is_some());
}

#[test]
fn unknown_process_is_none() {
    assert!(repository().lookup("definitely-not-real.exe").is_none());
}

#[test]
fn database_covers_common_core_processes() {
    let repository = repository();
    assert!(
        repository.len() >= 20,
        "the curated database should have grown"
    );
    for name in ["dwm.exe", "conhost.exe", "WmiPrvSE.exe", "taskmgr.exe"] {
        assert!(repository.lookup(name).is_some(), "{name} should be known");
    }
}

#[test]
fn every_entry_is_well_formed() {
    for entry in repository().entries_list() {
        let name = &entry.process_name;
        assert!(!name.trim().is_empty(), "an entry has an empty name");
        assert!(
            !entry.publisher.trim().is_empty(),
            "{name} has no publisher"
        );
        assert!(
            !entry.expected_directories.is_empty(),
            "{name} has no expected directory"
        );
        assert!(
            !entry.description_en.is_empty() && !entry.description_pt.is_empty(),
            "{name} is missing a description"
        );
    }
}

#[test]
fn a_parse_failure_becomes_a_database_error() {
    let result = EmbeddedKnowledgeRepository::new(Err("expected value at line 1".to_string()));
    match result {
        Err(error) => {
            assert!(matches!(
                &error,
                hightower::error::HightowerError::KnowledgeDatabase(detail)
                    if detail == "expected value at line 1"
            ));
            assert_eq!(
                error.message(),
                "could not load the known-process database: expected value at line 1"
            );
        }
        Ok(_) => panic!("a parse failure must not build a repository"),
    }
}

#[test]
fn lookup_returns_the_first_entry_with_a_matching_name() {
    let first = KnownProcess {
        process_name: "Tool.exe".to_string(),
        expected_directories: vec![r"C:\one".to_string()],
        publisher: "One".to_string(),
        category: ProcessCategory::ThirdPartyKnown,
        description_en: "first".to_string(),
        description_pt: "primeiro".to_string(),
    };
    let second = KnownProcess {
        process_name: "tool.exe".to_string(),
        expected_directories: vec![r"C:\two".to_string()],
        publisher: "Two".to_string(),
        category: ProcessCategory::Driver,
        description_en: "second".to_string(),
        description_pt: "segundo".to_string(),
    };
    let repository = EmbeddedKnowledgeRepository::new(Ok(vec![first, second])).unwrap();
    let found = repository.lookup("TOOL.EXE").unwrap();
    assert_eq!(found.publisher, "One");
    assert_eq!(repository.len(), 2);
}
