use loadgen::schema::{migration_statements, runs, statements_in_text};

const SCRIPT: &str = "
-- devices and their readings;CREATE KEYSPACE IF NOT EXISTS fleet
    WITH replication = {'class': 'NetworkTopologyStrategy', 'replication_factor': <RF>};;CREATE TABLE IF NOT EXISTS fleet.readings (
    device uuid,
    at timestamp,
    value double,
    PRIMARY KEY (device, at)
);--drop the old table;CREATE INDEX IF NOT EXISTS ON fleet.readings (value);
";

#[test]
fn placeholder_is_substituted_and_fragments_are_filtered() {
    let statements = migration_statements(SCRIPT, "3");
    assert!(!statements.is_empty());
    for statement in &statements {
        assert!(!statement.contains("<RF>"));
        assert!(!statement.starts_with("--"));
        assert!(statement.len() > 1);
        assert!(statement.ends_with(';'));
        assert!(!statement.contains('\n'));
    }
    assert_eq!(statements.len(), 3);
    assert!(statements[0].contains("'replication_factor': 3}"));
    assert!(statements[1].contains("CREATE TABLE"));
    assert!(statements[2].contains("CREATE INDEX"));
}

#[test]
fn statements_come_out_in_source_order() {
    let statements = migration_statements("a <RF>;\nb;\n\nc <RF> <RF>;\n", "3");
    assert_eq!(statements, vec!["a 3;", " b;", "  c 3 3;"]);
}

#[test]
fn the_script_is_trimmed_and_its_lines_are_joined() {
    let statements = migration_statements("  \n\tCREATE TABLE t (\n  a int\n);  \n", "1");
    assert_eq!(statements, vec!["CREATE TABLE t (   a int );"]);
}

#[test]
fn empty_fragments_and_comments_are_left_out() {
    assert_eq!(migration_statements("", "1"), Vec::<String>::new());
    assert_eq!(migration_statements("   \n ", "1"), Vec::<String>::new());
    assert_eq!(migration_statements(";;;", "1"), Vec::<String>::new());
    assert_eq!(migration_statements("--only a note", "1"), Vec::<String>::new());
    assert_eq!(migration_statements("-- note;a;--b;;c", "1"), vec!["a;", "c;"]);
}

#[test]
fn a_comment_is_told_by_the_start_of_its_fragment() {
    // A marker behind a space does not make a comment, and a comment lasts
    // up to the next `;`.
    assert_eq!(migration_statements("a; -- b;c", "1"), vec!["a;", " -- b;", "c;"]);
    assert_eq!(migration_statements("--x\ny;z", "1"), vec!["z;"]);
    assert_eq!(migration_statements("-a;", "1"), vec!["-a;"]);
}

#[test]
fn a_fragment_of_spaces_is_run() {
    assert_eq!(migration_statements("a; ;b", "1"), vec!["a;", " ;", "b;"]);
}

#[test]
fn the_last_statement_needs_no_terminator() {
    assert_eq!(migration_statements("a;b", "1"), vec!["a;", "b;"]);
    assert_eq!(migration_statements("a;b;", "1"), vec!["a;", "b;"]);
}

#[test]
fn the_replication_factor_is_put_in_as_it_is() {
    assert_eq!(migration_statements("rf=<RF>", "12"), vec!["rf=12;"]);
    assert_eq!(migration_statements("rf=<RF>", ""), vec!["rf=;"]);
    assert_eq!(migration_statements("rf=<RF>", "1;2"), vec!["rf=1;", "2;"]);
    assert_eq!(migration_statements("rf=<rf>", "3"), vec!["rf=<rf>;"]);
    // An empty replication factor can bring a placeholder together.
    assert_eq!(migration_statements("<<RF>RF>", ""), vec!["<RF>;"]);
}

#[test]
fn a_plain_replication_factor_leaves_no_placeholder() {
    for script in ["<RF>", "<<RF>RF>", "<RF><RF>", "<R<RF>F>", "a<RF;b<RF>>", "<RF>;<RF>"] {
        for replication_factor in ["1", "3", "12", "x"] {
            for statement in migration_statements(script, replication_factor) {
                assert!(!statement.contains("<RF>"));
            }
        }
    }
}

#[test]
fn runs_tells_statements_from_comments_and_empty_fragments() {
    assert!(runs("CREATE TABLE t"));
    assert!(runs(" "));
    assert!(runs("-"));
    assert!(runs(" --"));
    assert!(!runs(""));
    assert!(!runs("--"));
    assert!(!runs("-- note"));
}

#[test]
fn a_text_is_cut_as_it_stands() {
    assert_eq!(statements_in_text("a;b", "1"), vec!["a;", "b;"]);
    assert_eq!(statements_in_text(" a <RF>;\nb ", "2"), vec![" a 2;", " b ;"]);
    assert_eq!(statements_in_text("\n", "2"), vec![" ;"]);
    assert_eq!(migration_statements("\n", "2"), Vec::<String>::new());
    assert_eq!(migration_statements(" a <RF>;\nb ", "2"), vec!["a 2;", " b;"]);
}
