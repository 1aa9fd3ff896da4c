use wdqsbe::app_state::AppState;
use wdqsbe::app_state_mysql_stdout::AppStateStdoutMySQL;
use wdqsbe::database_table::DatabaseTable;
use wdqsbe::database_wrapper::DatabaseWrapper;
use wdqsbe::date_time::DateTime;
use wdqsbe::db_operation_cache::{render_insert, DbOperationCache, DbOperationCacheValue};
use wdqsbe::element::Element;
use wdqsbe::element_type::ElementType;
use wdqsbe::error::WDQSErr;
use wdqsbe::lat_lon::LatLon;
use wdqsbe::parser::parse_line;
use wdqsbe::query_triples::{QueryTriples, RowValue, SqlVariable};
use wdqsbe::text_id::TextId;
use wdqsbe::type_part::TypePart;

fn prefixes() -> Vec<(String, String)> {
    vec![
        ("wd".to_string(), "http://www.wikidata.org/entity/".to_string()),
        ("wdt".to_string(), "http://www.wikidata.org/prop/direct/".to_string()),
    ]
}

fn placeholders(values: &[DbOperationCacheValue]) -> Vec<String> {
    values.iter().map(|v| v.as_sql_placeholder()).collect()
}

#[test]
fn test_replace_prefix() {
    let app = AppState::new(prefixes(), 100, 100);
    assert_eq!(app.replace_prefix("wd:Q12345"), "http://www.wikidata.org/entity/Q12345");
    assert_eq!(app.replace_prefix("  wd  :  Q12345 "), "http://www.wikidata.org/entity/Q12345");
    assert_eq!(app.replace_prefix("wdt:P123"), "http://www.wikidata.org/prop/direct/P123");
    assert_eq!(app.replace_prefix("foo:bar"), "foo:bar");
    assert_eq!(app.replace_prefix("foo bar"), "foo bar");
}

#[test]
fn prefix_is_compared_in_lower_case() {
    let app = AppState::new(prefixes(), 100, 100);
    assert_eq!(app.replace_prefix("WD:Q1"), "http://www.wikidata.org/entity/Q1");
}

#[test]
fn single_triple_ingest() {
    let line = "<http://www.wikidata.org/entity/Q42> <http://www.wikidata.org/prop/direct/P31> <http://www.wikidata.org/entity/Q5> .";
    let (s, p, o) = parse_line(line).unwrap();
    let table = DatabaseTable::new(&s, &p, &o);
    assert_eq!(table.name, "data__PropertyDirect_P31__EntityItem__EntityItem");
    let mut values = s.values();
    values.append(&mut o.values());
    assert_eq!(placeholders(&values), vec!["42", "5"]);
    let mut cache = DbOperationCache::new();
    assert!(!cache.add(&s, &o, &table, values, 100).unwrap());
    assert_eq!(
        cache.command,
        "INSERT IGNORE INTO `data__PropertyDirect_P31__EntityItem__EntityItem` (`k0`,`v0`) VALUES "
    );
    let (sql, binds) = render_insert(&cache.command, &cache.values);
    assert_eq!(
        sql,
        "INSERT IGNORE INTO `data__PropertyDirect_P31__EntityItem__EntityItem` (`k0`,`v0`) VALUES (42,5)"
    );
    assert!(binds.is_empty());
}

#[test]
fn language_literal() {
    let line = "<http://www.wikidata.org/entity/Q42> <http://www.w3.org/2000/01/rdf-schema#label> \"Douglas Adams\"@en .";
    let (s, p, o) = parse_line(line).unwrap();
    let table = DatabaseTable::new(&s, &p, &o);
    assert_eq!(table.name, "data__RdfSchemaLabel__EntityItem__TextInLanguage");
    assert_eq!(table.key_layout(), &vec![TypePart::U32]);
    assert_eq!(table.value_layout(), &vec![TypePart::Int, TypePart::Int]);
    let mut values = s.values();
    values.append(&mut o.values());
    let mut cache = DbOperationCache::new();
    cache.add(&s, &o, &table, values, 100).unwrap();
    let plan = cache.flush_plan(100);
    assert_eq!(plan.texts.len(), 1);
    assert_eq!(plan.texts[0].0, "INSERT IGNORE INTO `texts` (`value`) VALUES (?),(?)");
    assert_eq!(plan.texts[0].1, vec!["Douglas Adams".to_string(), "en".to_string()]);
    assert_eq!(plan.inserts.len(), 1);
    assert_eq!(
        plan.inserts[0].0,
        "INSERT IGNORE INTO `data__RdfSchemaLabel__EntityItem__TextInLanguage` (`k0`,`v0`,`v1`) VALUES (42,(SELECT `id` FROM `texts` WHERE `value`=?),(SELECT `id` FROM `texts` WHERE `value`=?))"
    );
    assert_eq!(plan.inserts[0].1, vec!["Douglas Adams".to_string(), "en".to_string()]);
}

#[test]
fn geo_literal() {
    let line = "<http://www.wikidata.org/entity/Q84> <http://www.wikidata.org/prop/direct/P625> \"Point(-0.12 51.5)\"^^<http://www.opengis.net/ont/geosparql#wktLiteral> .";
    let (_s, _p, o) = parse_line(line).unwrap();
    assert_eq!(o.name(), "LatLon");
    assert_eq!(o.get_type_parts(), vec![TypePart::Point, TypePart::U32]);
    assert_eq!(placeholders(&o.values()), vec!["PointFromText(\"Point(-0.12 51.5)\")", "2"]);
}

fn ingest(app: &mut AppState, wrapper: &mut DatabaseWrapper, line: &str) {
    let (s, p, o) = parse_line(line).unwrap();
    wrapper.add(app, s, &p, o).unwrap();
}

#[test]
fn two_pattern_query() {
    let mut app = AppState::new(prefixes(), 100, 100);
    let mut wrapper = DatabaseWrapper::new();
    ingest(&mut app, &mut wrapper, "<http://www.wikidata.org/entity/Q42> <http://www.wikidata.org/prop/direct/P31> <http://www.wikidata.org/entity/Q5> .");
    ingest(&mut app, &mut wrapper, "<http://www.wikidata.org/entity/Q7259> <http://www.wikidata.org/prop/direct/P31> <http://www.wikidata.org/entity/Q5> .");
    ingest(&mut app, &mut wrapper, "<http://www.wikidata.org/entity/Q7259> <http://www.wikidata.org/prop/direct/P21> <http://www.wikidata.org/entity/Q6581072> .");
    assert_eq!(app.tables().len(), 2);
    let mut qt1 = QueryTriples::from_str(&app, "?p", "wdt:P31", "wd:Q5").unwrap();
    let qt2 = QueryTriples::from_str(&app, "?p", "wdt:P21", "wd:Q6581072").unwrap();
    assert_eq!(qt1.result.len(), 1);
    assert_eq!(qt1.result[0].0, "EntityItem__PropertyDirect__EntityItem");
    assert_eq!(
        qt1.result[0].1.sql,
        "SELECT k0 AS `p` FROM `data__PropertyDirect_P31__EntityItem__EntityItem` WHERE `v0`=?"
    );
    assert_eq!(qt1.result[0].1.values, vec!["5".to_string()]);
    qt1.and(&qt2).unwrap();
    assert_eq!(qt1.result.len(), 1);
    let part = &qt1.result[0].1;
    assert_eq!(
        part.sql,
        "SELECT t1.p FROM (SELECT k0 AS `p` FROM `data__PropertyDirect_P31__EntityItem__EntityItem` WHERE `v0`=?) AS t1\nINNER JOIN (SELECT k0 AS `p` FROM `data__PropertyDirect_P21__EntityItem__EntityItem` WHERE `v0`=?) AS t2\nON t1.p=t2.p"
    );
    assert_eq!(part.values, vec!["5".to_string(), "6581072".to_string()]);
    assert_eq!(part.variables.len(), 1);
    assert_eq!(part.variables[0].name(), "p");
    let decoded = part.variables[0].sql_value2string(&RowValue::UInt(7259));
    assert_eq!(decoded, Some("http://www.wikidata.org/entity/Q7259".to_string()));
    assert_eq!(part.variables[0].sql_value2string(&RowValue::Null), None);
}

#[test]
fn join_without_common_variable_fails() {
    let mut app = AppState::new(prefixes(), 100, 100);
    let mut wrapper = DatabaseWrapper::new();
    ingest(&mut app, &mut wrapper, "<http://www.wikidata.org/entity/Q42> <http://www.wikidata.org/prop/direct/P31> <http://www.wikidata.org/entity/Q5> .");
    let mut a = QueryTriples::from_str(&app, "?p", "wdt:P31", "wd:Q5").unwrap();
    let b = QueryTriples::from_str(&app, "?q", "wdt:P31", "wd:Q5").unwrap();
    assert!(a.and(&b).is_err());
}

#[test]
fn variable_predicate_is_refused() {
    let app = AppState::new(prefixes(), 100, 100);
    assert!(QueryTriples::from_str(&app, "?s", "?p", "wd:Q5").is_err());
}

#[test]
fn stdout_backend_sql() {
    let line = "<http://www.wikidata.org/entity/Q42> <http://www.w3.org/2000/01/rdf-schema#label> \"Douglas Adams\"@en .";
    let (s, p, o) = parse_line(line).unwrap();
    let table = DatabaseTable::new(&s, &p, &o);
    let mut values = s.values();
    values.append(&mut o.values());
    let mut cache = DbOperationCache::new();
    cache.add(&s, &o, &table, values, 100).unwrap();
    let backend = AppStateStdoutMySQL::new();
    let texts = cache.interned_texts();
    assert_eq!(
        backend.prepare_text(&texts),
        "INSERT IGNORE INTO `texts` (`value`) VALUES (\"Douglas Adams\"),(\"en\")"
    );
    assert_eq!(
        backend.force_flush(&cache.command, &cache.values),
        "INSERT IGNORE INTO `data__RdfSchemaLabel__EntityItem__TextInLanguage` (`k0`,`v0`,`v1`) VALUES (42,(SELECT `id` FROM `texts` WHERE `value`=\"Douglas Adams\"),(SELECT `id` FROM `texts` WHERE `value`=\"en\"))"
    );
    let ddl = backend.add_to_table_list(&table, "{\"name\":\"x\"}");
    assert_eq!(ddl.len(), 2);
    assert!(ddl[0].starts_with("CREATE TABLE IF NOT EXISTS `data__RdfSchemaLabel__EntityItem__TextInLanguage` ("));
    assert!(ddl[1].ends_with("\",\"{\\\"name\\\":\\\"x\\\"}\")"));
}

#[test]
fn sql_escape_doubles_backslash_and_quote() {
    assert_eq!(AppStateStdoutMySQL::sql_escape("a\"b\\c"), "a\\\"b\\\\c");
}

#[test]
fn long_table_name_still_works() {
    let line = "<http://www.wikidata.org/entity/statement/Q42-0dd0e4cd-4bf9-4ae3-a1a4-7e0c4f4f1f1f> <http://www.wikidata.org/prop/statement/value-normalized/P2048> <http://www.wikidata.org/value/0123456789abcdef0123456789abcdef> .";
    let (s, p, o) = parse_line(line).unwrap();
    let table = DatabaseTable::new(&s, &p, &o);
    assert_eq!(table.name, "data__PropStatementValueNorm_P2048__StatementEntityItem__Value");
    let line2 = "<http://www.wikidata.org/entity/L1-F2> <http://www.wikidata.org/prop/qualifier/value-normalized/P1234567890123> <http://www.wikidata.org/entity/L1-S2> .";
    let (s2, p2, o2) = parse_line(line2).unwrap();
    let t2 = DatabaseTable::new(&s2, &p2, &o2);
    assert!(t2.name.len() > 64);
    let ddl = t2.create_statement();
    assert!(ddl.starts_with(&format!("CREATE TABLE IF NOT EXISTS `{}` (", t2.name)));
}

#[test]
fn negative_year_parses() {
    let d = DateTime::from_str("-0500-01-02T03:04:05Z").unwrap();
    assert_eq!(d.to_string(), "-500-01-02T03:04:05Z");
    assert_eq!(placeholders(&d.values()), vec!["-500", "1", "2", "3", "4", "5"]);
    assert!(DateTime::from_str("+2001-12-31T00:00:00Z").is_some());
    assert!(DateTime::from_str("2001-12-31").is_none());
}

#[test]
fn globe_defaults_to_earth() {
    let l = LatLon::from_str("Point(1.5 -2)").unwrap();
    assert_eq!(l.to_string(), "Point(1.5 -2) on http://www.wikidata.org/entity/Q2");
    let m = LatLon::from_str("<http://www.wikidata.org/entity/Q405> Point(336 73)").unwrap();
    assert_eq!(m.to_string(), "Point(336 73) on http://www.wikidata.org/entity/Q405");
    assert!(LatLon::from_str("Point(1.2.3 4)").is_none());
}

#[test]
fn parse_errors() {
    assert!(matches!(parse_line("garbage"), Err(WDQSErr::ParserError(_))));
    let url_predicate = "<http://www.wikidata.org/entity/Q42> <http://example.org/p> <http://www.wikidata.org/entity/Q5> .";
    assert!(matches!(parse_line(url_predicate), Err(WDQSErr::ParserError(_))));
}

#[test]
fn schema_error_on_row_width() {
    let (s, p, o) = parse_line("<http://www.wikidata.org/entity/Q42> <http://www.wikidata.org/prop/direct/P31> <http://www.wikidata.org/entity/Q5> .").unwrap();
    let table = DatabaseTable::new(&s, &p, &o);
    let mut cache = DbOperationCache::new();
    let r = cache.add(&s, &o, &table, vec![DbOperationCacheValue::U32(1)], 100);
    assert!(matches!(r, Err(WDQSErr::Schema(_))));
    let r = cache.add(&s, &o, &table, vec![], 100);
    assert!(matches!(r, Err(WDQSErr::String(_))));
}

#[test]
fn percent_decoding_of_text() {
    assert_eq!(TextId::from_str_lossy("a%20b").to_string(), "a b");
    assert_eq!(TextId::from_str_lossy("plain").to_string(), "plain");
}

#[test]
fn escaped_quote_in_literal() {
    let line = "<http://www.wikidata.org/entity/Q1> <http://www.w3.org/2004/02/skos/core#altLabel> \"say \\\"hi\\\"\"@en .";
    let (_s, p, o) = parse_line(line).unwrap();
    assert_eq!(p.name(), "W3SkosCoreAltLabel");
    assert_eq!(o.name(), "TextInLanguage");
    assert_eq!(o.values()[0].to_string(), "say \"hi\"");
}

#[test]
fn typed_numbers() {
    let (_s, _p, o) = parse_line("<http://www.wikidata.org/entity/Q1> <http://www.wikidata.org/prop/direct/P1082> \"+0012.50\"^^<http://www.w3.org/2001/XMLSchema#decimal> .").unwrap();
    assert_eq!(placeholders(&o.values()), vec!["12.5"]);
    let (_s, _p, o) = parse_line("<http://www.wikidata.org/entity/Q1> <http://www.wikidata.org/prop/direct/P1082> \"-42\"^^<http://www.w3.org/2001/XMLSchema#integer> .").unwrap();
    assert_eq!(placeholders(&o.values()), vec!["-42"]);
    assert!(parse_line("<http://www.wikidata.org/entity/Q1> <http://www.wikidata.org/prop/direct/P1082> \"x\"^^<http://www.w3.org/2001/XMLSchema#integer> .").is_err());
}

#[test]
fn entity_keys() {
    let e = Element::from_str("http://www.wikidata.org/entity/L7-F2").unwrap();
    assert_eq!(e.name(), "EntityLexemeF");
    assert_eq!(e.to_string(), Some("http://www.wikidata.org/entity/L7-F2".to_string()));
    let e = Element::from_str("http://www.wikidata.org/prop/P31").unwrap();
    assert_eq!(e.get_table_name(), "Property_P31");
    let e = Element::from_str("https://en.wikipedia.org/wiki/Douglas_Adams").unwrap();
    assert_eq!(e.name(), "WikiPage");
    let bad = Element::from_str("http://www.wikidata.org/reference/xyz").unwrap();
    assert_eq!(bad.name(), "Url");
    assert_eq!(bad.to_string(), None);
    assert!(Element::from_sql_values("EntityItem", &vec!["42".to_string()]).to_string().unwrap().ends_with("/Q42"));
}

#[test]
fn batch_threshold_takes_rows_out() {
    let mut app = AppState::new(prefixes(), 2, 100);
    let mut wrapper = DatabaseWrapper::new();
    let (s, p, o) = parse_line("<http://www.wikidata.org/entity/Q1> <http://www.wikidata.org/prop/direct/P31> <http://www.wikidata.org/entity/Q5> .").unwrap();
    let first = wrapper.add(&mut app, s, &p, o).unwrap();
    assert!(first.new_table);
    assert!(first.flush.is_none());
    let (s, p, o) = parse_line("<http://www.wikidata.org/entity/Q2> <http://www.wikidata.org/prop/direct/P31> <http://www.wikidata.org/entity/Q5> .").unwrap();
    let second = wrapper.add(&mut app, s, &p, o).unwrap();
    assert!(!second.new_table);
    assert_eq!(second.flush.unwrap().values.len(), 2);
    assert!(wrapper.flush_insert_caches().iter().all(|(_, c)| c.values.is_empty()));
}

#[test]
fn registry_reload_round_trip() {
    let mut app = AppState::new(prefixes(), 100, 100);
    let mut wrapper = DatabaseWrapper::new();
    ingest(&mut app, &mut wrapper, "<http://www.wikidata.org/entity/Q42> <http://www.wikidata.org/prop/direct/P31> <http://www.wikidata.org/entity/Q5> .");
    ingest(&mut app, &mut wrapper, "<http://www.wikidata.org/entity/Q42> <http://www.w3.org/2000/01/rdf-schema#label> \"Douglas Adams\"@en .");
    let mut fresh = AppState::new(prefixes(), 100, 100);
    fresh.init_tables(app.table_list());
    assert_eq!(fresh.tables().len(), 2);
    for t in app.tables() {
        let r = fresh.get_table(t.table_name()).unwrap();
        assert_eq!(r.create_statement(), t.create_statement());
    }
}

#[test]
fn first_error_wins() {
    let results = vec![Some(Ok(())), None, Some(Err(WDQSErr::String("one".to_string()))), Some(Err(WDQSErr::String("two".to_string())))];
    match DatabaseWrapper::first_err(&results, true) {
        Err(e) => assert_eq!(e.message(), "one"),
        Ok(()) => panic!("expected an error"),
    }
    assert!(DatabaseWrapper::first_err(&results, false).is_ok());
    assert!(DatabaseWrapper::first_err(&vec![Some(Ok(()))], true).is_ok());
}

#[test]
fn column_types_ddl() {
    assert_eq!(TypePart::Blank.create_sql(), None);
    assert_eq!(TypePart::UUID40.create_sql(), Some("BINARY(20)"));
    let v = SqlVariable::new("x".to_string(), Some("Text".to_string()));
    assert_eq!(v.sql_value2string(&RowValue::Text("hello".to_string())), None);
}

#[test]
fn ingested_triple_is_found_by_its_own_pattern() {
    let mut app = AppState::new(prefixes(), 100, 100);
    let mut wrapper = DatabaseWrapper::new();
    ingest(&mut app, &mut wrapper, "<http://www.wikidata.org/entity/Q42> <http://www.wikidata.org/prop/direct/P31> <http://www.wikidata.org/entity/Q5> .");
    let q = QueryTriples::from_str(&app, "wd:Q42", "wdt:P31", "wd:Q5").unwrap();
    assert_eq!(q.result.len(), 1);
    assert_eq!(
        q.result[0].1.sql,
        "SELECT 1 FROM `data__PropertyDirect_P31__EntityItem__EntityItem` WHERE (`k0`=?) AND (`v0`=?)"
    );
    assert_eq!(q.result[0].1.values, vec!["42".to_string(), "5".to_string()]);
}

#[test]
fn layout_and_values_agree() {
    let lines = [
        "<http://www.wikidata.org/entity/Q42> <http://www.wikidata.org/prop/direct/P31> <http://www.wikidata.org/entity/Q5> .",
        "<http://www.wikidata.org/entity/Q42> <http://www.w3.org/2000/01/rdf-schema#label> \"Douglas Adams\"@en .",
        "<http://www.wikidata.org/entity/Q1> <http://www.wikidata.org/prop/direct/P585> \"-0500-01-01T00:00:00Z\"^^<http://www.w3.org/2001/XMLSchema#dateTime> .",
        "<http://www.wikidata.org/entity/L1-F2> <http://www.wikidata.org/prop/direct/P625> \"Point(1 2)\"^^<http://www.opengis.net/ont/geosparql#wktLiteral> .",
        "<http://www.wikidata.org/entity/statement/Q42-0dd0e4cd-4bf9-4ae3-a1a4-7e0c4f4f1f1f> <http://www.wikidata.org/prop/statement/value-normalized/P2048> <http://www.wikidata.org/value/0123456789abcdef0123456789abcdef> .",
    ];
    for line in lines {
        let (s, p, o) = parse_line(line).unwrap();
        for e in [&s, &p, &o] {
            let non_blank = e.get_type_parts().iter().filter(|t| **t != TypePart::Blank).count();
            assert_eq!(non_blank, e.values().len(), "{}", e.name());
        }
    }
}

#[test]
fn entity_iris_read_back() {
    for iri in [
        "http://www.wikidata.org/entity/Q42",
        "http://www.wikidata.org/entity/P31",
        "http://www.wikidata.org/entity/L7",
        "http://www.wikidata.org/entity/L7-F2",
        "http://www.wikidata.org/entity/L7-S3",
    ] {
        let e = Element::from_str(iri).unwrap();
        assert_eq!(e.to_string(), Some(iri.to_string()));
    }
    let role = Element::from_str("http://www.wikidata.org/prop/qualifier/value/P580").unwrap();
    assert_eq!(role.name(), "PropQualValue");
    assert_eq!(role.get_table_name(), "PropQualValue_P580");
    let fixed = Element::from_str("http://www.w3.org/ns/lemon/ontolex#representation").unwrap();
    assert_eq!(fixed.name(), "W3OntolexRepresentation");
    assert!(fixed.values().is_empty());
}

#[test]
fn every_interned_text_is_stored_first() {
    let line1 = "<http://www.wikidata.org/entity/Q42> <http://www.w3.org/2000/01/rdf-schema#label> \"Douglas Adams\"@en .";
    let line2 = "<http://www.wikidata.org/entity/Q5> <http://www.w3.org/2000/01/rdf-schema#label> \"human\"@en .";
    let mut cache = DbOperationCache::new();
    for line in [line1, line2] {
        let (s, p, o) = parse_line(line).unwrap();
        let table = DatabaseTable::new(&s, &p, &o);
        let mut values = s.values();
        values.append(&mut o.values());
        cache.add(&s, &o, &table, values, 100).unwrap();
    }
    let plan = cache.flush_plan(1);
    let stored: Vec<&String> = plan.texts.iter().flat_map(|(_, b)| b.iter()).collect();
    assert_eq!(stored.len(), 3);
    for t in ["Douglas Adams", "human", "en"] {
        assert!(stored.iter().any(|s| s.as_str() == t));
    }
    assert_eq!(plan.inserts.len(), 2);
}

#[test]
fn distinct_shapes_get_distinct_tables() {
    let p = Element::from_str("http://www.wikidata.org/prop/direct/P1").unwrap();
    let o = Element::from_str("http://www.wikidata.org/entity/Q5").unwrap();
    let entity_prop = Element::from_str("http://www.wikidata.org/entity/P31").unwrap();
    let prop = Element::from_str("http://www.wikidata.org/prop/P31").unwrap();
    let a = DatabaseTable::new(&entity_prop, &p, &o);
    let b = DatabaseTable::new(&prop, &p, &o);
    assert_ne!(a.name, b.name);
    assert_eq!(a.name, "data__PropertyDirect_P1__EntityProp__EntityItem");
    assert_eq!(b.name, "data__PropertyDirect_P1__Property__EntityItem");
    let item_statement = Element::from_str("http://www.wikidata.org/entity/statement/Q42-0dd0e4cd-4bf9-4ae3-a1a4-7e0c4f4f1f1f").unwrap();
    let prop_statement = Element::from_str("http://www.wikidata.org/entity/statement/P42-0dd0e4cd-4bf9-4ae3-a1a4-7e0c4f4f1f1f").unwrap();
    assert_eq!(item_statement.name(), "StatementEntityItem");
    assert_eq!(prop_statement.name(), "StatementEntityProp");
    assert_ne!(DatabaseTable::new(&item_statement, &p, &o).name, DatabaseTable::new(&prop_statement, &p, &o).name);
    let as_predicate = Element::from_str("http://www.wikidata.org/entity/P31").unwrap();
    assert_eq!(as_predicate.get_table_name(), "EntityProp_P31");
}

#[test]
fn every_row_width_is_checked() {
    let (s, p, o) = parse_line("<http://www.wikidata.org/entity/Q42> <http://www.wikidata.org/prop/direct/P31> <http://www.wikidata.org/entity/Q5> .").unwrap();
    let table = DatabaseTable::new(&s, &p, &o);
    let mut cache = DbOperationCache::new();
    cache.add(&s, &o, &table, vec![DbOperationCacheValue::U32(42), DbOperationCacheValue::U32(5)], 100).unwrap();
    assert_eq!(cache.width, 2);
    let r = cache.add(&s, &o, &table, vec![DbOperationCacheValue::U32(1)], 100);
    assert!(matches!(r, Err(WDQSErr::Schema(_))));
    assert_eq!(cache.values.len(), 1);
}

#[test]
fn registered_definition_wins() {
    let mut app = AppState::new(prefixes(), 100, 100);
    let (s, p, o) = parse_line("<http://www.wikidata.org/entity/Q42> <http://www.wikidata.org/prop/direct/P31> <http://www.wikidata.org/entity/Q5> .").unwrap();
    let (first, new_first) = app.table(&s, &p, &o);
    assert!(new_first);
    let (second, new_second) = app.table(&s, &p, &o);
    assert!(!new_second);
    assert_eq!(first.create_statement(), second.create_statement());
    assert_eq!(app.tables().len(), 1);
}

#[test]
fn restored_rows_stay_pending() {
    let mut app = AppState::new(prefixes(), 1, 100);
    let mut wrapper = DatabaseWrapper::new();
    let (s, p, o) = parse_line("<http://www.wikidata.org/entity/Q1> <http://www.wikidata.org/prop/direct/P31> <http://www.wikidata.org/entity/Q5> .").unwrap();
    let ingested = wrapper.add(&mut app, s, &p, o).unwrap();
    let name = ingested.table.table_name().to_string();
    let cache = ingested.flush.unwrap();
    wrapper.restore(&name, cache);
    let left = wrapper.flush_insert_caches();
    assert_eq!(left.len(), 1);
    assert_eq!(left[0].1.values.len(), 1);
}

#[test]
fn integer_literal_round_trip() {
    for i in [0i64, -42, 9223372036854775807, -9223372036854775808] {
        let line = format!("<http://www.wikidata.org/entity/Q1> <http://www.wikidata.org/prop/direct/P1> \"{i}\"^^<http://www.w3.org/2001/XMLSchema#integer> .");
        let (_s, _p, o) = parse_line(&line).unwrap();
        assert_eq!(placeholders(&o.values()), vec![format!("{i}")]);
    }
}

#[test]
fn date_time_text_round_trip() {
    for text in ["-13798-01-01T00:00:00Z", "2001-12-31T23:59:59Z", "0-01-01T00:00:00Z"] {
        let d = DateTime::from_str(text).unwrap();
        let again = DateTime::from_str(&d.to_string()).unwrap();
        assert_eq!(again.to_string(), d.to_string());
        assert_eq!(placeholders(&again.values()), placeholders(&d.values()));
    }
}
