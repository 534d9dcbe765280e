use tomlconf::{ConfigData, ConfigRecord};

#[test]
fn default_text_parses_to_the_default_record() {
    // The compiled-in default text, read by the real codec, denotes the same
    // values as the hand-written default record.
    let table: toml::Table = toml::from_str(&ConfigRecord::default_text()).unwrap();
    let fallback = ConfigRecord::default();
    assert_eq!(table.get("output").unwrap().as_str().unwrap(), fallback.output);
    assert_eq!(table.get("number").unwrap().as_integer().unwrap(), fallback.number as i64);
    assert_eq!(table.len(), 2);
}

#[test]
fn prepare_is_the_identity_here() {
    let rec = ConfigRecord { output: "MiXeD".to_owned(), number: 8 };
    let prepared = rec.prepare();
    assert_eq!(prepared.output, "MiXeD");
    assert_eq!(prepared.number, 8);
}

#[test]
fn duplicate_record_is_equal() {
    let rec = ConfigRecord { output: "a".to_owned(), number: 1 };
    let copy = rec.duplicate();
    assert_eq!(copy.output, rec.output);
    assert_eq!(copy.number, rec.number);
}
