use qpropertyeditor::QProperty;

fn prop(t: &str, n: &str, settable: bool, notifiable: bool, const_ref: bool) -> QProperty {
    QProperty::new(t.to_string(), n.to_string(), settable, notifiable, const_ref)
}

#[test]
fn count_example_all_fragments() {
    let p = prop("int", "count", true, true, false);
    assert_eq!(p.declaration(), "PROPERTY(int count WRITE setCount NOTIFY countChanged)");
    assert_eq!(p.getter(), "int count() const;");
    assert_eq!(p.setter(), "void setCount(int count);");
    assert_eq!(p.notifier(), "void countChanged(int count);");
}

#[test]
fn plain_declaration_has_no_clauses() {
    let p = prop("QString", "title", false, false, true);
    assert_eq!(p.declaration(), "PROPERTY(QString title)");
}

#[test]
fn declaration_with_setter_only() {
    let p = prop("int", "count", true, false, false);
    assert_eq!(p.declaration(), "PROPERTY(int count WRITE setCount)");
}

#[test]
fn declaration_with_notifier_only() {
    let p = prop("int", "count", false, true, false);
    assert_eq!(p.declaration(), "PROPERTY(int count NOTIFY countChanged)");
}

#[test]
fn write_clause_appears_once() {
    let p = prop("double", "ratio", true, true, true);
    let d = p.declaration();
    assert_eq!(d.matches(" WRITE setRatio").count(), 1);
    assert_eq!(d.find(" WRITE setRatio"), Some("PROPERTY(double ratio".len()));
}

#[test]
fn getter_ignores_switches() {
    for bits in 0..8u8 {
        let p = prop("bool", "value", bits & 1 != 0, bits & 2 != 0, bits & 4 != 0);
        assert_eq!(p.getter(), "bool value() const;");
    }
}

#[test]
fn parameter_by_value_and_by_const_ref() {
    let by_value = prop("QString", "title", true, true, false);
    let by_ref = prop("QString", "title", true, true, true);
    assert_eq!(by_value.parameters(), "QString title");
    assert_eq!(by_ref.parameters(), "const QString &title");
    assert_eq!(
        by_ref.parameters(),
        format!("const {}", by_value.parameters().replacen(" ", " &", 1))
    );
}

#[test]
fn setter_and_notifier_by_const_ref() {
    let p = prop("int", "count", true, true, true);
    assert_eq!(p.setter(), "void setCount(const int &count);");
    assert_eq!(p.notifier(), "void countChanged(const int &count);");
}

#[test]
fn multi_word_names_are_camel_cased() {
    let p = prop("bool", "my_value", true, true, false);
    assert_eq!(p.declaration(), "PROPERTY(bool my_value WRITE setMyValue NOTIFY myValueChanged)");
    assert_eq!(p.setter(), "void setMyValue(bool my_value);");
    assert_eq!(p.notifier(), "void myValueChanged(bool my_value);");
}

#[test]
fn generation_is_idempotent() {
    let p = prop("int", "count", true, true, true);
    assert_eq!(p.declaration(), p.declaration());
    assert_eq!(p.getter(), p.getter());
    assert_eq!(p.parameters(), p.parameters());
    assert_eq!(p.setter(), p.setter());
    assert_eq!(p.notifier(), p.notifier());
    assert_eq!(p.summery(), p.summery());
}

#[test]
fn summary_joins_four_lines() {
    let p = prop("bool", "value", true, true, true);
    assert_eq!(
        p.summery(),
        "PROPERTY(bool value WRITE setValue NOTIFY valueChanged)\n\
         bool value() const;\n\
         void setValue(const bool &value);\n\
         void valueChanged(const bool &value);\n"
    );
}

#[test]
fn fragments_from_given_names() {
    let p = prop("int", "count", true, true, false);
    assert_eq!(
        p.declaration_with("assignCount", "countUpdated"),
        "PROPERTY(int count WRITE assignCount NOTIFY countUpdated)"
    );
    assert_eq!(p.setter_with("assignCount"), "void assignCount(int count);");
    assert_eq!(p.notifier_with("countUpdated"), "void countUpdated(int count);");
    assert_eq!(
        p.summery_with("assignCount", "countUpdated", "countWasUpdated"),
        "PROPERTY(int count WRITE assignCount NOTIFY countUpdated)\n\
         int count() const;\n\
         void assignCount(int count);\n\
         void countWasUpdated(int count);\n"
    );
}

#[test]
fn empty_texts_pass_through() {
    let p = prop("", "", false, false, false);
    assert_eq!(p.declaration(), "PROPERTY( )");
    assert_eq!(p.getter(), " () const;");
    assert_eq!(p.parameters(), " ");
    assert_eq!(p.setter_with(""), "void ( );");
}

#[test]
fn malformed_texts_are_not_checked() {
    let p = prop("int WRITE x", "a b", false, false, false);
    assert_eq!(p.declaration(), "PROPERTY(int WRITE x a b)");
    assert_eq!(p.getter(), "int WRITE x a b() const;");
}
