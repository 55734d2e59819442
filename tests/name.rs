use skippy::{pretty_name, CommandName, Empty, NameCons, NamePart};

#[test]
fn empty() {
    assert_eq!(Empty.parts(), Vec::<NamePart>::new());
}

#[test]
fn slice() {
    let s: &[NamePart] = &[NamePart("hello", None), NamePart("there", Some(2))];
    assert_eq!(s.parts(), s.iter().cloned().collect::<Vec<_>>());
}

#[test]
fn cons() {
    let n = NameCons::new(
        NameCons::new(Empty, NamePart("hello", None)),
        NamePart("there", Some(2)),
    );
    assert_eq!(
        n.parts(),
        vec![NamePart("hello", None), NamePart("there", Some(2))]
    );
}

#[test]
fn cons_cursor_yields_each_segment_once() {
    let n = NameCons::new(
        NameCons::new(Empty, NamePart("hello", None)),
        NamePart("there", Some(2)),
    );
    let mut it = n.iter();
    assert_eq!(it.next(), Some(NamePart("hello", None)));
    assert_eq!(it.next(), Some(NamePart("there", Some(2))));
    assert_eq!(it.next(), None);
    assert_eq!(it.next(), None);
}

#[test]
fn name_part_text() {
    assert_eq!(NamePart("AVERages", Some(2)).encode(false), ":AVER2");
    assert_eq!(NamePart("AVERages", Some(2)).encode(true), ":AVERages2");
    assert_eq!(NamePart("ACQuire", None).encode(false), ":ACQ");
    assert_eq!(NamePart("CHANnel", Some(0)).encode(false), ":CHAN0");
}

#[test]
fn uppercase_label_reads_the_same_in_both_forms() {
    assert_eq!(pretty_name("IDN", false), "IDN");
    assert_eq!(pretty_name("IDN", true), "IDN");
    assert_eq!(pretty_name("*IDN", false), "*IDN");
}

#[test]
fn short_form_is_the_leading_uppercase_run() {
    assert_eq!(pretty_name("AVERages", false), "AVER");
    assert_eq!(pretty_name("AVERages", true), "AVERages");
    assert_eq!(pretty_name("ABcDE", false), "AB");
}

#[test]
fn label_without_uppercase_has_empty_short_form() {
    assert_eq!(pretty_name("hello", false), "");
    assert_eq!(pretty_name("hello", true), "hello");
    assert_eq!(pretty_name("", false), "");
}
