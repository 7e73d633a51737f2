use blackforge::names::{author, title};

#[test]
fn reads_an_id() {
    assert_eq!(title("MaxGerman-Skip_Intro_Video"), "Skip Intro Video");
    assert_eq!(author("MaxGerman-Skip_Intro_Video"), "by MaxGerman");
    assert_eq!(title("LVH-IT-UsefulPaths"), "UsefulPaths");
    assert_eq!(author("LVH-IT-UsefulPaths"), "by LVH-IT");
    assert_eq!(title("not an id"), "not an id");
    assert_eq!(author("not an id"), "");
}

#[test]
fn an_id_needs_both_halves() {
    assert_eq!(title("-Name"), "-Name");
    assert_eq!(author("Owner-"), "");
    assert_eq!(title("NoHyphen"), "NoHyphen");
}
