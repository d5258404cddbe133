use check_qualys::grade::{exit_code_for, Grade};

const ALL: [Grade; 10] = [
    Grade::APlus,
    Grade::A,
    Grade::AMinus,
    Grade::B,
    Grade::C,
    Grade::D,
    Grade::E,
    Grade::F,
    Grade::M,
    Grade::T,
];

#[test]
fn exit_code_of_each_grade() {
    assert_eq!(exit_code_for(Some(Grade::APlus)), 0);
    assert_eq!(exit_code_for(Some(Grade::A)), 0);
    assert_eq!(exit_code_for(Some(Grade::AMinus)), 1);
    assert_eq!(exit_code_for(Some(Grade::B)), 2);
    assert_eq!(exit_code_for(Some(Grade::C)), 2);
    assert_eq!(exit_code_for(Some(Grade::D)), 2);
    assert_eq!(exit_code_for(Some(Grade::E)), 2);
    assert_eq!(exit_code_for(Some(Grade::F)), 2);
    assert_eq!(exit_code_for(Some(Grade::M)), 2);
    assert_eq!(exit_code_for(Some(Grade::T)), 2);
}

#[test]
fn exit_code_without_a_grade() {
    assert_eq!(exit_code_for(None), 2);
}

#[test]
fn grade_texts() {
    assert_eq!(Grade::APlus.as_str(), "A+");
    assert_eq!(Grade::A.as_str(), "A");
    assert_eq!(Grade::AMinus.as_str(), "A-");
    assert_eq!(Grade::B.as_str(), "B");
    assert_eq!(Grade::C.as_str(), "C");
    assert_eq!(Grade::D.as_str(), "D");
    assert_eq!(Grade::E.as_str(), "E");
    assert_eq!(Grade::F.as_str(), "F");
    assert_eq!(Grade::M.as_str(), "M");
    assert_eq!(Grade::T.as_str(), "T");
}

#[test]
fn grade_parses_each_text() {
    assert_eq!(Grade::parse("A+"), Some(Grade::APlus));
    assert_eq!(Grade::parse("A"), Some(Grade::A));
    assert_eq!(Grade::parse("A-"), Some(Grade::AMinus));
    assert_eq!(Grade::parse("B"), Some(Grade::B));
    assert_eq!(Grade::parse("C"), Some(Grade::C));
    assert_eq!(Grade::parse("D"), Some(Grade::D));
    assert_eq!(Grade::parse("E"), Some(Grade::E));
    assert_eq!(Grade::parse("F"), Some(Grade::F));
    assert_eq!(Grade::parse("M"), Some(Grade::M));
    assert_eq!(Grade::parse("T"), Some(Grade::T));
}

#[test]
fn grade_round_trip() {
    for grade in ALL {
        assert_eq!(Grade::parse(grade.as_str()), Some(grade));
    }
}

#[test]
fn grade_match_is_exact() {
    assert_eq!(Grade::parse("a"), None);
    assert_eq!(Grade::parse("a+"), None);
    assert_eq!(Grade::parse("t"), None);
    assert_eq!(Grade::parse(" A"), None);
    assert_eq!(Grade::parse("A "), None);
    assert_eq!(Grade::parse("A++"), None);
    assert_eq!(Grade::parse("+"), None);
    assert_eq!(Grade::parse("B+"), None);
    assert_eq!(Grade::parse("B-"), None);
}

#[test]
fn grade_rejects_other_texts() {
    assert_eq!(Grade::parse(""), None);
    assert_eq!(Grade::parse("G"), None);
    assert_eq!(Grade::parse("APlus"), None);
    assert_eq!(Grade::parse("AMinus"), None);
    assert_eq!(Grade::parse("Ä"), None);
    assert_eq!(Grade::parse("A\u{2212}"), None);
}
