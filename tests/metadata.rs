use spellbridge::checker::SpellChecker;
use spellbridge::metadata::{locale_name_of, locale_of, select_title, ArchiveInfo, Title};

fn title(lang: Option<&str>, value: &str) -> Title {
    Title { lang: lang.map(|l| l.to_string()), value: value.to_string() }
}

fn en_se() -> Vec<Title> {
    vec![title(Some("en"), "Foo"), title(Some("se"), "Bar")]
}

#[test]
fn locale_name_picks_title_tagged_with_locale() {
    let info = ArchiveInfo { locale: "se".to_string(), titles: en_se() };
    assert_eq!(locale_name_of(&Some(info)), Some("Bar".to_string()));
}

#[test]
fn locale_name_falls_back_to_first_title() {
    let info = ArchiveInfo { locale: "fi".to_string(), titles: en_se() };
    assert_eq!(locale_name_of(&Some(info)), Some("Foo".to_string()));
}

#[test]
fn first_of_several_tagged_titles_wins() {
    let titles = vec![
        title(None, "Untagged"),
        title(Some("se"), "First"),
        title(Some("se"), "Second"),
    ];
    assert_eq!(select_title(&"se".to_string(), &titles), Some("First".to_string()));
}

#[test]
fn untagged_titles_never_match() {
    let titles = vec![title(None, "A"), title(None, "B")];
    assert_eq!(select_title(&"".to_string(), &titles), Some("A".to_string()));
}

#[test]
fn empty_title_list_gives_no_name() {
    let info = ArchiveInfo { locale: "se".to_string(), titles: vec![] };
    assert_eq!(locale_name_of(&Some(info.clone())), None);
    assert_eq!(locale_of(&Some(info)), Some("se".to_string()));
}

#[test]
fn no_metadata_gives_no_locale_and_no_name() {
    assert_eq!(locale_of(&None), None);
    assert_eq!(locale_name_of(&None), None);
    let checker = SpellChecker::new(None);
    assert_eq!(checker.locale(), None);
    assert_eq!(checker.locale_name(), None);
}

#[test]
fn handle_reads_are_deterministic() {
    let info = ArchiveInfo { locale: "se".to_string(), titles: en_se() };
    let checker = SpellChecker::new(Some(info));
    assert_eq!(checker.locale(), Some("se".to_string()));
    assert_eq!(checker.locale(), checker.locale());
    assert_eq!(checker.locale_name(), Some("Bar".to_string()));
    assert_eq!(checker.locale_name(), checker.locale_name());
}
