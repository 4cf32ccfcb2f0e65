use sniprun::backend::{fetch_form, known_backends, Language_subname};
use sniprun::data::DataHolder;
use sniprun::error::SniprunError;
use sniprun::launcher::{find_backend, BackendEntry, Launcher, Selection};
use sniprun::level::SupportLevel;

fn entry(name: &str, langs: &[&str], max_level: SupportLevel) -> BackendEntry {
    BackendEntry {
        name: name.to_string(),
        languages: langs.iter().map(|l| l.to_string()).collect(),
        max_level,
    }
}

fn request(tag: &str, line: &str, bloc: &str, selected: &[&str]) -> DataHolder {
    DataHolder {
        filetype: tag.to_string(),
        current_line: line.to_string(),
        current_bloc: bloc.to_string(),
        work_dir: "/tmp/scratch".to_string(),
        selected_interpreters: selected.iter().map(|s| s.to_string()).collect(),
    }
}

#[test]
fn unknown_tag_without_fallback_finds_nothing() {
    let reg = vec![
        entry("A", &["demo"], SupportLevel::Line),
        entry("B", &["other"], SupportLevel::Bloc),
    ];
    let launcher = Launcher::new(request("nope", "x", "y", &[]));
    assert_eq!(launcher.select(&reg), Err(SniprunError::NoInterpreterFound));
    let (name, level) = launcher.rank(&reg);
    assert_eq!(name, "Generic");
    assert_eq!(level, SupportLevel::Unsupported);
}

#[test]
fn unknown_tag_falls_back_to_generic() {
    let reg = vec![
        entry("A", &["demo"], SupportLevel::Line),
        entry("Generic", &["generic"], SupportLevel::Unsupported),
    ];
    let launcher = Launcher::new(request("nope", "x", "", &[]));
    assert_eq!(
        launcher.select(&reg),
        Ok(Selection { index: 1, level: SupportLevel::Unsupported })
    );
}

#[test]
fn ranking_is_repeatable() {
    let reg = vec![
        entry("A", &["demo"], SupportLevel::Line),
        entry("B", &["demo"], SupportLevel::Bloc),
        entry("C", &["demo"], SupportLevel::Line),
    ];
    let first = Launcher::new(request("demo", "a", "b", &[])).select(&reg);
    let second = Launcher::new(request("demo", "a", "b", &[])).select(&reg);
    let other_code = Launcher::new(request("demo", "", "zzz", &[])).select(&reg);
    assert_eq!(first, Ok(Selection { index: 1, level: SupportLevel::Bloc }));
    assert_eq!(first, second);
    assert_eq!(first, other_code);
}

#[test]
fn equal_levels_first_registered_wins() {
    let reg = vec![
        entry("Low", &["demo"], SupportLevel::Line),
        entry("First", &["demo"], SupportLevel::Bloc),
        entry("Second", &["demo"], SupportLevel::Bloc),
    ];
    let launcher = Launcher::new(request("demo", "", "x", &[]));
    assert_eq!(launcher.select(&reg), Ok(Selection { index: 1, level: SupportLevel::Bloc }));
    assert_eq!(launcher.rank(&reg).0, "First");
}

#[test]
fn backend_without_support_does_not_outrank_fallback() {
    let reg = vec![
        entry("Generic", &["generic"], SupportLevel::Unsupported),
        entry("Mute", &["demo"], SupportLevel::Unsupported),
    ];
    let launcher = Launcher::new(request("demo", "x", "", &[]));
    assert_eq!(
        launcher.select(&reg),
        Ok(Selection { index: 0, level: SupportLevel::Unsupported })
    );
}

#[test]
fn explicit_selection_overrides_higher_level() {
    let reg = vec![
        entry("Big", &["demo"], SupportLevel::System),
        entry("Small", &["demo"], SupportLevel::Line),
        entry("Later", &["demo"], SupportLevel::Project),
    ];
    let launcher = Launcher::new(request("demo", "x", "", &["Small"]));
    assert_eq!(
        launcher.select(&reg),
        Ok(Selection { index: 1, level: SupportLevel::Selected })
    );
}

#[test]
fn explicit_selection_of_non_matching_backend_is_ignored() {
    let reg = vec![
        entry("A", &["demo"], SupportLevel::Line),
        entry("B", &["other"], SupportLevel::Bloc),
    ];
    let launcher = Launcher::new(request("demo", "x", "", &["B"]));
    assert_eq!(launcher.select(&reg), Ok(Selection { index: 0, level: SupportLevel::Line }));
}

#[test]
fn demo_scenario_ranks_then_honours_selection() {
    let reg = vec![
        entry("A", &["demo"], SupportLevel::Line),
        entry("B", &["demo"], SupportLevel::Bloc),
    ];
    let ranked = Launcher::new(request("demo", "", "let x = 1;\nprint(x)", &[]));
    assert_eq!(ranked.select(&reg), Ok(Selection { index: 1, level: SupportLevel::Bloc }));

    let data = request("demo", "", "let x = 1;\nprint(x)", &["A"]);
    let picked = Launcher::new(data.clone());
    let sel = picked.select(&reg).unwrap();
    assert_eq!(sel, Selection { index: 0, level: SupportLevel::Selected });
    // A can run no more than a line, so its run comes down to that level.
    let level = sel.level.capped_at(reg[sel.index].max_level);
    assert_eq!(level, SupportLevel::Line);
    assert_eq!(fetch_form(&data, level), "");
}

#[test]
fn find_backend_takes_first_of_a_name() {
    let reg = vec![
        entry("A", &["x"], SupportLevel::Line),
        entry("B", &["x"], SupportLevel::Line),
        entry("B", &["y"], SupportLevel::Bloc),
    ];
    assert_eq!(find_backend(&reg, &"B".to_string()), Some(1));
    assert_eq!(find_backend(&reg, &"C".to_string()), None);
}

#[test]
fn known_backends_serve_their_tags() {
    let reg = known_backends();
    assert_eq!(reg.len(), 1);
    assert_eq!(reg[0].name, Language_subname::get_name());
    assert_eq!(reg[0].languages, vec!["language_filetype".to_string(), "extension".to_string()]);
    let launcher = Launcher::new(request("extension", "x", "y", &[]));
    assert_eq!(launcher.select(&reg), Ok(Selection { index: 0, level: SupportLevel::Bloc }));
    let picked = Launcher::new(request("language_filetype", "x", "", &["Language_subname"]));
    assert_eq!(picked.select(&reg), Ok(Selection { index: 0, level: SupportLevel::Selected }));
}

#[test]
fn levels_are_ordered() {
    assert_eq!(SupportLevel::Unsupported.weight(), 0);
    assert_eq!(SupportLevel::Line.weight(), 1);
    assert_eq!(SupportLevel::Bloc.weight(), 2);
    assert_eq!(SupportLevel::Selected.weight(), 255);
    assert!(SupportLevel::Selected.exceeds(&SupportLevel::System));
    assert!(!SupportLevel::Line.exceeds(&SupportLevel::Line));
    assert!(SupportLevel::Line.at_least(&SupportLevel::Line));
    assert_eq!(SupportLevel::Selected.capped_at(SupportLevel::Bloc), SupportLevel::Bloc);
    assert_eq!(SupportLevel::Line.capped_at(SupportLevel::Bloc), SupportLevel::Line);
}
