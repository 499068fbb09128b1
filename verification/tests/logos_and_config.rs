use logomenu::catalog::Catalog;
use logomenu::config::{LogoMenuConfig, CONFIG_ID, CONFIG_VERSION};
use logomenu::list::MenuItems;
use logomenu::logos::{
    builtin, default_logo, effective_logo, find, logo_source, options, Logo, LogoSource,
};

#[test]
fn the_built_in_set_is_ordered_by_name_without_repeats() {
    let names = options(&builtin());
    assert_eq!(names.len(), 61);
    let mut sorted = names.clone();
    sorted.sort();
    assert_eq!(names, sorted);
    sorted.dedup();
    assert_eq!(sorted.len(), 61);
    assert_eq!(names[0], "Aeryn");
    assert_eq!(names[25], "MX (Symbolic)");
    assert_eq!(names[60], "Zorin (Symbolic)");
}

#[test]
fn a_logo_of_the_built_in_set_is_symbolic_by_its_name() {
    for logo in builtin() {
        assert_eq!(logo.symbolic, logo.name.ends_with("(Symbolic)"), "{}", logo.name);
    }
}

#[test]
fn the_default_logo_is_of_the_built_in_set() {
    assert_eq!(default_logo(), "Cosmic (Symbolic)");
    assert_eq!(find(&builtin(), "Cosmic (Symbolic)"), Some(16));
}

#[test]
fn find_gives_the_position_of_a_name() {
    let table = builtin();
    assert_eq!(find(&table, "Aeryn"), Some(0));
    assert_eq!(find(&table, "Tux"), Some(51));
    assert_eq!(find(&table, "tux"), None);
    assert_eq!(find(&table, ""), None);
    assert_eq!(find(&Vec::new(), "Tux"), None);
}

#[test]
fn a_known_logo_is_kept() {
    let table = builtin();
    assert_eq!(effective_logo(&table, Some("Fedora".to_string())), "Fedora");
    assert_eq!(effective_logo(&table, Some("Pop!_OS (Symbolic)".to_string())), "Pop!_OS (Symbolic)");
}

#[test]
fn an_unknown_logo_falls_back_to_the_default() {
    let table = builtin();
    assert_eq!(effective_logo(&table, Some("Windows".to_string())), "Cosmic (Symbolic)");
    assert_eq!(effective_logo(&table, Some("fedora".to_string())), "Cosmic (Symbolic)");
    assert_eq!(effective_logo(&table, Some(String::new())), "Cosmic (Symbolic)");
    assert_eq!(effective_logo(&table, None), "Cosmic (Symbolic)");
    assert_eq!(effective_logo(&Vec::new(), Some("Fedora".to_string())), "Cosmic (Symbolic)");
}

#[test]
fn the_custom_logo_shows_when_switched_on_and_there() {
    let table = builtin();
    assert_eq!(
        logo_source(&table, true, true, "/home/u/logo.svg", "Fedora"),
        LogoSource::Custom("/home/u/logo.svg".to_string())
    );
    assert_eq!(
        logo_source(&table, true, false, "/home/u/logo.svg", "Fedora"),
        LogoSource::Builtin("Fedora".to_string(), false)
    );
    assert_eq!(
        logo_source(&table, false, true, "/home/u/logo.svg", "Fedora (Symbolic)"),
        LogoSource::Builtin("Fedora (Symbolic)".to_string(), true)
    );
    assert_eq!(
        logo_source(&table, false, false, "", "Windows"),
        LogoSource::Builtin("Cosmic (Symbolic)".to_string(), true)
    );
}

#[test]
fn a_set_without_the_default_gives_it_as_not_symbolic() {
    let table = vec![Logo { name: "Only".to_string(), symbolic: true }];
    assert_eq!(
        logo_source(&table, false, false, "", "Other"),
        LogoSource::Builtin("Cosmic (Symbolic)".to_string(), false)
    );
    assert_eq!(
        logo_source(&table, false, false, "", "Only"),
        LogoSource::Builtin("Only".to_string(), true)
    );
}

#[test]
fn the_first_run_has_the_default_configuration() {
    let mut catalog = Catalog::new();
    catalog.insert("files", "Files");
    let config = LogoMenuConfig::defaults(&catalog);
    assert_eq!(config.logo, "Cosmic (Symbolic)");
    assert_eq!(config.menu_items, MenuItems::defaults(&catalog));
    assert!(!config.custom_logo_active);
    assert_eq!(config.custom_logo_path, "");
    assert_eq!(CONFIG_ID, "co.uk.cappsy.CosmicAppletLogoMenu");
    assert_eq!(CONFIG_VERSION, 1);
}

#[test]
fn a_stored_configuration_is_used_and_a_missing_one_replaced() {
    let catalog = Catalog::new();
    let stored = LogoMenuConfig {
        logo: "Tux".to_string(),
        menu_items: MenuItems { items: Vec::new() },
        custom_logo_active: true,
        custom_logo_path: "/x.svg".to_string(),
    };
    assert_eq!(LogoMenuConfig::load(Some(stored.clone()), &catalog), stored);
    assert_eq!(LogoMenuConfig::load(None, &catalog), LogoMenuConfig::defaults(&catalog));
}
