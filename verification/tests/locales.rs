use posterbot_constructor::locales::{raw, t, L10n, Locale, Translations};

fn catalogue() -> Translations {
    let mut tr = Translations::new();
    tr.insert(Locale::En, "admin_removed", "✅ Admin {id} removed.");
    tr.insert(Locale::Ru, "admin_removed", "✅ Админ {id} удалён.");
    tr.insert(Locale::En, "ban_deactivated", "✅ Ban {ban_id} deactivated.");
    tr.insert(Locale::Ru, "ban_deactivated", "✅ Бан {ban_id} деактивирован.");
    tr
}

#[test]
fn placeholders_are_rendered() {
    let tr = catalogue();
    assert_eq!(
        t(&tr, Locale::En, "admin_removed", &[("id", "42")]),
        "✅ Admin 42 removed."
    );
    assert_eq!(
        t(&tr, Locale::Ru, "ban_deactivated", &[("ban_id", "BAN-ABC123")]),
        "✅ Бан BAN-ABC123 деактивирован."
    );
}

#[test]
fn fallback_returns_key_when_missing() {
    let tr = catalogue();
    assert_eq!(
        raw(&tr, Locale::En, "definitely_not_a_key"),
        "definitely_not_a_key"
    );
}

#[test]
fn l10n_renders_integer_arguments() {
    let l10n = L10n::new(catalogue());
    assert_eq!(l10n.admin_removed(Locale::En, 42), "✅ Admin 42 removed.");
    assert_eq!(l10n.admin_removed(Locale::Ru, -7), "✅ Админ -7 удалён.");
}

#[test]
fn missing_keys_are_listed_per_language() {
    let mut tr = Translations::new();
    tr.insert(Locale::En, "a", "A");
    tr.insert(Locale::En, "b", "B");
    tr.insert(Locale::Ru, "b", "Б");
    tr.insert(Locale::Ru, "c", "В");
    tr.insert(Locale::En, "a", "A2");
    let (no_ru, no_en) = tr.missing_keys();
    assert_eq!(no_ru, vec!["a".to_string()]);
    assert_eq!(no_en, vec!["c".to_string()]);
    assert_eq!(raw(&tr, Locale::En, "a"), "A2");
    assert_eq!(raw(&tr, Locale::Ru, "a"), "A2");
    assert_eq!(raw(&tr, Locale::Ru, "c"), "В");
    assert_eq!(raw(&tr, Locale::En, "c"), "В");
}

#[test]
fn locales_read_their_codes() {
    assert_eq!(Locale::parse("EN"), Some(Locale::En));
    assert_eq!(Locale::parse("rU"), Some(Locale::Ru));
    assert_eq!(Locale::parse("english"), None);
    assert_eq!(Locale::parse(Locale::Ru.as_str()), Some(Locale::Ru));
    assert_eq!(Locale::En.as_str(), "en");
}

#[test]
fn placeholders_are_replaced_in_order_and_everywhere() {
    let mut tr = Translations::new();
    tr.insert(Locale::En, "k", "{a}-{b}-{a}");
    assert_eq!(t(&tr, Locale::En, "k", &[("a", "{b}"), ("b", "x")]), "x-x-x");
    assert_eq!(t(&tr, Locale::En, "k", &[]), "{a}-{b}-{a}");
}
