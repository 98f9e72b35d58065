use figex::font::{generate_font_name_variants, normalize_font_name};

#[test]
fn normalize_font_name_preserves_existing_extensions() {
    assert_eq!(normalize_font_name("Standard.flf"), "Standard.flf");
    assert_eq!(normalize_font_name("Standard.flc"), "Standard.flc");
    assert_eq!(normalize_font_name("Standard.tlf"), "Standard.tlf");
}

#[test]
fn normalize_font_name_adds_default_extension() {
    assert_eq!(normalize_font_name("Standard"), "Standard.flf");
    assert_eq!(normalize_font_name("ANSI Shadow"), "ANSI Shadow.flf");
}

#[test]
fn generate_font_name_variants_supports_underscores_and_spaces() {
    let underscore_variants = generate_font_name_variants("ANSI_Shadow");
    let space_variants = generate_font_name_variants("ANSI Shadow");

    assert!(underscore_variants.contains(&"ANSI_Shadow.flf".to_string()));
    assert!(underscore_variants.contains(&"ANSI Shadow.flf".to_string()));
    assert!(space_variants.contains(&"ANSI Shadow.flf".to_string()));
    assert!(space_variants.contains(&"ANSI_Shadow.flf".to_string()));
}

#[test]
fn generate_font_name_variants_orders_normalized_name_first() {
    assert_eq!(generate_font_name_variants("Standard"), vec!["Standard.flf".to_string()]);
    assert_eq!(
        generate_font_name_variants("a_b c"),
        vec!["a_b c.flf".to_string(), "a b c.flf".to_string(), "a_b_c.flf".to_string()]
    );
}

#[test]
fn normalize_font_name_is_idempotent() {
    for name in ["Standard", "ANSI Shadow", "x.flc", "", ".flf"] {
        let once = normalize_font_name(name);
        assert_eq!(normalize_font_name(&once), once);
    }
}

#[test]
fn font_name_variants_have_no_duplicates_and_read_alike() {
    for name in ["a_b c", "Standard", "x y", "p_q", "_ _"] {
        let n = normalize_font_name(name);
        let v = generate_font_name_variants(name);
        assert_eq!(v[0], n);
        assert_eq!(v.len(), 1 + n.contains('_') as usize + n.contains(' ') as usize);
        for i in 0..v.len() {
            for j in i + 1..v.len() {
                assert_ne!(v[i], v[j]);
            }
            assert_eq!(v[i].replace('_', " "), n.replace('_', " "));
        }
    }
}
