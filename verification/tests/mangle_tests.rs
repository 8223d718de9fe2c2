use polkavm_export::mangle::{alloc_section, alloc_symbol, hash_str, mangle, mangle_metadata};

#[test]
fn mangle_is_deterministic() {
    let a = mangle("my_module", "sum");
    let b = mangle("my_module", "sum");
    assert_eq!(a, b);
}

#[test]
fn mangle_metadata_is_deterministic() {
    let a = mangle_metadata("my_module", "sum");
    let b = mangle_metadata("my_module", "sum");
    assert_eq!(a, b);
}

#[test]
fn hash_is_deterministic() {
    assert_eq!(hash_str("my_module::sum"), hash_str("my_module::sum"));
}

#[test]
fn mangle_shape() {
    let s = mangle("my_module", "sum");
    assert!(s.starts_with("_ZN9my_module3sum17h"));
    assert!(s.ends_with('E'));
    assert_eq!(s.len(), "_ZN9my_module3sum17h".len() + 16 + 1);
    let hash_part = &s["_ZN9my_module3sum17h".len()..s.len() - 1];
    assert_eq!(hash_part.len(), 16);
    assert!(hash_part.chars().all(|c| c.is_ascii_hexdigit() && !c.is_ascii_uppercase()));
}

#[test]
fn mangle_metadata_shape() {
    let s = mangle_metadata("my_module", "sum");
    assert!(s.starts_with("_ZN9my_module3sum8METADATA17h"));
    assert!(s.ends_with('E'));
    assert_eq!(s.len(), "_ZN9my_module3sum8METADATA17h".len() + 16 + 1);
}

#[test]
fn metadata_hash_suffix_is_shared() {
    // The metadata symbol's hash is the content hash of the fixed tag, so
    // it is the same whatever the function is.
    let a = mangle_metadata("my_module", "sum");
    let b = mangle_metadata("other", "sub");
    assert_eq!(a[a.len() - 17..], b[b.len() - 17..]);
}

#[test]
fn distinct_pairs_mangle_apart() {
    let corpus = [
        ("my_module", "sum"),
        ("my_module", "sub"),
        ("my_module", "mul"),
        ("my_module", "su"),
        ("my_modul", "esum"),
        ("other", "sum"),
        ("m", "f"),
        ("m", "g"),
        ("a_rather_long_module_name", "a_rather_long_function_name"),
        ("a_rather_long_module_name", "a_rather_long_function_nam"),
    ];
    let symbols: Vec<String> = corpus.iter().map(|(m, f)| mangle(m, f)).collect();
    for i in 0..symbols.len() {
        for j in 0..symbols.len() {
            if i != j {
                assert_ne!(symbols[i], symbols[j], "collision between {:?} and {:?}", corpus[i], corpus[j]);
            }
        }
    }
}

#[test]
fn alloc_symbol_shape() {
    let s = alloc_symbol("sum");
    assert!(s.starts_with("alloc_"));
    assert_eq!(s.len(), "alloc_".len() + 16);
    assert_eq!(alloc_symbol("sum"), alloc_symbol("sum"));
    assert_ne!(alloc_symbol("sum"), alloc_symbol("sub"));
}

#[test]
fn alloc_section_wraps_symbol() {
    let sym = alloc_symbol("sum");
    let sect = alloc_section("sum");
    assert_eq!(sect, format!(".rodata..L{}", sym));
}
