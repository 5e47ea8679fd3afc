use emscripten_env::imports::{ImportError, ImportTable};

fn s(x: &str) -> String {
    x.to_string()
}

#[test]
fn registered_symbols_resolve_exactly() {
    let mut t: ImportTable<u32> = ImportTable::new();
    assert!(t.register(s("env"), s("printf"), 1).is_ok());
    assert!(t.register(s("env"), s("putchar"), 2).is_ok());
    assert!(t.register(s("asm2wasm"), s("f64-rem"), 3).is_ok());
    assert!(t.register(s("env"), s("f64-rem"), 4).is_ok());
    assert_eq!(t.len(), 4);
    assert_eq!(t.lookup(&s("env"), &s("printf")), Some(&1));
    assert_eq!(t.lookup(&s("asm2wasm"), &s("f64-rem")), Some(&3));
    assert_eq!(t.lookup(&s("env"), &s("f64-rem")), Some(&4));
    assert_eq!(t.lookup(&s("env"), &s("Printf")), None);
    assert_eq!(t.lookup(&s("global"), &s("printf")), None);
    assert_eq!(t.lookup(&s("env"), &s("print")), None);
}

#[test]
fn duplicate_registration_refused() {
    let mut t: ImportTable<u32> = ImportTable::new();
    assert!(t.register(s("env"), s("abort"), 1).is_ok());
    let r = t.register(s("env"), s("abort"), 2);
    assert!(matches!(r, Err(ImportError::Duplicate(ref n, ref m)) if n == "env" && m == "abort"));
    assert_eq!(t.len(), 1);
    assert_eq!(t.lookup(&s("env"), &s("abort")), Some(&1));
}

#[test]
fn unresolved_import_reported() {
    let mut t: ImportTable<u32> = ImportTable::new();
    assert!(t.register(s("env"), s("memory"), 0).is_ok());
    assert!(t.register(s("env"), s("table"), 1).is_ok());
    assert!(t.resolve_all(&vec![(s("env"), s("memory")), (s("env"), s("table"))]).is_ok());
    assert!(t.resolve_all(&vec![]).is_ok());
    let r = t.resolve_all(&vec![(s("env"), s("memory")), (s("env"), s("_dlopen"))]);
    assert!(matches!(r, Err(ImportError::Unresolved(ref n, ref m)) if n == "env" && m == "_dlopen"));
}

#[test]
fn first_unresolved_import_named() {
    let mut t: ImportTable<u32> = ImportTable::new();
    assert!(t.register(s("env"), s("memory"), 0).is_ok());
    let r = t.resolve_all(&vec![
        (s("env"), s("memory")),
        (s("env"), s("_dlsym")),
        (s("global"), s("NaN")),
    ]);
    assert!(matches!(r, Err(ImportError::Unresolved(ref n, ref m)) if n == "env" && m == "_dlsym"));
}
