use boa::interner::{Interner, Sym};

#[test]
fn interner_starts_with_the_reserved_names() {
    let interner = Interner::new();
    assert_eq!(interner.len(), 2);
    assert_eq!(interner.resolve(Sym::of_yield()), Some("yield"));
    assert_eq!(interner.resolve(Sym::of_await()), Some("await"));
    assert_eq!(Sym::of_yield(), Sym { index: 0 });
    assert_eq!(Sym::of_await(), Sym { index: 1 });
}

#[test]
fn interner_adds_a_new_name_at_the_end() {
    let mut interner = Interner::new();
    let x = interner.get_or_intern("x");
    assert_eq!(x, Sym { index: 2 });
    let y = interner.get_or_intern("y");
    assert_eq!(y, Sym { index: 3 });
    assert_eq!(interner.len(), 4);
    assert_eq!(interner.resolve(x), Some("x"));
    assert_eq!(interner.resolve(y), Some("y"));
}

#[test]
fn interner_gives_one_symbol_to_one_name() {
    let mut interner = Interner::new();
    let first = interner.get_or_intern("x");
    let other = interner.get_or_intern("y");
    let again = interner.get_or_intern("x");
    assert_eq!(first, again);
    assert_ne!(first, other);
    assert_eq!(interner.len(), 4);
}

#[test]
fn interner_gives_the_reserved_symbols_to_the_reserved_names() {
    let mut interner = Interner::new();
    assert_eq!(interner.get_or_intern("yield"), Sym::of_yield());
    assert_eq!(interner.get_or_intern("await"), Sym::of_await());
    assert_eq!(interner.len(), 2);
}

#[test]
fn interner_get_finds_only_what_was_interned() {
    let mut interner = Interner::new();
    assert_eq!(interner.get("x"), None);
    let x = interner.get_or_intern("x");
    assert_eq!(interner.get("x"), Some(x));
    assert_eq!(interner.get("yield"), Some(Sym::of_yield()));
    assert_eq!(interner.get("X"), None);
    assert_eq!(interner.get(""), None);
    assert_eq!(interner.len(), 3);
}

#[test]
fn interner_resolves_no_unknown_symbol() {
    let mut interner = Interner::new();
    assert_eq!(interner.resolve(Sym { index: 2 }), None);
    let _ = interner.get_or_intern("x");
    assert_eq!(interner.resolve(Sym { index: 2 }), Some("x"));
    assert_eq!(interner.resolve(Sym { index: 3 }), None);
    assert_eq!(interner.resolve(Sym { index: usize::MAX }), None);
}

#[test]
fn interner_keeps_the_empty_name_apart() {
    let mut interner = Interner::new();
    let empty = interner.get_or_intern("");
    assert_eq!(empty, Sym { index: 2 });
    assert_eq!(interner.resolve(empty), Some(""));
    assert_eq!(interner.get_or_intern(""), empty);
}
