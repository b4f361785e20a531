use starstream_sys::token::Token;
use starstream_sys::StorageToken;
use starstream_sys::TokenArena;
use starstream_sys::TokenStorage;

#[test]
fn mint_then_burn_returns_storage() {
    let mut arena: TokenArena<TokenStorage> = TokenArena::new();
    let token = StorageToken::mint(&mut arena, TokenStorage { id: 7, amount: 100 });
    let back = token.burn(&mut arena);
    assert_eq!(back, TokenStorage { id: 7, amount: 100 });
}

#[test]
fn arena_mint_burn_round_trip() {
    let mut arena: TokenArena<TokenStorage> = TokenArena::new();
    let h = arena.mint(TokenStorage { id: 1, amount: 5 });
    assert!(arena.is_live(h));
    let back = arena.burn(h);
    assert_eq!(back.id, 1);
    assert_eq!(back.amount, 5);
}

#[test]
fn burned_handle_is_dead() {
    let mut arena: TokenArena<TokenStorage> = TokenArena::new();
    let h = arena.mint(TokenStorage { id: 2, amount: 20 });
    let copy = h;
    let _ = arena.burn(h);
    assert!(!arena.is_live(h));
    assert!(!arena.is_live(copy));
}

#[test]
fn burn_then_remint_preserves_value() {
    let mut arena: TokenArena<TokenStorage> = TokenArena::new();
    let first = arena.mint(TokenStorage { id: 3, amount: 30 });
    let storage = arena.burn(first);
    let second = arena.mint(storage);
    assert!(first != second);
    assert!(!arena.is_live(first));
    assert!(arena.is_live(second));
    let back = arena.burn(second);
    assert_eq!(back, TokenStorage { id: 3, amount: 30 });
}

#[test]
fn distinct_mints_give_distinct_handles() {
    let mut arena: TokenArena<TokenStorage> = TokenArena::new();
    let h1 = arena.mint(TokenStorage { id: 4, amount: 1 });
    let h2 = arena.mint(TokenStorage { id: 4, amount: 1 });
    assert!(h1 != h2);
    assert!(arena.is_live(h1));
    assert!(arena.is_live(h2));
    let _ = arena.burn(h1);
    assert!(!arena.is_live(h1));
    assert!(arena.is_live(h2));
}

#[test]
fn copies_of_one_handle_are_equal() {
    let mut arena: TokenArena<TokenStorage> = TokenArena::new();
    let h = arena.mint(TokenStorage { id: 5, amount: 50 });
    let copy = h.clone();
    assert!(h == copy);
}

#[test]
fn export_entry_points_convert_exactly() {
    let storage = TokenStorage { id: 9, amount: 90 };
    assert_eq!(StorageToken::to_storage(storage), storage);
    assert_eq!(StorageToken::from_storage(storage), storage);
}

#[test]
fn mint_on_empty_arena_starts_fresh() {
    let mut arena: TokenArena<TokenStorage> = TokenArena::new();
    let h = arena.mint(TokenStorage { id: 0, amount: 0 });
    assert!(arena.is_live(h));
    let back = arena.burn(h);
    assert_eq!(back, TokenStorage { id: 0, amount: 0 });
}
