use scope_cell::ScopeBorrow;
use scope_cell::ScopeBorrowMut;
use scope_cell::ScopeCell;

#[test]
fn revert_clean_cell_twice_is_noop() {
    let data = vec![1, 2, 3];
    let mut scope = ScopeCell::new(&data);
    scope.revert(); // the cell is already clean
    assert_eq!(*scope.get(), vec![1, 2, 3]);
    scope.revert(); // still a no-op
    assert_eq!(*scope.get(), vec![1, 2, 3]);
    assert_eq!(scope.into_inner(), vec![1, 2, 3]);
}

#[test]
fn into_inner_of_clean_cell_duplicates_original() {
    let data = String::from("hello");
    let scope = ScopeCell::new(&data);
    let inner = scope.into_inner();
    assert_eq!(inner, "hello");
    assert_eq!(data, "hello");
}

#[test]
fn last_write_wins_without_revert() {
    let data = 1u64;
    {
        let mut scope = ScopeCell::new(&data);
        *scope.get_mut() = 2;
        *scope.get_mut() = 3;
        assert_eq!(*scope.get(), 3);
    }
    assert_eq!(data, 1);
}

#[test]
fn empty_vector_original() {
    let data: Vec<i32> = Vec::new();
    {
        let mut scope = ScopeCell::new(&data);
        assert_eq!(scope.get().len(), 0);
        scope.get_mut().push(1);
        assert_eq!(*scope.get(), vec![1]);
    }
    assert!(data.is_empty());
}

#[test]
fn read_handle_tracks_cell() {
    let data = 5u64;
    let mut scope = ScopeCell::new(&data);
    {
        let handle = ScopeBorrow::new(&scope);
        assert_eq!(*handle.get(), 5);
    }
    *scope.get_mut() = 6;
    let handle = ScopeBorrow::new(&scope);
    assert_eq!(*handle.get(), 6);
}

#[test]
fn write_handle_copies_lazily_and_writes_overlay() {
    let data = vec![1, 2];
    {
        let mut scope = ScopeCell::new(&data);
        {
            let handle = ScopeBorrowMut::new(&mut scope);
            assert_eq!(*handle.value, vec![1, 2]); // duplicated from the original
            handle.value.push(3);
        }
        assert_eq!(*scope.get(), vec![1, 2, 3]);
    }
    assert_eq!(data, vec![1, 2]); // the original never saw the write
}

#[test]
fn write_handle_reuses_existing_overlay() {
    let data = String::from("a");
    let mut scope = ScopeCell::new(&data);
    scope.get_mut().push('b');
    {
        let handle = ScopeBorrowMut::new(&mut scope);
        assert_eq!(*handle.value, "ab"); // the overlay, not a fresh copy
        handle.value.push('c');
    }
    assert_eq!(scope.into_inner(), "abc");
    assert_eq!(data, "a");
}

#[test]
fn revert_after_write_handle_restores_original() {
    let data = 7i32;
    let mut scope = ScopeCell::new(&data);
    {
        let handle = ScopeBorrowMut::new(&mut scope);
        *handle.value = 8;
    }
    assert_eq!(*scope.get(), 8);
    scope.revert();
    assert_eq!(*scope.get(), 7);
}
