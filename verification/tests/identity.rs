use fruity::core_foundation::{CFHashCode, CFIndex, CFType, CFTypeID};
use fruity::ownership::Owned;
use fruity::runtime::{ForeignCall, Request};
use std::collections::HashMap;

/// A stand-in for the runtime's identity primitives. Two objects are equal
/// when they hold the same value, wherever they live.
struct ValueStore {
    values: HashMap<usize, (CFTypeID, u32)>,
    compared: Vec<(usize, usize)>,
}

impl ValueStore {
    fn new(objects: &[(usize, CFTypeID, u32)]) -> Self {
        let mut values = HashMap::new();
        for &(address, type_id, value) in objects {
            values.insert(address, (type_id, value));
        }
        ValueStore { values, compared: Vec::new() }
    }

    fn flag(&mut self, request: Request<bool>) -> bool {
        let answer = match request.call() {
            ForeignCall::Equal { left, right } => {
                self.compared.push((*left, *right));
                self.values[left] == self.values[right]
            }
            other => panic!("not an equality query: {:?}", other),
        };
        request.replied(answer)
    }

    fn word(&mut self, request: Request<usize>) -> usize {
        let answer = match request.call() {
            ForeignCall::Hash { handle } => {
                let (type_id, value) = self.values[handle];
                type_id.wrapping_mul(31).wrapping_add(value as usize)
            }
            ForeignCall::GetTypeId { handle } => self.values[handle].0,
            other => panic!("not a query for a word: {:?}", other),
        };
        request.replied(answer)
    }

    fn equal(&mut self, a: &CFType, b: &CFType) -> bool {
        self.flag(a.eq(b))
    }

    fn hash(&mut self, a: &CFType) -> CFHashCode {
        self.word(a.hash())
    }

    fn type_id(&mut self, a: &CFType) -> CFTypeID {
        self.word(a.get_type_id())
    }
}

#[test]
fn eq_names_both_objects_in_order() {
    let a = Owned::adopt(0x10);
    let b = Owned::adopt(0x20);
    assert_eq!(
        a.as_borrowed().eq(b.as_borrowed()).call(),
        &ForeignCall::Equal { left: 0x10, right: 0x20 }
    );
    assert_eq!(
        b.as_borrowed().eq(a.as_borrowed()).call(),
        &ForeignCall::Equal { left: 0x20, right: 0x10 }
    );
}

#[test]
fn eq_asks_the_runtime_even_for_one_address() {
    let mut store = ValueStore::new(&[(0x10, 7, 1)]);
    let a = Owned::adopt(0x10);
    let (same, _retain) = a.clone();
    assert_eq!(
        a.as_borrowed().eq(same.as_borrowed()).call(),
        &ForeignCall::Equal { left: 0x10, right: 0x10 }
    );
    assert!(store.equal(a.as_borrowed(), same.as_borrowed()));
    assert_eq!(store.compared, vec![(0x10, 0x10)]);
}

#[test]
fn every_object_equals_itself() {
    let mut store = ValueStore::new(&[(0x10, 7, 1), (0x20, 7, 2)]);
    let a = Owned::adopt(0x10);
    let b = Owned::adopt(0x20);
    assert!(store.equal(a.as_borrowed(), a.as_borrowed()));
    assert!(store.equal(b.as_borrowed(), b.as_borrowed()));
}

#[test]
fn equal_objects_at_two_addresses_hash_alike() {
    let mut store = ValueStore::new(&[(0x10, 7, 42), (0x20, 7, 42), (0x30, 7, 43)]);
    let a = Owned::adopt(0x10);
    let b = Owned::adopt(0x20);
    let c = Owned::adopt(0x30);

    assert!(store.equal(a.as_borrowed(), b.as_borrowed()));
    assert_eq!(store.hash(a.as_borrowed()), store.hash(b.as_borrowed()));
    assert_eq!(store.hash(a.as_borrowed()), 7 * 31 + 42);

    assert!(!store.equal(a.as_borrowed(), c.as_borrowed()));
    assert_eq!(store.hash(c.as_borrowed()), 7 * 31 + 43);
}

#[test]
fn hash_names_the_object() {
    let a = Owned::adopt(0x40);
    assert_eq!(a.as_borrowed().hash().call(), &ForeignCall::Hash { handle: 0x40 });
}

#[test]
fn get_type_id_names_the_object() {
    let mut store = ValueStore::new(&[(0x50, 19, 0)]);
    let a = Owned::adopt(0x50);
    assert_eq!(a.as_borrowed().get_type_id().call(), &ForeignCall::GetTypeId { handle: 0x50 });
    assert_eq!(store.type_id(a.as_borrowed()), 19);
}

#[test]
fn retain_count_names_the_object() {
    let a = Owned::adopt(0x60);
    let request = a.as_borrowed().retain_count();
    assert_eq!(request.call(), &ForeignCall::GetRetainCount { handle: 0x60 });
    let count: CFIndex = request.replied(-3);
    assert_eq!(count, -3);
}

#[test]
fn queries_never_ask_for_a_change_of_count() {
    let a = Owned::adopt(0x70);
    let b = Owned::adopt(0x80);
    let object = a.as_borrowed();
    let changes_count = |call: &ForeignCall| {
        matches!(call, ForeignCall::Retain { .. } | ForeignCall::Release { .. })
    };
    assert!(!changes_count(object.eq(b.as_borrowed()).call()));
    assert!(!changes_count(object.hash().call()));
    assert!(!changes_count(object.get_type_id().call()));
    assert!(!changes_count(object.retain_count().call()));
}

#[test]
fn an_answer_comes_back_as_the_runtime_gave_it() {
    let a = Owned::adopt(0x90);
    let object = a.as_borrowed();
    assert!(object.eq(object).replied(true));
    assert!(!object.eq(object).replied(false));
    assert_eq!(object.hash().replied(usize::MAX), usize::MAX);
    assert_eq!(object.get_type_id().replied(0), 0);
    assert_eq!(object.retain_count().replied(isize::MIN), isize::MIN);
}
