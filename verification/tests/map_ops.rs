use std::borrow::Borrow;
use std::cell::Cell;
use std::rc::Rc;

use emap::SlotMap;

#[test]
fn makes_new_map() {
    let m: SlotMap<&str> = SlotMap::with_capacity(16);
    assert_eq!(0, m.len());
}

#[test]
fn index() {
    let mut m: SlotMap<&str> = SlotMap::with_capacity_none(16);
    m.insert(1, "first");
    assert_eq!("first", *m.index(1));
}

#[test]
fn index_mut() {
    let mut m: SlotMap<i32> = SlotMap::with_capacity_none(16);
    m.insert(1, 10);
    *m.index_mut(1) += 55;
    assert_eq!(65, *m.index(1));
}

#[test]
#[should_panic]
fn wrong_index() {
    let mut m: SlotMap<&str> = SlotMap::with_capacity_none(16);
    m.insert(2, "first");
    m.insert(8, "second");
    m.remove(8);
    m.index(8);
}

#[derive(Clone, PartialEq, Eq)]
struct Container {
    pub t: i32,
}

impl Borrow<i32> for Container {
    fn borrow(&self) -> &i32 {
        &self.t
    }
}

#[test]
fn index_by_borrow() {
    let mut m: SlotMap<Container> = SlotMap::with_capacity_none(16);
    m.insert(2, Container { t: 10 });
    assert_eq!(10, m.index(2).t);
}

#[test]
fn new_map_is_empty_for_several_capacities() {
    let a: SlotMap<u8> = SlotMap::with_capacity(0);
    assert_eq!(0, a.len());
    let b: SlotMap<String> = SlotMap::with_capacity(16);
    assert_eq!(0, b.len());
    let c: SlotMap<u64> = SlotMap::with_capacity_none(1);
    assert_eq!(0, c.len());
}

#[test]
fn insert_then_get_and_len_growth() {
    let mut m: SlotMap<u64> = SlotMap::with_capacity(8);
    assert_eq!(None, m.insert(3, 40));
    assert_eq!(Some(&40), m.get(3));
    assert_eq!(1, m.len());
    assert_eq!(Some(40), m.insert(3, 41));
    assert_eq!(Some(&41), m.get(3));
    assert_eq!(1, m.len());
    assert_eq!(None, m.insert(0, 7));
    assert_eq!(2, m.len());
}

#[test]
fn remove_clears_the_slot() {
    let mut m: SlotMap<&str> = SlotMap::with_capacity(8);
    m.insert(5, "five");
    assert_eq!(1, m.len());
    assert_eq!(Some("five"), m.remove(5));
    assert_eq!(None, m.get(5));
    assert_eq!(0, m.len());
}

#[test]
fn remove_twice_is_idempotent() {
    let mut m: SlotMap<u64> = SlotMap::with_capacity(8);
    m.insert(2, 9);
    assert_eq!(Some(9), m.remove(2));
    assert_eq!(None, m.remove(2));
    assert_eq!(None, m.remove(2));
}

#[test]
fn out_of_range_access_leaves_slots_untouched() {
    let mut m: SlotMap<u64> = SlotMap::with_capacity(4);
    m.insert(1, 11);
    m.insert(2, 22);
    assert_eq!(None, m.get(4));
    assert_eq!(None, m.get(100));
    assert_eq!(None, m.remove(100));
    assert!(m.get_mut(3).is_none());
    assert_eq!(Some(&11), m.get(1));
    assert_eq!(Some(&22), m.get(2));
    assert_eq!(2, m.len());
}

#[test]
fn get_mut_writes_in_place() {
    let mut m: SlotMap<String> = SlotMap::with_capacity(4);
    m.insert(0, String::from("a"));
    if let Some(v) = m.get_mut(0) {
        v.push('b');
    }
    assert_eq!(Some(&String::from("ab")), m.get(0));
    assert!(m.get_mut(1).is_none());
}

struct Counted {
    hits: Rc<Cell<u32>>,
}

impl Drop for Counted {
    fn drop(&mut self) {
        self.hits.set(self.hits.get() + 1);
    }
}

#[test]
fn drops_each_value_exactly_once() {
    let hits: Rc<Cell<u32>> = Rc::new(Cell::new(0));
    {
        let mut m: SlotMap<Counted> = SlotMap::with_capacity(16);
        m.insert(0, Counted { hits: Rc::clone(&hits) });
        m.insert(3, Counted { hits: Rc::clone(&hits) });
        m.insert(7, Counted { hits: Rc::clone(&hits) });
        assert_eq!(0, hits.get());
    }
    assert_eq!(3, hits.get());
}

#[test]
fn replacing_a_value_drops_the_old_one_once() {
    let hits: Rc<Cell<u32>> = Rc::new(Cell::new(0));
    let mut m: SlotMap<Counted> = SlotMap::with_capacity(4);
    m.insert(1, Counted { hits: Rc::clone(&hits) });
    let prev = m.insert(1, Counted { hits: Rc::clone(&hits) });
    assert_eq!(0, hits.get());
    drop(prev);
    assert_eq!(1, hits.get());
    drop(m);
    assert_eq!(2, hits.get());
}
