use dynvec::vector::Vector;
use std::cell::Cell;
use std::rc::Rc;

struct Counted {
    drops: Rc<Cell<usize>>,
}

impl Drop for Counted {
    fn drop(&mut self) {
        self.drops.set(self.drops.get() + 1);
    }
}

fn counted(drops: &Rc<Cell<usize>>) -> Counted {
    Counted { drops: Rc::clone(drops) }
}

#[test]
fn dropping_the_array_drops_each_live_element_once() {
    let drops: Rc<Cell<usize>> = Rc::new(Cell::new(0));
    {
        let mut v = Vector::new(1, false, |c: usize| c.saturating_mul(2)).unwrap();
        for _ in 0..5 {
            v.push(counted(&drops)).unwrap();
        }
        assert_eq!(drops.get(), 0);
    }
    assert_eq!(drops.get(), 5);
}

#[test]
fn growth_moves_elements_without_dropping_them() {
    let drops: Rc<Cell<usize>> = Rc::new(Cell::new(0));
    let mut v = Vector::new(1, false, |c: usize| c.saturating_mul(2)).unwrap();
    v.push(counted(&drops)).unwrap();
    v.push(counted(&drops)).unwrap();
    v.push(counted(&drops)).unwrap();
    assert_eq!(drops.get(), 0);
    drop(v);
    assert_eq!(drops.get(), 3);
}

#[test]
fn set_drops_the_replaced_element_exactly_once() {
    let drops: Rc<Cell<usize>> = Rc::new(Cell::new(0));
    let mut v = Vector::new(2, false, |c: usize| c.saturating_mul(2)).unwrap();
    v.push(counted(&drops)).unwrap();
    v.set(0, counted(&drops)).unwrap();
    assert_eq!(drops.get(), 1);
    drop(v);
    assert_eq!(drops.get(), 2);
}

#[test]
fn drop_last_drops_the_removed_element_immediately() {
    let drops: Rc<Cell<usize>> = Rc::new(Cell::new(0));
    let mut v = Vector::new(4, false, |c: usize| c.saturating_mul(2)).unwrap();
    v.push(counted(&drops)).unwrap();
    v.push(counted(&drops)).unwrap();
    v.drop_last();
    assert_eq!(drops.get(), 1);
    drop(v);
    assert_eq!(drops.get(), 2);
}

#[test]
fn reshaping_the_allocation_drops_nothing() {
    let drops: Rc<Cell<usize>> = Rc::new(Cell::new(0));
    let mut v = Vector::new(8, false, |c: usize| c.saturating_mul(2)).unwrap();
    v.push(counted(&drops)).unwrap();
    v.push(counted(&drops)).unwrap();
    v.fit_in();
    assert_eq!(drops.get(), 0);
    v.reallocate(10).unwrap();
    assert_eq!(drops.get(), 0);
    drop(v);
    assert_eq!(drops.get(), 2);
}
