use ciuc_planet::{CellStore, PlanetError};

fn snapshot(cells: &CellStore) -> Vec<bool> {
    let mut v = Vec::new();
    for i in 0..cells.capacity() {
        v.push(cells.is_charged(i));
    }
    v
}

#[test]
fn new_store_is_empty() {
    let cells = CellStore::new(5);
    assert_eq!(cells.capacity(), 5);
    assert_eq!(cells.charged_count(), 0);
    assert!(!cells.has_rocket());
    assert_eq!(snapshot(&cells), vec![false; 5]);
    assert_eq!(cells.full_cell(), None);
    assert_eq!(cells.empty_cell(), Some(0));
}

#[test]
fn store_without_cells() {
    let mut cells = CellStore::new(0);
    assert_eq!(cells.capacity(), 0);
    assert_eq!(cells.charged_count(), 0);
    assert_eq!(cells.full_cell(), None);
    assert_eq!(cells.empty_cell(), None);
    assert_eq!(cells.charge_cell(), Err(PlanetError::AllCellsFull));
    assert_eq!(cells.build_rocket(), Err(PlanetError::NoChargedCell));
    assert_eq!(cells.discharge_cell(), None);
    assert!(!cells.take_rocket());
}

#[test]
fn from_parts_keeps_what_it_is_given() {
    let cells = CellStore::from_parts(vec![true, false, true], true);
    assert_eq!(snapshot(&cells), vec![true, false, true]);
    assert!(cells.has_rocket());
    assert_eq!(cells.charged_count(), 2);
    assert_eq!(cells.capacity(), 3);
}

#[test]
fn charge_takes_the_lowest_empty_cell() {
    let mut cells = CellStore::from_parts(vec![true, false, true, false], false);
    assert_eq!(cells.empty_cell(), Some(1));
    assert_eq!(cells.charge_cell(), Ok(()));
    assert_eq!(snapshot(&cells), vec![true, true, true, false]);
    assert_eq!(cells.empty_cell(), Some(3));
    assert_eq!(cells.charge_cell(), Ok(()));
    assert_eq!(snapshot(&cells), vec![true, true, true, true]);
    assert_eq!(cells.charged_count(), 4);
    assert!(!cells.has_rocket());
}

#[test]
fn charge_fails_when_all_cells_are_full() {
    let mut cells = CellStore::from_parts(vec![true, true], true);
    assert_eq!(cells.empty_cell(), None);
    assert_eq!(cells.charge_cell(), Err(PlanetError::AllCellsFull));
    assert_eq!(snapshot(&cells), vec![true, true]);
    assert!(cells.has_rocket());
}

#[test]
fn rocket_is_built_from_the_lowest_full_cell() {
    let mut cells = CellStore::from_parts(vec![false, true, true], false);
    assert_eq!(cells.full_cell(), Some(1));
    assert_eq!(cells.build_rocket(), Ok(()));
    assert_eq!(snapshot(&cells), vec![false, false, true]);
    assert!(cells.has_rocket());
    assert_eq!(cells.charged_count(), 1);
}

#[test]
fn rocket_is_never_built_twice() {
    let mut cells = CellStore::from_parts(vec![true, true], false);
    assert_eq!(cells.build_rocket(), Ok(()));
    assert_eq!(cells.build_rocket(), Err(PlanetError::NoChargedCell));
    assert_eq!(snapshot(&cells), vec![false, true]);
    assert!(cells.has_rocket());
}

#[test]
fn rocket_needs_a_charged_cell() {
    let mut cells = CellStore::from_parts(vec![false, false], false);
    assert_eq!(cells.build_rocket(), Err(PlanetError::NoChargedCell));
    assert_eq!(snapshot(&cells), vec![false, false]);
    assert!(!cells.has_rocket());
}

#[test]
fn take_rocket_empties_the_slot() {
    let mut cells = CellStore::from_parts(vec![true, false], true);
    assert!(cells.take_rocket());
    assert!(!cells.has_rocket());
    assert_eq!(snapshot(&cells), vec![true, false]);
    assert!(!cells.take_rocket());
    assert!(!cells.has_rocket());
}

#[test]
fn discharge_takes_the_lowest_full_cell() {
    let mut cells = CellStore::from_parts(vec![false, true, true], true);
    assert_eq!(cells.discharge_cell(), Some(1));
    assert_eq!(snapshot(&cells), vec![false, false, true]);
    assert_eq!(cells.discharge_cell(), Some(2));
    assert_eq!(cells.discharge_cell(), None);
    assert_eq!(snapshot(&cells), vec![false, false, false]);
    assert!(cells.has_rocket());
}

#[test]
fn charged_count_stays_within_capacity() {
    let mut cells = CellStore::new(3);
    for expected in 1..=3 {
        assert_eq!(cells.charge_cell(), Ok(()));
        assert_eq!(cells.charged_count(), expected);
    }
    for _ in 0..4 {
        assert_eq!(cells.charge_cell(), Err(PlanetError::AllCellsFull));
        assert_eq!(cells.charged_count(), 3);
    }
    for expected in (0..3).rev() {
        assert!(cells.discharge_cell().is_some());
        assert_eq!(cells.charged_count(), expected);
    }
    assert_eq!(cells.discharge_cell(), None);
    assert_eq!(cells.charged_count(), 0);
}
