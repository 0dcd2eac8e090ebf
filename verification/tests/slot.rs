use swapper::slot::Slot;

#[test]
fn an_empty_slot_gives_nothing() {
    let mut slot = Slot::<u32>::empty();
    assert_eq!(slot.take_and_clear(), None);
}

#[test]
fn an_empty_slot_accepts_a_value_and_gives_it_once() {
    let mut slot = Slot::empty();
    assert_eq!(slot.publish_if_empty(String::from("a")), Ok(()));
    assert_eq!(slot.take_and_clear(), Some(String::from("a")));
    assert_eq!(slot.take_and_clear(), None);
}

#[test]
fn an_occupied_slot_refuses_and_keeps_its_occupant() {
    let mut slot = Slot::empty();
    assert_eq!(slot.publish_if_empty(1u32), Ok(()));
    assert_eq!(slot.publish_if_empty(2u32), Err(2));
    assert_eq!(slot.take_and_clear(), Some(1));
}

#[test]
fn a_cleared_slot_accepts_again() {
    let mut slot = Slot::empty();
    assert_eq!(slot.publish_if_empty(1u32), Ok(()));
    assert_eq!(slot.take_and_clear(), Some(1));
    assert_eq!(slot.publish_if_empty(2u32), Ok(()));
    assert_eq!(slot.take_and_clear(), Some(2));
}
