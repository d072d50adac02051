use pallet_room::pallet::{end_of_term, Pallet};
use pallet_room::types::{Error, Event, RoomStatus, MS_PER_DAY};

const A: u64 = 1;
const B: u64 = 2;
const C: u64 = 3;
const D: u64 = 4;
const E: u64 = 5;

fn snapshot(p: &Pallet, ids: &[u32], who: &[u64]) -> String {
    let mut out = format!("last={}", p.room_id());
    for id in ids {
        out += &format!(" room{}={:?} members{}={:?}", id, p.get_room(*id), id, p.get_user_in_room(*id));
    }
    for w in who {
        out += &format!(" dep{}={:?}", w, p.get_deposit(*w));
    }
    out += &format!(" events={:?}", p.events());
    out
}

#[test]
fn ids_increase_from_one() {
    let mut p = Pallet::new();
    assert_eq!(p.room_id(), 0);
    for expected in 1..=20u32 {
        let id = p.create_new_room(100 + expected as u64, 5, 10);
        assert_eq!(id, expected);
        assert_eq!(p.room_id(), expected);
        assert_eq!(p.get_room(id).unwrap().id_room, expected);
    }
}

#[test]
fn ids_keep_increasing_across_joins() {
    let mut p = Pallet::new();
    assert_eq!(p.create_new_room(A, 10, 100), 1);
    assert_eq!(p.join_room(B, 1, 50, 0), Ok(()));
    assert_eq!(p.create_new_room(C, 3, 7), 2);
    assert_eq!(p.join_room(D, 9, 50, 0), Err(Error::RoomNotExist));
    assert_eq!(p.create_new_room(E, 3, 7), 3);
}

#[test]
fn create_room_records_creator() {
    let mut p = Pallet::new();
    let id = p.create_new_room(A, 10, 100);
    assert_eq!(id, 1);
    assert_eq!(p.get_user_in_room(id).unwrap(), &vec![A]);
    assert_eq!(p.get_deposit(A), Some(100));
    let room = p.get_room(id).unwrap();
    assert_eq!(room.status, RoomStatus::Created);
    assert_eq!(room.end_date, 0);
    assert_eq!(room.creator, A);
    assert_eq!(room.num_days, 10);
    assert_eq!(room.total_value, 100);
    assert!(!room.is_started());
    assert!(!room.is_ended());
    assert_eq!(p.events(), &vec![Event::CreateRoom { id_room: 1, creator: A }]);
}

#[test]
fn create_room_overwrites_deposit() {
    let mut p = Pallet::new();
    p.create_new_room(A, 10, 100);
    let id = p.create_new_room(A, 2, 30);
    assert_eq!(id, 2);
    assert_eq!(p.get_deposit(A), Some(30));
    assert_eq!(p.get_user_in_room(1).unwrap(), &vec![A]);
    assert_eq!(p.get_user_in_room(2).unwrap(), &vec![A]);
}

#[test]
fn depositor_cannot_join_any_room() {
    let mut p = Pallet::new();
    p.create_new_room(A, 10, 100);
    p.create_new_room(B, 10, 100);
    assert_eq!(p.join_room(C, 1, 50, 0), Ok(()));
    assert_eq!(p.join_room(C, 1, 50, 0), Err(Error::UserAlreadyJoined));
    assert_eq!(p.join_room(C, 2, 50, 0), Err(Error::UserAlreadyJoined));
    assert_eq!(p.join_room(A, 2, 50, 0), Err(Error::UserAlreadyJoined));
    assert_eq!(p.join_room(A, 1, 50, 0), Err(Error::UserAlreadyJoined));
}

#[test]
fn join_next_unallocated_id_fails() {
    let mut p = Pallet::new();
    assert_eq!(p.join_room(B, 1, 50, 0), Err(Error::RoomNotExist));
    p.create_new_room(A, 10, 100);
    p.create_new_room(C, 10, 100);
    assert_eq!(p.join_room(B, 3, 50, 0), Err(Error::RoomNotExist));
    assert_eq!(p.join_room(B, u32::MAX, 50, 0), Err(Error::RoomNotExist));
}

#[test]
fn join_room_zero_fails() {
    let mut p = Pallet::new();
    p.create_new_room(A, 10, 100);
    assert_eq!(p.join_room(B, 0, 50, 0), Err(Error::RoomNotExist));
    assert_eq!(p.get_deposit(B), None);
}

#[test]
fn unallocated_id_is_checked_before_deposit() {
    let mut p = Pallet::new();
    p.create_new_room(A, 10, 100);
    assert_eq!(p.join_room(A, 2, 50, 0), Err(Error::RoomNotExist));
}

#[test]
fn four_members_activate_room() {
    let mut p = Pallet::new();
    let id = p.create_new_room(A, 10, 100);
    assert_eq!(id, 1);
    assert_eq!(p.get_user_in_room(1).unwrap(), &vec![A]);

    assert_eq!(p.join_room(B, 1, 50, 1_000), Ok(()));
    assert_eq!(p.get_user_in_room(1).unwrap(), &vec![A, B]);
    assert_eq!(p.get_room(1).unwrap().status, RoomStatus::Created);

    assert_eq!(p.join_room(C, 1, 50, 2_000), Ok(()));
    assert_eq!(p.get_user_in_room(1).unwrap(), &vec![A, B, C]);
    assert_eq!(p.get_room(1).unwrap().status, RoomStatus::Created);
    assert_eq!(p.get_room(1).unwrap().end_date, 0);

    let now: u64 = 1_700_000_000_000;
    assert_eq!(p.join_room(D, 1, 50, now), Ok(()));
    assert_eq!(p.get_user_in_room(1).unwrap(), &vec![A, B, C, D]);
    let room = p.get_room(1).unwrap();
    assert_eq!(room.status, RoomStatus::Active);
    assert_eq!(room.end_date, now + 10 * 86_400_000);
    assert_eq!(room.end_date, 1_700_864_000_000);
    assert_eq!(room.total_value, 100);
    assert!(room.is_started());
    assert!(!room.is_ended());
    assert_eq!(p.get_deposit(B), Some(50));
    assert_eq!(p.get_deposit(C), Some(50));
    assert_eq!(p.get_deposit(D), Some(50));
    assert_eq!(
        p.events(),
        &vec![
            Event::CreateRoom { id_room: 1, creator: A },
            Event::JoinRoom { id_room: 1, user: B, deposit_amount: 50 },
            Event::JoinRoom { id_room: 1, user: C, deposit_amount: 50 },
            Event::JoinRoom { id_room: 1, user: D, deposit_amount: 50 },
        ]
    );
}

#[test]
fn join_after_activation_fails() {
    let mut p = Pallet::new();
    p.create_new_room(A, 10, 100);
    p.join_room(B, 1, 50, 0).unwrap();
    p.join_room(C, 1, 50, 0).unwrap();
    p.join_room(D, 1, 50, 0).unwrap();
    assert_eq!(p.join_room(E, 1, 50, 0), Err(Error::RoomAlreadyStarted));
    assert_eq!(p.join_room(E, 1, 50, 0), Err(Error::RoomAlreadyStarted));
    assert_eq!(p.join_room(D, 1, 50, 0), Err(Error::UserAlreadyJoined));
    assert_eq!(p.get_user_in_room(1).unwrap().len(), 4);
    assert_eq!(p.get_deposit(E), None);
}

#[test]
fn rejected_joins_change_nothing() {
    let mut p = Pallet::new();
    p.create_new_room(A, 10, 100);
    p.create_new_room(E, 1, 1);
    p.join_room(B, 1, 50, 0).unwrap();
    p.join_room(C, 1, 50, 0).unwrap();
    p.join_room(D, 1, 50, 5).unwrap();
    let ids = [0u32, 1, 2, 3];
    let who = [A, B, C, D, E, 6];
    let before = snapshot(&p, &ids, &who);
    assert_eq!(p.join_room(6, 3, 50, 9), Err(Error::RoomNotExist));
    assert_eq!(p.join_room(6, 0, 50, 9), Err(Error::RoomNotExist));
    assert_eq!(p.join_room(B, 2, 50, 9), Err(Error::UserAlreadyJoined));
    assert_eq!(p.join_room(6, 1, 50, 9), Err(Error::RoomAlreadyStarted));
    assert_eq!(snapshot(&p, &ids, &who), before);
}

#[test]
fn rooms_fill_independently() {
    let mut p = Pallet::new();
    p.create_new_room(A, 1, 100);
    p.create_new_room(B, 2, 100);
    p.join_room(C, 2, 10, 0).unwrap();
    p.join_room(D, 1, 10, 0).unwrap();
    assert_eq!(p.get_user_in_room(1).unwrap(), &vec![A, D]);
    assert_eq!(p.get_user_in_room(2).unwrap(), &vec![B, C]);
}

#[test]
fn end_of_term_values() {
    assert_eq!(end_of_term(0, 0), 0);
    assert_eq!(end_of_term(5, 1), 5 + MS_PER_DAY);
    assert_eq!(end_of_term(1_000, 10), 864_001_000);
    assert_eq!(end_of_term(u64::MAX - 1, 1), u64::MAX);
    assert_eq!(end_of_term(0, u64::MAX), u64::MAX);
    assert_eq!(end_of_term(1, u64::MAX / MS_PER_DAY), 1 + (u64::MAX / MS_PER_DAY) * MS_PER_DAY);
}

#[test]
fn activation_saturates_end_date() {
    let mut p = Pallet::new();
    p.create_new_room(A, u64::MAX, 100);
    p.join_room(B, 1, 50, 7).unwrap();
    p.join_room(C, 1, 50, 7).unwrap();
    p.join_room(D, 1, 50, 7).unwrap();
    assert_eq!(p.get_room(1).unwrap().end_date, u64::MAX);
}
