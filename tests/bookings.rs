use hotel_booking::clock::Timestamp;
use hotel_booking::error::ApiError;
use hotel_booking::models::BookingStatus;
use hotel_booking::schemas::booking::BookingSchemaIn;
use hotel_booking::schemas::guests::GuestSchemaIn;
use hotel_booking::schemas::hotels::HotelSchemaIn;
use hotel_booking::schemas::rooms::RoomSchemaIn;
use hotel_booking::services::bookings::BookingService;
use hotel_booking::services::guests::GuestService;
use hotel_booking::services::hotels::HotelService;
use hotel_booking::services::rooms::RoomService;
use hotel_booking::store::{Database, EntityKind};
use rust_decimal::Decimal;

fn at(seconds: i64) -> Timestamp {
    Timestamp { seconds, nanos: 0, offset_seconds: 0 }
}

fn hotel() -> HotelSchemaIn {
    HotelSchemaIn {
        name: "Grand Hotel".to_string(),
        address: "123 Main Street".to_string(),
        rating_bits: 4.5f64.to_bits(),
        description: None,
    }
}

fn room(hotel_id: u128) -> RoomSchemaIn {
    RoomSchemaIn {
        hotel_id,
        room_number: "101".to_string(),
        room_type: "Deluxe".to_string(),
        price_per_night: Decimal::new(19999, 2),
        is_available: true,
    }
}

fn guest() -> GuestSchemaIn {
    GuestSchemaIn {
        first_name: "John".to_string(),
        last_name: "Doe".to_string(),
        email: "john.doe@example.com".to_string(),
        phone: None,
    }
}

fn booking(room_id: u128, guest_id: u128, status: BookingStatus) -> BookingSchemaIn {
    BookingSchemaIn {
        room_id,
        guest_id,
        check_in_date: at(1_704_895_200),
        check_out_date: at(1_705_316_400),
        total_price: Decimal::new(99995, 2),
        status,
    }
}

/// A hotel 1 with room 10, and a guest 20.
fn stocked() -> Database {
    let mut db = Database::new();
    HotelService::new().insert_hotel(&mut db, hotel(), 1, at(5)).unwrap();
    RoomService::new().insert_room(&mut db, room(1), 10, at(6)).unwrap();
    GuestService::new().insert_guest(&mut db, guest(), 20, at(7)).unwrap();
    db
}

#[test]
fn create_booking_with_unknown_guest_fails_naming_the_guest() {
    let mut db = stocked();
    let bookings = BookingService::new();
    let r = bookings.create_booking(&mut db, booking(10, 99, BookingStatus::Pending));
    assert_eq!(r, Err(ApiError::ParentNotFound(EntityKind::Guest, 99)));
    assert!(bookings.list_bookings(&db).is_empty());
}

#[test]
fn create_booking_with_unknown_room_fails_naming_the_room_first() {
    let mut db = stocked();
    let bookings = BookingService::new();
    let r = bookings.insert_booking(&mut db, booking(77, 99, BookingStatus::Pending), 30, at(8));
    assert_eq!(r, Err(ApiError::ParentNotFound(EntityKind::Room, 77)));
    assert!(bookings.list_bookings(&db).is_empty());
}

#[test]
fn create_booking_stores_the_input_verbatim() {
    let mut db = stocked();
    let bookings = BookingService::new();
    let b = bookings.insert_booking(&mut db, booking(10, 20, BookingStatus::Confirmed), 30, at(8)).unwrap();
    assert_eq!(b.id, 30);
    assert_eq!(b.room_id, 10);
    assert_eq!(b.guest_id, 20);
    assert_eq!(b.check_in_date, at(1_704_895_200));
    assert_eq!(b.check_out_date, at(1_705_316_400));
    assert_eq!(b.total_price.to_string(), "999.95");
    assert_eq!(b.status, BookingStatus::Confirmed);
    assert_eq!(b.created_at, at(8));
    assert_eq!(b.updated_at, None);
    assert_eq!(bookings.get_booking(&db, 30), Some(b));
}

#[test]
fn check_out_before_check_in_is_accepted() {
    let mut db = stocked();
    let bookings = BookingService::new();
    let mut req = booking(10, 20, BookingStatus::Pending);
    req.check_in_date = at(2_000);
    req.check_out_date = at(1_000);
    let b = bookings.create_booking(&mut db, req).unwrap();
    assert_eq!(b.check_out_date, at(1_000));
}

#[test]
fn any_status_may_follow_any_other() {
    let mut db = stocked();
    let bookings = BookingService::new();
    bookings.insert_booking(&mut db, booking(10, 20, BookingStatus::Pending), 30, at(8)).unwrap();
    let steps = [
        BookingStatus::Completed,
        BookingStatus::Pending,
        BookingStatus::Cancelled,
        BookingStatus::Confirmed,
    ];
    for (i, status) in steps.iter().enumerate() {
        let b = bookings.revise_booking(&mut db, 30, booking(10, 20, *status), at(100 + i as i64)).unwrap();
        assert_eq!(b.status, *status);
        assert_eq!(b.updated_at, Some(at(100 + i as i64)));
        assert_eq!(b.created_at, at(8));
    }
}

#[test]
fn update_booking_does_not_check_room_or_guest() {
    let mut db = stocked();
    let bookings = BookingService::new();
    bookings.insert_booking(&mut db, booking(10, 20, BookingStatus::Pending), 30, at(8)).unwrap();
    let b = bookings.update_booking(&mut db, 30, booking(555, 666, BookingStatus::Pending)).unwrap();
    assert_eq!(b.room_id, 555);
    assert_eq!(b.guest_id, 666);
    assert!(b.updated_at.is_some());
}

#[test]
fn update_of_unknown_booking_is_absent() {
    let mut db = stocked();
    let bookings = BookingService::new();
    assert_eq!(bookings.update_booking(&mut db, 31, booking(10, 20, BookingStatus::Pending)), None);
    assert!(bookings.list_bookings(&db).is_empty());
}

#[test]
fn bookings_by_unknown_guest_or_room_are_empty_not_errors() {
    let mut db = stocked();
    let bookings = BookingService::new();
    bookings.insert_booking(&mut db, booking(10, 20, BookingStatus::Pending), 30, at(8)).unwrap();
    assert!(bookings.get_guest_bookings(&db, 404).is_empty());
    assert!(bookings.get_room_bookings(&db, 404).is_empty());
    assert_eq!(bookings.get_guest_bookings(&db, 20).len(), 1);
}

#[test]
fn delete_booking_true_once_then_false() {
    let mut db = stocked();
    let bookings = BookingService::new();
    bookings.insert_booking(&mut db, booking(10, 20, BookingStatus::Pending), 30, at(8)).unwrap();
    assert!(!bookings.delete_booking(&mut db, 31));
    assert!(bookings.delete_booking(&mut db, 30));
    assert_eq!(bookings.get_booking(&db, 30), None);
    assert!(!bookings.delete_booking(&mut db, 30));
}

#[test]
fn deleting_a_hotel_does_not_cascade() {
    let mut db = Database::new();
    let hotels = HotelService::new();
    let rooms = RoomService::new();
    let guests = GuestService::new();
    let bookings = BookingService::new();
    let h = hotels.create_hotel(&mut db, hotel()).unwrap();
    let r = rooms.create_room(&mut db, room(h.id)).unwrap();
    let g = guests.create_guest(&mut db, guest()).unwrap();
    let b = bookings.create_booking(&mut db, booking(r.id, g.id, BookingStatus::Pending)).unwrap();
    assert_eq!(b.status, BookingStatus::Pending);
    let listed = bookings.get_room_bookings(&db, r.id);
    assert_eq!(listed.len(), 1);
    assert_eq!(listed[0], b);
    assert!(hotels.delete_hotel(&mut db, h.id));
    assert_eq!(rooms.get_room(&db, r.id), Some(r));
}

#[test]
fn deleting_a_guest_leaves_orphan_bookings_listed() {
    let mut db = stocked();
    let bookings = BookingService::new();
    bookings.insert_booking(&mut db, booking(10, 20, BookingStatus::Pending), 30, at(8)).unwrap();
    assert!(GuestService::new().delete_guest(&mut db, 20));
    let listed = bookings.get_guest_bookings(&db, 20);
    assert_eq!(listed.len(), 1);
    assert_eq!(listed[0].id, 30);
}
