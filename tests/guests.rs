use hotel_booking::clock::Timestamp;
use hotel_booking::schemas::guests::GuestSchemaIn;
use hotel_booking::services::guests::GuestService;
use hotel_booking::store::Database;

fn at(seconds: i64) -> Timestamp {
    Timestamp { seconds, nanos: 0, offset_seconds: 0 }
}

fn john(phone: Option<&str>) -> GuestSchemaIn {
    GuestSchemaIn {
        first_name: "John".to_string(),
        last_name: "Doe".to_string(),
        email: "john.doe@example.com".to_string(),
        phone: phone.map(|p| p.to_string()),
    }
}

#[test]
fn create_then_get_guest_returns_the_input() {
    let mut db = Database::new();
    let guests = GuestService::new();
    let g = guests.create_guest(&mut db, john(Some("+1234567890"))).unwrap();
    let got = guests.get_guest(&db, g.id).unwrap();
    assert_eq!(got, g);
    assert_eq!(got.first_name, "John");
    assert_eq!(got.last_name, "Doe");
    assert_eq!(got.email, "john.doe@example.com");
    assert_eq!(got.phone, "+1234567890");
    assert_eq!(got.updated_at, None);
}

#[test]
fn a_missing_phone_shows_as_empty_text() {
    let mut db = Database::new();
    let guests = GuestService::new();
    let g = guests.insert_guest(&mut db, john(None), 5, at(10)).unwrap();
    assert_eq!(g.phone, "");
    assert_eq!(g.id, 5);
    assert_eq!(g.created_at, at(10));
    assert_eq!(db.guests.find(5).unwrap().phone, None);
}

#[test]
fn list_guests_shows_every_guest_in_order() {
    let mut db = Database::new();
    let guests = GuestService::new();
    guests.insert_guest(&mut db, john(None), 5, at(10)).unwrap();
    guests.insert_guest(&mut db, john(Some("555")), 6, at(11)).unwrap();
    let all = guests.list_guests(&db);
    assert_eq!(all.len(), 2);
    assert_eq!(all[0].id, 5);
    assert_eq!(all[0].phone, "");
    assert_eq!(all[1].phone, "555");
}

#[test]
fn update_guest_replaces_fields_and_clears_an_omitted_phone() {
    let mut db = Database::new();
    let guests = GuestService::new();
    guests.insert_guest(&mut db, john(Some("555")), 5, at(10)).unwrap();
    let mut req = john(None);
    req.email = "jd@example.org".to_string();
    let g = guests.revise_guest(&mut db, 5, req, at(20)).unwrap();
    assert_eq!(g.email, "jd@example.org");
    assert_eq!(g.phone, "");
    assert_eq!(g.created_at, at(10));
    assert_eq!(g.updated_at, Some(at(20)));
    assert_eq!(db.guests.find(5).unwrap().phone, None);
}

#[test]
fn update_of_unknown_guest_is_absent() {
    let mut db = Database::new();
    let guests = GuestService::new();
    guests.insert_guest(&mut db, john(None), 5, at(10)).unwrap();
    assert_eq!(guests.update_guest(&mut db, 6, john(Some("1"))), None);
    assert_eq!(guests.get_guest(&db, 5).unwrap().updated_at, None);
}

#[test]
fn delete_guest_true_once_then_false() {
    let mut db = Database::new();
    let guests = GuestService::new();
    guests.insert_guest(&mut db, john(None), 5, at(10)).unwrap();
    assert!(!guests.delete_guest(&mut db, 6));
    assert!(guests.delete_guest(&mut db, 5));
    assert_eq!(guests.get_guest(&db, 5), None);
    assert!(!guests.delete_guest(&mut db, 5));
}
