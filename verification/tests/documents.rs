use std::collections::HashMap;
use std::collections::HashSet;

use web_socket_server::{
    Canvas, ShapeModel, User, UserClientView, UserMongoDBView, UtcDateTime, Whiteboard,
    WhiteboardPermissionEnum, InvalidObjectId, object_id_to_hex,
};

fn ellipse() -> ShapeModel {
    ShapeModel::Ellipse {
        x: 1.5f64.to_bits(),
        y: 2.5f64.to_bits(),
        radius_x: 3.0f64.to_bits(),
        radius_y: 4.0f64.to_bits(),
        stroke_width: 1.0f64.to_bits(),
        stroke_color: String::from("#000000"),
        fill_color: String::from("#ffffff"),
    }
}

fn vector() -> ShapeModel {
    ShapeModel::Vector {
        points: vec![0.0f64.to_bits(), 1.0f64.to_bits(), 2.0f64.to_bits(), 3.0f64.to_bits()],
        stroke_width: 2.0f64.to_bits(),
        stroke_color: String::from("#123456"),
    }
}

fn text() -> ShapeModel {
    ShapeModel::Text {
        font_size: 12,
        color: String::from("#654321"),
        x: 0.0f64.to_bits(),
        y: 0.0f64.to_bits(),
        width: 100.0f64.to_bits(),
        height: 20.0f64.to_bits(),
    }
}

fn canvas(id: u128, name: &str) -> Canvas {
    Canvas {
        id,
        next_shape_id_base: 0,
        width: 800,
        height: 600,
        name: String::from(name),
        time_created: UtcDateTime::from_timestamp(1_754_050_200, 0).unwrap(),
        time_last_modified: UtcDateTime::from_timestamp(1_754_827_800, 0).unwrap(),
        shapes: HashMap::new(),
        allowed_users: None,
    }
}

#[test]
fn a_shape_and_its_copy_are_equal() {
    for shape in [ellipse(), vector(), text()] {
        assert_eq!(shape.duplicate(), shape);
    }
}

#[test]
fn an_open_canvas_shows_no_allowed_users() {
    let view = canvas(0x68d5e8d4829da666aece5f4eu128, "Canvas Alpha").to_client_view();
    assert_eq!(view.id, "68d5e8d4829da666aece5f4e");
    assert_eq!(view.width, 800);
    assert_eq!(view.height, 600);
    assert_eq!(view.name, "Canvas Alpha");
    assert_eq!(view.time_created, "2025-08-01T12:10:00+00:00");
    assert_eq!(view.time_last_modified, "2025-08-10T12:10:00+00:00");
    assert!(view.shapes.is_empty());
    assert!(view.allowed_users.is_empty());
}

#[test]
fn a_canvas_shows_each_shape_and_each_allowed_user_once() {
    let mut c = canvas(1, "c");
    c.shapes.insert(0xa, ellipse());
    c.shapes.insert(0xb, vector());
    c.shapes.insert(0xc, text());
    c.allowed_users = Some(HashSet::from([0x10, 0x20]));

    let view = c.to_client_view();

    let shown: HashMap<String, ShapeModel> = view.shapes.iter().cloned().collect();
    assert_eq!(view.shapes.len(), 3);
    assert_eq!(shown.len(), 3);
    assert_eq!(shown.get("00000000000000000000000a"), Some(&ellipse()));
    assert_eq!(shown.get("00000000000000000000000b"), Some(&vector()));
    assert_eq!(shown.get("00000000000000000000000c"), Some(&text()));
    let mut users = view.allowed_users.clone();
    users.sort();
    assert_eq!(
        users,
        vec![String::from("000000000000000000000010"), String::from("000000000000000000000020")]
    );
}

#[test]
fn a_canvas_and_its_copy_show_the_same() {
    let mut c = canvas(1, "c");
    c.shapes.insert(0xa, ellipse());
    c.allowed_users = Some(HashSet::from([0x10]));
    let copy = c.duplicate();
    assert_eq!(copy.id, c.id);
    assert_eq!(copy.name, c.name);
    assert_eq!(copy.shapes, c.shapes);
    assert_eq!(copy.allowed_users, c.allowed_users);
    assert_eq!(copy.to_client_view(), c.to_client_view());
}

#[test]
fn a_whiteboard_shows_each_canvas_once() {
    let whiteboard = Whiteboard {
        id: 0x68d5e8d4829da666aece5f4cu128,
        name: String::from("Project Alpha"),
        canvases: HashMap::from([(1, canvas(1, "one")), (2, canvas(2, "two"))]),
        owner_id: 9,
        shared_users: vec![],
        permissions_by_user_id: HashMap::new(),
    };

    let view = whiteboard.to_client_view();

    assert_eq!(view.id, "68d5e8d4829da666aece5f4c");
    assert_eq!(view.name, "Project Alpha");
    assert_eq!(view.canvases.len(), 2);
    let mut names: Vec<(String, String)> =
        view.canvases.iter().map(|c| (c.id.clone(), c.name.clone())).collect();
    names.sort();
    assert_eq!(
        names,
        vec![
            (String::from("000000000000000000000001"), String::from("one")),
            (String::from("000000000000000000000002"), String::from("two")),
        ]
    );
}

#[test]
fn put_shapes_lets_the_later_entry_stay() {
    let mut c = canvas(1, "c");
    c.put_shapes(&vec![(5, ellipse()), (6, vector()), (5, text())]);
    assert_eq!(c.shapes.len(), 2);
    assert_eq!(c.shapes.get(&5), Some(&text()));
    assert_eq!(c.shapes.get(&6), Some(&vector()));
}

#[test]
fn a_whiteboard_knows_the_tier_of_each_account() {
    let whiteboard = Whiteboard {
        id: 1,
        name: String::new(),
        canvases: HashMap::new(),
        owner_id: 9,
        shared_users: vec![],
        permissions_by_user_id: HashMap::from([(7, WhiteboardPermissionEnum::Own)]),
    };
    assert_eq!(whiteboard.permission_of(7), Some(WhiteboardPermissionEnum::Own));
    assert_eq!(whiteboard.permission_of(8), None);
    assert!(!whiteboard.has_canvas(1));
}

#[test]
fn only_edit_and_own_may_change_the_document() {
    assert!(!WhiteboardPermissionEnum::View.can_edit());
    assert!(WhiteboardPermissionEnum::Edit.can_edit());
    assert!(WhiteboardPermissionEnum::Own.can_edit());
}

#[test]
fn a_user_goes_to_the_client_view_and_back() {
    let user = User {
        id: 0x68d5e8cf829da666aece5f47u128,
        username: String::from("alice"),
        email: String::from("alice@example.com"),
    };
    let view = UserClientView::from_user(&user);
    assert_eq!(view.id, "68d5e8cf829da666aece5f47");
    assert_eq!(view.username, "alice");
    assert_eq!(view.email, "alice@example.com");
    assert_eq!(view.to_user(), Ok(user.clone()));
    let record = UserMongoDBView::from_user(&user);
    assert_eq!(record.id, user.id);
    assert_eq!(record.to_user(), user);
}

#[test]
fn a_client_view_with_a_bad_id_names_no_user() {
    let view = UserClientView {
        id: String::from("alice"),
        username: String::from("alice"),
        email: String::from("alice@example.com"),
    };
    assert_eq!(view.to_user(), Err(InvalidObjectId));
}

#[test]
fn the_text_of_an_id_has_24_lower_case_digits() {
    assert_eq!(object_id_to_hex(0), "000000000000000000000000");
    assert_eq!(object_id_to_hex(0xABCDEF), "000000000000000000abcdef");
    assert_eq!(object_id_to_hex((1u128 << 96) - 1), "ffffffffffffffffffffffff");
    assert_eq!(object_id_to_hex(0x0123456789abcdef01234567u128), "0123456789abcdef01234567");
}

#[test]
fn an_open_canvas_admits_editors_and_a_listed_one_its_list() {
    let mut c = canvas(1, "c");
    assert!(c.admits(7, WhiteboardPermissionEnum::Edit));
    assert!(c.admits(7, WhiteboardPermissionEnum::Own));
    assert!(!c.admits(7, WhiteboardPermissionEnum::View));
    c.allowed_users = Some(HashSet::from([7]));
    assert!(c.admits(7, WhiteboardPermissionEnum::View));
    assert!(c.admits(7, WhiteboardPermissionEnum::Edit));
    assert!(!c.admits(8, WhiteboardPermissionEnum::Own));
    c.allowed_users = Some(HashSet::new());
    assert!(!c.admits(7, WhiteboardPermissionEnum::Own));
}
