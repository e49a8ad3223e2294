use std::collections::HashMap;
use std::collections::HashSet;

use web_socket_server::{
    assemble_whiteboard, plan_store_operations, CanvasMongoDBView, CanvasObject,
    CanvasObjectMongoDBView, ShapeModel, StoreOperation, UtcDateTime, WhiteboardDiff,
    WhiteboardMongoDBView, WhiteboardPermission, WhiteboardPermissionEnum,
    WhiteboardPermissionType,
};

fn rect(x: f64) -> ShapeModel {
    ShapeModel::Rect {
        x: x.to_bits(),
        y: 0.0f64.to_bits(),
        width: 64.0f64.to_bits(),
        height: 64.0f64.to_bits(),
        stroke_width: 1.0f64.to_bits(),
        stroke_color: String::from("#333333"),
        fill_color: String::from("#ff0000"),
    }
}

fn canvas_alpha() -> CanvasMongoDBView {
    CanvasMongoDBView {
        id: 0x68d5e8d4829da666aece5f4eu128,
        whiteboard_id: 0x68d5e8d4829da666aece5f4cu128,
        width: 800,
        height: 600,
        name: String::from("Canvas Alpha"),
        time_created: 1_754_050_200_000,
        time_last_modified: 1_754_827_800_000,
        allowed_users: None,
    }
}

fn project_alpha() -> WhiteboardMongoDBView {
    WhiteboardMongoDBView {
        id: 0x68d5e8d4829da666aece5f4cu128,
        name: String::from("Project Alpha"),
        owner_id: 0x68d5e8cf829da666aece5f47u128,
        shared_users: vec![],
    }
}

fn grant(user: u128, permission: WhiteboardPermissionEnum) -> WhiteboardPermission {
    WhiteboardPermission { permission_type: WhiteboardPermissionType::User { user }, permission }
}

#[test]
fn a_whiteboard_is_assembled_from_its_records() {
    let whiteboard_id = 0x68d5e8d4829da666aece5f4cu128;
    let canvas_id = 0x68d5e8d4829da666aece5f4eu128;

    let whiteboard =
        assemble_whiteboard(&project_alpha(), &vec![canvas_alpha()], &vec![vec![]]).unwrap();

    assert!(whiteboard.id == whiteboard_id);
    assert!(whiteboard.name == "Project Alpha");
    assert!(whiteboard.owner_id == 0x68d5e8cf829da666aece5f47u128);
    assert!(whiteboard.shared_users.len() == 0);
    assert!(whiteboard.canvases.len() == 1);
    assert!(whiteboard.canvases.contains_key(&canvas_id));

    let canvas = whiteboard.canvases.get(&canvas_id).unwrap();

    assert!(canvas.id == canvas_id);
    assert!(canvas.width == 800);
    assert!(canvas.height == 600);
    assert!(canvas.name.as_str() == "Canvas Alpha");
    let exp_time_created = UtcDateTime::from_timestamp(1754050200, 0).unwrap();
    let exp_time_last_modified = UtcDateTime::from_timestamp(1754827800, 0).unwrap();
    assert!(canvas.time_created == exp_time_created);
    assert!(canvas.time_last_modified == exp_time_last_modified);
    assert!(canvas.shapes.len() == 0);
    assert!(canvas.allowed_users.is_none());
}

#[test]
fn a_record_with_an_instant_out_of_range_gives_no_whiteboard() {
    let mut record = canvas_alpha();
    record.time_last_modified = i64::MAX;
    assert!(record.try_to_canvas(&[]).is_none());
    assert!(assemble_whiteboard(&project_alpha(), &vec![canvas_alpha(), record], &vec![vec![], vec![]])
        .is_none());
}

#[test]
fn a_canvas_record_takes_its_shapes_and_its_allow_list() {
    let mut record = canvas_alpha();
    record.allowed_users = Some(vec![1, 2, 1]);
    let objects = vec![
        CanvasObject { id: 5, shape: rect(1.0) },
        CanvasObject { id: 6, shape: rect(2.0) },
        CanvasObject { id: 5, shape: rect(3.0) },
    ];

    let canvas = record.to_canvas(&objects);

    assert_eq!(canvas.id, record.id);
    assert_eq!(canvas.next_shape_id_base, 0);
    assert_eq!(canvas.shapes.len(), 2);
    assert_eq!(canvas.shapes.get(&5), Some(&rect(3.0)));
    assert_eq!(canvas.shapes.get(&6), Some(&rect(2.0)));
    assert_eq!(canvas.allowed_users, Some(HashSet::from([1, 2])));
    assert_eq!(canvas.time_created.timestamp_millis(), 1_754_050_200_000);
}

#[test]
fn shape_records_and_objects_convert_both_ways() {
    let record = CanvasObjectMongoDBView { id: 5, canvas_id: 9, shape: rect(1.0) };
    let object = record.to_canvas_object();
    assert_eq!(object.id, 5);
    assert_eq!(object.shape, rect(1.0));
    let back = CanvasObjectMongoDBView::from_canvas_object(&object, &11);
    assert_eq!(back.id, 5);
    assert_eq!(back.canvas_id, 11);
    assert_eq!(back.shape, rect(1.0));
}

#[test]
fn the_index_of_tiers_follows_the_shared_users() {
    let mut record = project_alpha();
    record.shared_users = vec![
        grant(1, WhiteboardPermissionEnum::View),
        WhiteboardPermission {
            permission_type: WhiteboardPermissionType::Email {
                email: String::from("carol@example.com"),
            },
            permission: WhiteboardPermissionEnum::Own,
        },
        grant(2, WhiteboardPermissionEnum::Edit),
        grant(1, WhiteboardPermissionEnum::Own),
    ];

    let whiteboard = record.to_whiteboard(&[]);

    assert_eq!(whiteboard.shared_users, record.shared_users);
    assert_eq!(
        whiteboard.permissions_by_user_id,
        HashMap::from([(1, WhiteboardPermissionEnum::Own), (2, WhiteboardPermissionEnum::Edit)])
    );
    assert!(whiteboard.canvases.is_empty());
}

#[test]
fn of_two_canvases_with_one_id_the_later_stays() {
    let first = canvas_alpha().to_canvas(&[]);
    let mut second_record = canvas_alpha();
    second_record.name = String::from("Canvas Beta");
    let second = second_record.to_canvas(&[]);

    let whiteboard = project_alpha().to_whiteboard(&[first, second]);

    assert_eq!(whiteboard.canvases.len(), 1);
    assert_eq!(whiteboard.canvases.get(&canvas_alpha().id).unwrap().name, "Canvas Beta");
}

#[test]
fn each_diff_becomes_its_store_operations_in_order() {
    let whiteboard_id = 0x77;
    let diffs = vec![
        WhiteboardDiff::CreateCanvas {
            canvas_id: 1,
            name: String::from("c"),
            width: 3,
            height: 4,
            allowed_users: vec![8],
        },
        WhiteboardDiff::CreateShapes { canvas_id: 1, shapes: vec![(10, rect(1.0)), (11, rect(2.0))] },
        WhiteboardDiff::UpdateShapes { canvas_id: 1, shapes: vec![(10, rect(5.0))] },
        WhiteboardDiff::UpdateCanvasAllowedUsers { canvas_id: 1, allowed_users: vec![8, 9] },
        WhiteboardDiff::DeleteCanvases { canvas_ids: vec![1, 2] },
    ];

    let ops = plan_store_operations(whiteboard_id, &diffs);

    assert_eq!(ops.len(), 6);
    match &ops[0] {
        StoreOperation::CreateCanvas { canvas_id, whiteboard_id, name, width, height, allowed_users } => {
            assert_eq!((*canvas_id, *whiteboard_id), (1, 0x77));
            assert_eq!(name, "c");
            assert_eq!((*width, *height), (3, 4));
            assert_eq!(allowed_users, &vec![8]);
        }
        other => panic!("unexpected operation {:?}", other),
    }
    match &ops[1] {
        StoreOperation::InsertShape { object } => {
            assert_eq!((object.id, object.canvas_id), (10, 1));
            assert_eq!(object.shape, rect(1.0));
        }
        other => panic!("unexpected operation {:?}", other),
    }
    match &ops[2] {
        StoreOperation::InsertShape { object } => {
            assert_eq!((object.id, object.canvas_id), (11, 1));
            assert_eq!(object.shape, rect(2.0));
        }
        other => panic!("unexpected operation {:?}", other),
    }
    match &ops[3] {
        StoreOperation::ReplaceShape { object } => {
            assert_eq!((object.id, object.canvas_id), (10, 1));
            assert_eq!(object.shape, rect(5.0));
        }
        other => panic!("unexpected operation {:?}", other),
    }
    match &ops[4] {
        StoreOperation::UpdateCanvasAllowedUsers { canvas_id, allowed_users } => {
            assert_eq!(*canvas_id, 1);
            assert_eq!(allowed_users, &vec![8, 9]);
        }
        other => panic!("unexpected operation {:?}", other),
    }
    match &ops[5] {
        StoreOperation::DeleteCanvases { canvas_ids } => {
            assert_eq!(canvas_ids, &vec![1, 2]);
        }
        other => panic!("unexpected operation {:?}", other),
    }
}

#[test]
fn no_diff_no_operation() {
    assert!(plan_store_operations(1, &vec![]).is_empty());
    let nothing = vec![
        WhiteboardDiff::CreateShapes { canvas_id: 1, shapes: vec![] },
        WhiteboardDiff::UpdateShapes { canvas_id: 1, shapes: vec![] },
    ];
    assert!(plan_store_operations(1, &nothing).is_empty());
}
