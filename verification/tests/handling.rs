use std::collections::HashMap;
use std::collections::HashSet;

use web_socket_server::handlers::fresh_object_ids;
use web_socket_server::{
    apply_client_message, handle_authenticated_client_message, object_id_to_hex, Canvas,
    ClientError, ClientSocketMessage, ClientState, ServerSocketMessage, ShapeModel,
    SharedWhiteboardEntry, UtcDateTime, Whiteboard, WhiteboardDiff, WhiteboardPermission,
    WhiteboardPermissionEnum, WhiteboardPermissionType,
};

const CANVAS_A: u128 = 0x68d5e8d4829da666aece5f4eu128;
const EDITOR: u128 = 0x68d5e8d4829da666aece5f48u128;
const VIEWER: u128 = 0x68d5e8d4829da666aece5f49u128;

fn rect(x: f64, y: f64) -> ShapeModel {
    ShapeModel::Rect {
        x: x.to_bits(),
        y: y.to_bits(),
        width: 64.0f64.to_bits(),
        height: 64.0f64.to_bits(),
        stroke_width: 1.0f64.to_bits(),
        stroke_color: String::from("#333333"),
        fill_color: String::from("#ff0000"),
    }
}

fn instant() -> UtcDateTime {
    UtcDateTime::from_timestamp(1_754_050_200, 0).unwrap()
}

fn empty_canvas(id: u128) -> Canvas {
    Canvas {
        id,
        next_shape_id_base: 0,
        width: 512,
        height: 512,
        name: String::from("Canvas A"),
        time_created: instant(),
        time_last_modified: instant(),
        shapes: HashMap::new(),
        allowed_users: None,
    }
}

fn session_with(canvases: Vec<Canvas>) -> SharedWhiteboardEntry {
    let whiteboard = Whiteboard {
        id: 0x68d5e8d4829da666aece5f4cu128,
        name: String::from("Test"),
        canvases: canvases.into_iter().map(|c| (c.id, c)).collect(),
        owner_id: 0x68d5e8cf829da666aece5f47u128,
        shared_users: vec![
            WhiteboardPermission {
                permission_type: WhiteboardPermissionType::User { user: EDITOR },
                permission: WhiteboardPermissionEnum::Edit,
            },
            WhiteboardPermission {
                permission_type: WhiteboardPermissionType::User { user: VIEWER },
                permission: WhiteboardPermissionEnum::View,
            },
        ],
        permissions_by_user_id: HashMap::from([
            (EDITOR, WhiteboardPermissionEnum::Edit),
            (VIEWER, WhiteboardPermissionEnum::View),
        ]),
    };
    SharedWhiteboardEntry::new(whiteboard)
}

fn client(tier: Option<WhiteboardPermissionEnum>) -> ClientState {
    ClientState { client_id: 0, jwt_secret: String::from("abcd"), user_whiteboard_permission: tier }
}

fn float_of(bits: u64) -> f64 {
    f64::from_bits(bits)
}

#[test]
fn handle_invalid_client_message() {
    let test_client_id = 0;
    let client_msg_s = "This is not valid json";
    let client_state = client(None);
    let mut session = session_with(vec![]);

    let resp = handle_authenticated_client_message(&client_state, &mut session, client_msg_s, None);

    match resp {
        None => panic!("Expected some client message, got None"),
        Some(server_msg) => match server_msg {
            ServerSocketMessage::IndividualError { client_id, error } => {
                if client_id != test_client_id {
                    panic!("Expected client_id = {}; got {}", test_client_id, client_id);
                }
                assert_eq!(
                    error,
                    ClientError::InvalidMessage {
                        client_message_raw: String::from("This is not valid json")
                    }
                );
            }
            _ => panic!("Expected ServerSocketMessage::IndividualError, got {:?}", server_msg),
        },
    };
    assert!(session.diffs.is_empty());
    assert!(session.whiteboard.canvases.is_empty());
}

#[test]
fn handle_authenticated_client_message_create_shapes() {
    let f64_prec: f64 = 1.0e-16;
    let test_client_id = 0;
    let shapes_expected = vec![rect(100.0, 100.0), rect(200.0, 200.0), rect(300.0, 300.0)];
    let client_msg = ClientSocketMessage::CreateShapes {
        canvas_id: CANVAS_A,
        shapes: vec![rect(100.0, 100.0), rect(200.0, 200.0), rect(300.0, 300.0)],
    };
    let client_state = client(Some(WhiteboardPermissionEnum::Own));
    let mut session = session_with(vec![empty_canvas(CANVAS_A)]);

    let resp = handle_authenticated_client_message(
        &client_state,
        &mut session,
        "create_shapes",
        Some(client_msg),
    );

    match resp {
        None => panic!("Expected some client message, got None"),
        Some(server_msg) => match server_msg {
            ServerSocketMessage::CreateShapes { client_id, canvas_id, shapes } => {
                if client_id != test_client_id {
                    panic!("Expected client_id = {}; got {}", test_client_id, client_id);
                } else if canvas_id != object_id_to_hex(CANVAS_A) {
                    panic!("Expected canvas_id = {}; got {}", object_id_to_hex(CANVAS_A), canvas_id);
                } else if shapes.len() != shapes_expected.len() {
                    panic!(
                        "Expected shapes map to contain {} items; got {}",
                        shapes_expected.len(),
                        shapes.len()
                    );
                } else {
                    for (shape_entry, shape_expected) in shapes.iter().zip(shapes_expected.iter()) {
                        let (_, shape) = shape_entry;
                        match (shape, shape_expected) {
                            (
                                ShapeModel::Rect {
                                    x,
                                    y,
                                    width,
                                    height,
                                    stroke_width,
                                    stroke_color,
                                    fill_color,
                                },
                                ShapeModel::Rect {
                                    x: x_exp,
                                    y: y_exp,
                                    width: width_exp,
                                    height: height_exp,
                                    stroke_width: stroke_width_exp,
                                    stroke_color: stroke_color_exp,
                                    fill_color: fill_color_exp,
                                },
                            ) => {
                                if (float_of(*x) - float_of(*x_exp)).abs() > f64_prec {
                                    panic!("Expected shape x = {}; got {}", x, x_exp);
                                }
                                if (float_of(*y) - float_of(*y_exp)).abs() > f64_prec {
                                    panic!("Expected shape y = {}; got {}", y, y_exp);
                                }
                                if (float_of(*width) - float_of(*width_exp)).abs() > f64_prec {
                                    panic!("Expected shape width = {}; got {}", width, width_exp);
                                }
                                if (float_of(*height) - float_of(*height_exp)).abs() > f64_prec {
                                    panic!("Expected shape height = {}; got {}", height, height_exp);
                                }
                                if (float_of(*stroke_width) - float_of(*stroke_width_exp)).abs()
                                    > f64_prec
                                {
                                    panic!(
                                        "Expected shape stroke_width = {}; got {}",
                                        stroke_width, stroke_width_exp
                                    );
                                }
                                if stroke_color != stroke_color_exp {
                                    panic!(
                                        "Expected shape stroke_color = {}; got {}",
                                        stroke_color, stroke_color_exp
                                    );
                                }
                                if fill_color != fill_color_exp {
                                    panic!(
                                        "Expected shape fill_color = {}; got {}",
                                        fill_color, fill_color_exp
                                    );
                                }
                            }
                            (_, _) => panic!("Expected Rect; got {:?}", shape),
                        };
                    }
                }
            }
            _ => panic!("Expected ServerSocketMessage::IndividualError, got {:?}", server_msg),
        },
    };
}

#[test]
fn create_shapes_broadcasts_two_rectangles_under_fresh_ids() {
    let client_state = client(Some(WhiteboardPermissionEnum::Edit));
    let mut session = session_with(vec![empty_canvas(CANVAS_A)]);
    let msg = ClientSocketMessage::CreateShapes {
        canvas_id: CANVAS_A,
        shapes: vec![rect(100.0, 100.0), rect(200.0, 200.0)],
    };

    let resp = handle_authenticated_client_message(&client_state, &mut session, "", Some(msg));

    let shapes = match resp {
        Some(ServerSocketMessage::CreateShapes { client_id, canvas_id, shapes }) => {
            assert_eq!(client_id, 0);
            assert_eq!(canvas_id, "68d5e8d4829da666aece5f4e");
            shapes
        }
        other => panic!("Expected CreateShapes, got {:?}", other),
    };
    assert_eq!(shapes.len(), 2);
    let keys: HashSet<&String> = shapes.iter().map(|(k, _)| k).collect();
    assert_eq!(keys.len(), 2);
    for (shape, (x_exp, y_exp)) in shapes.iter().map(|(_, s)| s).zip([(100.0f64, 100.0f64), (200.0, 200.0)]) {
        match shape {
            ShapeModel::Rect { x, y, width, height, stroke_width, stroke_color, fill_color } => {
                assert!((float_of(*x) - x_exp).abs() < 1e-9);
                assert!((float_of(*y) - y_exp).abs() < 1e-9);
                assert!((float_of(*width) - 64.0).abs() < 1e-9);
                assert!((float_of(*height) - 64.0).abs() < 1e-9);
                assert!((float_of(*stroke_width) - 1.0).abs() < 1e-9);
                assert_eq!(stroke_color, "#333333");
                assert_eq!(fill_color, "#ff0000");
            }
            other => panic!("Expected Rect; got {:?}", other),
        }
    }
    let canvas = session.whiteboard.canvases.get(&CANVAS_A).unwrap();
    assert_eq!(canvas.shapes.len(), 2);
    for (key, shape) in shapes.iter() {
        let id = web_socket_server::parse_object_id(key).unwrap();
        assert!(id < (1u128 << 96));
        assert_eq!(canvas.shapes.get(&id), Some(shape));
    }
    assert_eq!(session.diffs.len(), 1);
    match &session.diffs[0] {
        WhiteboardDiff::CreateShapes { canvas_id, shapes: recorded } => {
            assert_eq!(*canvas_id, CANVAS_A);
            assert_eq!(recorded.len(), 2);
            assert_eq!(object_id_to_hex(recorded[0].0), shapes[0].0);
            assert_eq!(object_id_to_hex(recorded[1].0), shapes[1].0);
        }
        other => panic!("Expected a CreateShapes diff, got {:?}", other),
    }
}

#[test]
fn create_shapes_with_given_ids_keeps_what_the_canvas_held() {
    let client_state = client(Some(WhiteboardPermissionEnum::Edit));
    let mut canvas = empty_canvas(CANVAS_A);
    canvas.shapes.insert(7, rect(1.0, 1.0));
    let mut session = session_with(vec![canvas]);
    let msg = ClientSocketMessage::CreateShapes {
        canvas_id: CANVAS_A,
        shapes: vec![rect(100.0, 100.0), rect(200.0, 200.0)],
    };

    let resp =
        apply_client_message(&client_state, &mut session, "", Some(msg), &vec![0xa1, 0xb2], instant());

    assert_eq!(
        resp,
        Some(ServerSocketMessage::CreateShapes {
            client_id: 0,
            canvas_id: String::from("68d5e8d4829da666aece5f4e"),
            shapes: vec![
                (String::from("0000000000000000000000a1"), rect(100.0, 100.0)),
                (String::from("0000000000000000000000b2"), rect(200.0, 200.0)),
            ],
        })
    );
    let canvas = session.whiteboard.canvases.get(&CANVAS_A).unwrap();
    assert_eq!(canvas.shapes.len(), 3);
    assert_eq!(canvas.shapes.get(&7), Some(&rect(1.0, 1.0)));
    assert_eq!(canvas.shapes.get(&0xa1), Some(&rect(100.0, 100.0)));
    assert_eq!(canvas.shapes.get(&0xb2), Some(&rect(200.0, 200.0)));
}

#[test]
fn create_shapes_on_a_missing_canvas_is_refused() {
    let client_state = client(Some(WhiteboardPermissionEnum::Edit));
    let mut session = session_with(vec![]);
    let msg = ClientSocketMessage::CreateShapes { canvas_id: CANVAS_A, shapes: vec![rect(1.0, 2.0)] };

    let resp = handle_authenticated_client_message(&client_state, &mut session, "", Some(msg));

    assert_eq!(
        resp,
        Some(ServerSocketMessage::IndividualError {
            client_id: 0,
            error: ClientError::CanvasNotFound {
                canvas_id: String::from("68d5e8d4829da666aece5f4e")
            },
        })
    );
    assert!(session.diffs.is_empty());
    assert!(session.whiteboard.canvases.is_empty());
}

#[test]
fn update_shapes_overwrites_present_ids_and_drops_the_rest() {
    let client_state = client(Some(WhiteboardPermissionEnum::Own));
    let mut canvas = empty_canvas(CANVAS_A);
    canvas.shapes.insert(0xa1, rect(1.0, 1.0));
    canvas.shapes.insert(0xb2, rect(2.0, 2.0));
    let mut session = session_with(vec![canvas]);
    let msg = ClientSocketMessage::UpdateShapes {
        canvas_id: CANVAS_A,
        shapes: vec![
            (String::from("0000000000000000000000a1"), rect(10.0, 10.0)),
            (String::from("0000000000000000000000c3"), rect(30.0, 30.0)),
            (String::from("not an id"), rect(40.0, 40.0)),
            (String::from("0000000000000000000000A1"), rect(11.0, 11.0)),
        ],
    };

    let resp = handle_authenticated_client_message(&client_state, &mut session, "", Some(msg));

    assert_eq!(
        resp,
        Some(ServerSocketMessage::UpdateShapes {
            client_id: 0,
            canvas_id: String::from("68d5e8d4829da666aece5f4e"),
            shapes: vec![
                (String::from("0000000000000000000000a1"), rect(10.0, 10.0)),
                (String::from("0000000000000000000000a1"), rect(11.0, 11.0)),
            ],
        })
    );
    let canvas = session.whiteboard.canvases.get(&CANVAS_A).unwrap();
    assert_eq!(canvas.shapes.len(), 2);
    assert_eq!(canvas.shapes.get(&0xa1), Some(&rect(11.0, 11.0)));
    assert_eq!(canvas.shapes.get(&0xb2), Some(&rect(2.0, 2.0)));
    assert_eq!(canvas.shapes.get(&0xc3), None);
    assert_eq!(session.diffs.len(), 1);
    match &session.diffs[0] {
        WhiteboardDiff::UpdateShapes { canvas_id, shapes } => {
            assert_eq!(*canvas_id, CANVAS_A);
            assert_eq!(shapes, &vec![(0xa1u128, rect(10.0, 10.0)), (0xa1u128, rect(11.0, 11.0))]);
        }
        other => panic!("Expected an UpdateShapes diff, got {:?}", other),
    }
}

#[test]
fn update_shapes_on_a_missing_canvas_is_refused() {
    let client_state = client(Some(WhiteboardPermissionEnum::Edit));
    let mut session = session_with(vec![]);
    let msg = ClientSocketMessage::UpdateShapes { canvas_id: 5, shapes: vec![] };

    let resp = handle_authenticated_client_message(&client_state, &mut session, "", Some(msg));

    assert_eq!(
        resp,
        Some(ServerSocketMessage::IndividualError {
            client_id: 0,
            error: ClientError::CanvasNotFound {
                canvas_id: String::from("000000000000000000000005")
            },
        })
    );
    assert!(session.diffs.is_empty());
}

#[test]
fn view_tier_may_not_create_a_canvas() {
    let client_state = client(Some(WhiteboardPermissionEnum::View));
    let mut session = session_with(vec![empty_canvas(CANVAS_A)]);
    let msg = ClientSocketMessage::CreateCanvas {
        width: 10,
        height: 20,
        name: String::from("New"),
        allowed_users: vec![],
    };

    let resp = handle_authenticated_client_message(&client_state, &mut session, "", Some(msg));

    assert_eq!(
        resp,
        Some(ServerSocketMessage::IndividualError {
            client_id: 0,
            error: ClientError::ActionForbidden { action: String::from("create_canvas") },
        })
    );
    assert_eq!(session.whiteboard.canvases.len(), 1);
    assert!(session.whiteboard.canvases.contains_key(&CANVAS_A));
    assert!(session.diffs.is_empty());
}

#[test]
fn a_connection_without_a_tier_is_forbidden_every_action() {
    let client_state = client(None);
    let mut session = session_with(vec![empty_canvas(CANVAS_A)]);
    let messages = vec![
        (ClientSocketMessage::CreateShapes { canvas_id: CANVAS_A, shapes: vec![] }, "create_shapes"),
        (ClientSocketMessage::UpdateShapes { canvas_id: CANVAS_A, shapes: vec![] }, "update_shapes"),
        (ClientSocketMessage::DeleteCanvases { canvas_ids: vec![CANVAS_A] }, "delete_canvases"),
        (ClientSocketMessage::Login { jwt: String::from("x") }, "login"),
        (
            ClientSocketMessage::UpdateCanvasAllowedUsers { canvas_id: CANVAS_A, allowed_users: vec![] },
            "update_canvas_allowed_users",
        ),
    ];
    for (msg, tag) in messages {
        let resp = handle_authenticated_client_message(&client_state, &mut session, "", Some(msg));
        assert_eq!(
            resp,
            Some(ServerSocketMessage::IndividualError {
                client_id: 0,
                error: ClientError::ActionForbidden { action: String::from(tag) },
            })
        );
    }
    assert_eq!(session.whiteboard.canvases.len(), 1);
    assert!(session.diffs.is_empty());
}

#[test]
fn a_second_login_is_answered_with_already_authorized() {
    let client_state = client(Some(WhiteboardPermissionEnum::Edit));
    let mut session = session_with(vec![]);
    let msg = ClientSocketMessage::Login { jwt: String::from("whatever") };

    let resp = handle_authenticated_client_message(&client_state, &mut session, "", Some(msg));

    assert_eq!(
        resp,
        Some(ServerSocketMessage::IndividualError {
            client_id: 0,
            error: ClientError::AlreadyAuthorized,
        })
    );
    assert!(session.diffs.is_empty());
}

#[test]
fn create_canvas_files_an_empty_canvas_under_the_fresh_id() {
    let client_state = client(Some(WhiteboardPermissionEnum::Edit));
    let mut session = session_with(vec![]);
    let msg = ClientSocketMessage::CreateCanvas {
        width: 800,
        height: 600,
        name: String::from("Canvas Alpha"),
        allowed_users: vec![EDITOR],
    };
    let now = UtcDateTime::from_timestamp(1_431_648_000, 0).unwrap();

    let resp = apply_client_message(&client_state, &mut session, "", Some(msg), &vec![0xc0ffee], now);

    match resp {
        Some(ServerSocketMessage::CreateCanvas { client_id, canvas }) => {
            assert_eq!(client_id, 0);
            assert_eq!(canvas.id, "000000000000000000c0ffee");
            assert_eq!(canvas.width, 800);
            assert_eq!(canvas.height, 600);
            assert_eq!(canvas.name, "Canvas Alpha");
            assert_eq!(canvas.time_created, "2015-05-15T00:00:00+00:00");
            assert_eq!(canvas.time_last_modified, "2015-05-15T00:00:00+00:00");
            assert!(canvas.shapes.is_empty());
            assert_eq!(canvas.allowed_users, vec![String::from("68d5e8d4829da666aece5f48")]);
        }
        other => panic!("Expected CreateCanvas, got {:?}", other),
    }
    let canvas = session.whiteboard.canvases.get(&0xc0ffee).unwrap();
    assert_eq!(canvas.id, 0xc0ffee);
    assert_eq!(canvas.time_created, now);
    assert_eq!(canvas.allowed_users, Some(HashSet::from([EDITOR])));
    assert!(canvas.shapes.is_empty());
    assert_eq!(session.diffs.len(), 1);
    match &session.diffs[0] {
        WhiteboardDiff::CreateCanvas { canvas_id, name, width, height, allowed_users } => {
            assert_eq!(*canvas_id, 0xc0ffee);
            assert_eq!(name, "Canvas Alpha");
            assert_eq!((*width, *height), (800, 600));
            assert_eq!(allowed_users, &vec![EDITOR]);
        }
        other => panic!("Expected a CreateCanvas diff, got {:?}", other),
    }
}

#[test]
fn create_canvas_draws_a_fresh_id_and_the_present_instant() {
    let client_state = client(Some(WhiteboardPermissionEnum::Own));
    let mut session = session_with(vec![]);
    let msg = ClientSocketMessage::CreateCanvas {
        width: 1,
        height: 2,
        name: String::from("n"),
        allowed_users: vec![],
    };

    let resp = handle_authenticated_client_message(&client_state, &mut session, "", Some(msg));

    let shown = match resp {
        Some(ServerSocketMessage::CreateCanvas { canvas, .. }) => canvas,
        other => panic!("Expected CreateCanvas, got {:?}", other),
    };
    assert_eq!(session.whiteboard.canvases.len(), 1);
    let (id, canvas) = session.whiteboard.canvases.iter().next().unwrap();
    assert_eq!(canvas.id, *id);
    assert_eq!(shown.id, object_id_to_hex(*id));
    assert_eq!(shown.time_created, canvas.time_created.to_rfc3339());
    assert!(canvas.time_created.timestamp() > 1_700_000_000);
}

#[test]
fn delete_canvases_passes_over_missing_ids() {
    let client_state = client(Some(WhiteboardPermissionEnum::Edit));
    let mut session = session_with(vec![empty_canvas(CANVAS_A), empty_canvas(0xb)]);
    let msg = ClientSocketMessage::DeleteCanvases { canvas_ids: vec![CANVAS_A, 0xdead] };

    let resp = handle_authenticated_client_message(&client_state, &mut session, "", Some(msg));

    assert_eq!(
        resp,
        Some(ServerSocketMessage::DeleteCanvases {
            client_id: 0,
            canvas_ids: vec![
                String::from("68d5e8d4829da666aece5f4e"),
                String::from("00000000000000000000dead"),
            ],
        })
    );
    assert_eq!(session.whiteboard.canvases.len(), 1);
    assert!(session.whiteboard.canvases.contains_key(&0xb));
    assert_eq!(session.diffs.len(), 1);
    match &session.diffs[0] {
        WhiteboardDiff::DeleteCanvases { canvas_ids } => {
            assert_eq!(canvas_ids, &vec![CANVAS_A, 0xdead]);
        }
        other => panic!("Expected a DeleteCanvases diff, got {:?}", other),
    }
}

#[test]
fn allowed_users_are_replaced_wholesale() {
    let client_state = client(Some(WhiteboardPermissionEnum::Edit));
    let mut canvas = empty_canvas(CANVAS_A);
    canvas.allowed_users = Some(HashSet::from([0x1]));
    let mut session = session_with(vec![canvas]);
    let msg = ClientSocketMessage::UpdateCanvasAllowedUsers {
        canvas_id: CANVAS_A,
        allowed_users: vec![EDITOR],
    };

    let resp = handle_authenticated_client_message(&client_state, &mut session, "", Some(msg));

    assert_eq!(
        resp,
        Some(ServerSocketMessage::UpdateCanvasAllowedUsers {
            client_id: 0,
            canvas_id: String::from("68d5e8d4829da666aece5f4e"),
            allowed_users: vec![String::from("68d5e8d4829da666aece5f48")],
        })
    );
    let canvas = session.whiteboard.canvases.get(&CANVAS_A).unwrap();
    assert_eq!(canvas.allowed_users, Some(HashSet::from([EDITOR])));
    assert_eq!(session.diffs.len(), 1);
}

#[test]
fn allowed_users_must_be_editors() {
    let client_state = client(Some(WhiteboardPermissionEnum::Edit));
    let mut session = session_with(vec![empty_canvas(CANVAS_A)]);

    let viewer = ClientSocketMessage::UpdateCanvasAllowedUsers {
        canvas_id: CANVAS_A,
        allowed_users: vec![EDITOR, VIEWER],
    };
    let resp = handle_authenticated_client_message(&client_state, &mut session, "", Some(viewer));
    assert_eq!(
        resp,
        Some(ServerSocketMessage::IndividualError {
            client_id: 0,
            error: ClientError::Other {
                message: String::from(
                    "User 68d5e8d4829da666aece5f49 does not have edit permission"
                ),
            },
        })
    );

    let stranger = ClientSocketMessage::UpdateCanvasAllowedUsers {
        canvas_id: CANVAS_A,
        allowed_users: vec![0xabc, VIEWER],
    };
    let resp = handle_authenticated_client_message(&client_state, &mut session, "", Some(stranger));
    assert_eq!(
        resp,
        Some(ServerSocketMessage::IndividualError {
            client_id: 0,
            error: ClientError::Other {
                message: String::from("User 000000000000000000000abc not found"),
            },
        })
    );
    assert_eq!(session.whiteboard.canvases.get(&CANVAS_A).unwrap().allowed_users, None);
    assert!(session.diffs.is_empty());
}

#[test]
fn allowed_users_of_a_missing_canvas_are_refused() {
    let client_state = client(Some(WhiteboardPermissionEnum::Edit));
    let mut session = session_with(vec![]);
    let msg = ClientSocketMessage::UpdateCanvasAllowedUsers {
        canvas_id: CANVAS_A,
        allowed_users: vec![EDITOR],
    };

    let resp = handle_authenticated_client_message(&client_state, &mut session, "", Some(msg));

    assert_eq!(
        resp,
        Some(ServerSocketMessage::IndividualError {
            client_id: 0,
            error: ClientError::CanvasNotFound {
                canvas_id: String::from("68d5e8d4829da666aece5f4e")
            },
        })
    );
    assert!(session.diffs.is_empty());
}

#[test]
fn fresh_ids_are_durable_ids_and_differ() {
    let ids = fresh_object_ids(50);
    assert_eq!(ids.len(), 50);
    let distinct: HashSet<u128> = ids.iter().copied().collect();
    assert_eq!(distinct.len(), 50);
    for id in ids {
        assert!(id < (1u128 << 96));
        assert!(id > 0);
    }
}

#[test]
fn messages_travel_under_their_tags() {
    assert_eq!(ClientSocketMessage::Login { jwt: String::new() }.type_tag(), "login");
    assert_eq!(
        ClientSocketMessage::CreateShapes { canvas_id: 0, shapes: vec![rect(0.0, 0.0)] }
            .fresh_ids_needed(),
        1
    );
    assert_eq!(ClientSocketMessage::DeleteCanvases { canvas_ids: vec![1, 2] }.fresh_ids_needed(), 0);
}

#[test]
fn individual_errors_reach_only_their_connection() {
    let error = ServerSocketMessage::IndividualError { client_id: 3, error: ClientError::Unauthorized };
    assert!(error.is_for(3));
    assert!(!error.is_for(4));
    let broadcast = ServerSocketMessage::BroadcastError { error: ClientError::Unauthorized };
    assert!(broadcast.is_for(3));
    assert!(broadcast.is_for(4));
    let deletion = ServerSocketMessage::DeleteCanvases { client_id: 3, canvas_ids: vec![] };
    assert!(deletion.is_for(4));
}
