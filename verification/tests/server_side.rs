use chat_app::data::{
    ClientNetworkData, PeerAddr, PeerTicket, RoomData, ServerLocalData, ServerNetworkData,
    UserMessageData,
};
use chat_app::room_list::RoomList;
use chat_app::server::app::{
    handle_create_room_request, App, AppAction, History, HistoryRequest, MessageOutcome,
    MESSAGE_HISTORY_LIMIT,
};
use chat_app::server::interface::{recv as interface_recv, request_for, InterfaceAction, WindowEvent};
use chat_app::server::protocol::ServerProtocol;
use chat_app::server::server::{Server, ServerAction};

fn addr(s: &str) -> PeerAddr {
    PeerAddr::new(s.to_string())
}

fn sorted_members(app: &App, room: &str) -> Vec<String> {
    let mut v: Vec<String> = app.members(&room.to_string()).into_iter().map(|a| a.text).collect();
    v.sort();
    v
}

#[test]
fn join_adds_member() {
    let mut app = App::new();
    app.on_client_joined(addr("a"), "r1".to_string());
    app.on_client_joined(addr("b"), "r1".to_string());
    app.on_client_joined(addr("a"), "r1".to_string());
    assert_eq!(sorted_members(&app, "r1"), vec!["a".to_string(), "b".to_string()]);
    assert!(app.is_member(&addr("a"), &"r1".to_string()));
    assert!(!app.is_member(&addr("a"), &"r2".to_string()));
}

#[test]
fn leave_removes_member_and_empty_room() {
    let mut app = App::new();
    app.on_client_joined(addr("a"), "r1".to_string());
    app.on_client_joined(addr("b"), "r1".to_string());
    app.on_client_left(&addr("a"), &"r1".to_string());
    assert_eq!(sorted_members(&app, "r1"), vec!["b".to_string()]);
    app.on_client_left(&addr("b"), &"r1".to_string());
    assert!(sorted_members(&app, "r1").is_empty());
    app.on_client_left(&addr("c"), &"nowhere".to_string());
    assert!(sorted_members(&app, "nowhere").is_empty());
}

#[test]
fn leave_undoes_join_on_concrete_state() {
    let mut app = App::new();
    app.on_client_joined(addr("a"), "r1".to_string());
    app.on_client_joined(addr("c"), "r2".to_string());
    app.on_client_left(&addr("c"), &"r2".to_string());
    assert_eq!(sorted_members(&app, "r1"), vec!["a".to_string()]);
    assert!(sorted_members(&app, "r2").is_empty());
}

#[test]
fn recv_joined_sends_history_and_chat_view() {
    let mut app = App::new();
    let act = app.recv(ServerLocalData::Joined(addr("a"), "r1".to_string()));
    assert_eq!(
        act,
        AppAction::ClientJoined {
            history: HistoryRequest {
                addr: addr("a"),
                room_id: "r1".to_string(),
                limit: MESSAGE_HISTORY_LIMIT,
            },
            to_server: ServerLocalData::ChatView(addr("a")),
        }
    );
    assert_eq!(MESSAGE_HISTORY_LIMIT, 10);
    assert!(app.is_member(&addr("a"), &"r1".to_string()));
    assert_eq!(app.recv(ServerLocalData::Left(addr("a"), "r1".to_string())), AppAction::Ignore);
    assert!(!app.is_member(&addr("a"), &"r1".to_string()));
}

#[test]
fn recv_dispatches_other_data() {
    let mut app = App::new();
    assert_eq!(app.recv(ServerLocalData::Shutdown), AppAction::Shutdown);
    assert_eq!(
        app.recv(ServerLocalData::CreateRoomRequest("x".to_string())),
        AppAction::CreateRoom("x".to_string())
    );
    assert_eq!(
        app.recv(ServerLocalData::DeleteRoomRequest("1".to_string())),
        AppAction::DeleteRoom("1".to_string())
    );
    let t = PeerTicket::new(addr("s"));
    assert_eq!(
        app.recv(ServerLocalData::ServerTicket(t.clone())),
        AppAction::ToInterface(ServerLocalData::ServerTicket(t))
    );
    let m = UserMessageData::new("r", "u", "c");
    assert_eq!(
        app.recv(ServerLocalData::MessageReceived(m.clone())),
        AppAction::CheckRoom(m)
    );
    assert_eq!(app.recv(ServerLocalData::ChatView(addr("a"))), AppAction::Ignore);
}

#[test]
fn message_to_missing_room_is_dropped() {
    let mut app = App::new();
    app.on_client_joined(addr("a"), "r1".to_string());
    let m = UserMessageData::new("r1", "u", "hi");
    assert_eq!(app.on_message_received(m, false), MessageOutcome::Drop);
}

#[test]
fn message_is_broadcast_to_room_members() {
    let mut app = App::new();
    app.on_client_joined(addr("a"), "r1".to_string());
    app.on_client_joined(addr("b"), "r1".to_string());
    app.on_client_joined(addr("c"), "r2".to_string());
    let m = UserMessageData::new("r1", "u", "hi");
    match app.on_message_received(m.clone(), true) {
        MessageOutcome::SaveAndSend { message, sends } => {
            assert_eq!(message, m);
            let mut to: Vec<String> = sends
                .into_iter()
                .map(|s| match s {
                    ServerLocalData::SendMessages(a, ms) => {
                        assert_eq!(ms, vec![m.clone()]);
                        a.text
                    }
                    other => panic!("unexpected {:?}", other),
                })
                .collect();
            to.sort();
            assert_eq!(to, vec!["a".to_string(), "b".to_string()]);
        }
        other => panic!("unexpected {:?}", other),
    }
}

#[test]
fn message_to_room_without_members_is_saved_only() {
    let app = App::new();
    let m = UserMessageData::new("r9", "u", "hi");
    assert_eq!(
        app.on_message_received(m.clone(), true),
        MessageOutcome::SaveAndSend { message: m, sends: vec![] }
    );
}

#[test]
fn create_room_request_builds_room() {
    let (room, ui) = handle_create_room_request("lobby");
    assert_eq!(room.name, "lobby");
    assert_eq!(room.id.len(), 10);
    assert!(room.id.chars().all(|c| c.is_ascii_digit()));
    assert_eq!(ui, ServerLocalData::AddRoomUI(room));
}

#[test]
fn server_protocol_routes_requests() {
    let p = ServerProtocol::new();
    let t = PeerTicket::new(addr("peer"));
    assert_eq!(p.accept(ServerNetworkData::Test), None);
    assert_eq!(
        p.accept(ServerNetworkData::Joined(t.clone(), "r".to_string())),
        Some(ServerLocalData::Joined(addr("peer"), "r".to_string()))
    );
    assert_eq!(
        p.accept(ServerNetworkData::Left(t.clone(), "r".to_string())),
        Some(ServerLocalData::Left(addr("peer"), "r".to_string()))
    );
    assert_eq!(
        p.accept(ServerNetworkData::AddRoomRequest(t, "r".to_string())),
        Some(ServerLocalData::HandleAddRoomRequest(addr("peer"), "r".to_string()))
    );
    let m = UserMessageData::new("r", "u", "c");
    assert_eq!(
        p.accept(ServerNetworkData::MessageSent(m.clone())),
        Some(ServerLocalData::MessageReceived(m))
    );
}

#[test]
fn server_network_task_steps() {
    let s = Server::new(PeerTicket::new(addr("me")));
    assert_eq!(s.start(), ServerLocalData::ServerTicket(PeerTicket::new(addr("me"))));
    assert_eq!(s.recv(ServerLocalData::Shutdown), ServerAction::Shutdown);
    assert_eq!(
        s.recv(ServerLocalData::Joined(addr("a"), "r".to_string())),
        ServerAction::ToAppAndPeer {
            to_app: ServerLocalData::Joined(addr("a"), "r".to_string()),
            peer: addr("a"),
            data: ClientNetworkData::JoinAccepted("r".to_string()),
        }
    );
    assert_eq!(
        s.recv(ServerLocalData::Left(addr("a"), "r".to_string())),
        ServerAction::ToApp(ServerLocalData::Left(addr("a"), "r".to_string()))
    );
    let m = UserMessageData::new("r", "u", "c");
    assert_eq!(
        s.recv(ServerLocalData::SendMessages(addr("a"), vec![m.clone()])),
        ServerAction::ToPeer(addr("a"), ClientNetworkData::ReceiveMessages(vec![m.clone()]))
    );
    assert_eq!(
        s.recv(ServerLocalData::HandleAddRoomRequest(addr("a"), "r".to_string())),
        ServerAction::LookupRoom { peer: addr("a"), room_id: "r".to_string() }
    );
    assert_eq!(
        s.recv(ServerLocalData::MessageReceived(m.clone())),
        ServerAction::ToApp(ServerLocalData::MessageReceived(m))
    );
    assert_eq!(s.recv(ServerLocalData::ChatView(addr("a"))), ServerAction::Ignore);
}

#[test]
fn server_room_lookup_answers() {
    let s = Server::new(PeerTicket::new(addr("me")));
    let room = RoomData::new("1", "x");
    assert_eq!(
        s.on_room_found(addr("a"), Some(room.clone())),
        Some((addr("a"), ClientNetworkData::RoomAdded(room)))
    );
    assert_eq!(s.on_room_found(addr("a"), None), None);
}

#[test]
fn server_interface_dispatch() {
    let t = PeerTicket::new(addr("me"));
    assert_eq!(
        interface_recv(ServerLocalData::ServerTicket(t.clone())),
        InterfaceAction::SetTicket(t)
    );
    let room = RoomData::new("1", "x");
    assert_eq!(
        interface_recv(ServerLocalData::AddRoomUI(room.clone())),
        InterfaceAction::AddRoom(room)
    );
    assert_eq!(
        interface_recv(ServerLocalData::RemoveRoomUI("1".to_string())),
        InterfaceAction::RemoveRoom("1".to_string())
    );
    assert_eq!(interface_recv(ServerLocalData::Shutdown), InterfaceAction::Ignore);
    assert_eq!(request_for(WindowEvent::CopyTicket("t".to_string())), None);
    assert_eq!(
        request_for(WindowEvent::CreateRoom("n".to_string())),
        Some(ServerLocalData::CreateRoomRequest("n".to_string()))
    );
    assert_eq!(
        request_for(WindowEvent::DeleteRoom("1".to_string())),
        Some(ServerLocalData::DeleteRoomRequest("1".to_string()))
    );
}

#[test]
fn room_list_remove_takes_last_match() {
    let mut list = RoomList::from_rooms(vec![
        RoomData::new("1", "a"),
        RoomData::new("2", "b"),
        RoomData::new("1", "c"),
    ]);
    assert_eq!(list.index_to_remove("1"), Some(2));
    assert_eq!(list.index_to_remove("9"), None);
    list.remove_room_ui("1");
    assert_eq!(list.rooms(), &vec![RoomData::new("1", "a"), RoomData::new("2", "b")]);
    list.remove_room_ui("9");
    assert_eq!(list.rooms().len(), 2);
}

#[test]
fn room_list_remove_undoes_add() {
    let mut list = RoomList::new();
    list.add_rooms_ui(vec![RoomData::new("1", "a"), RoomData::new("2", "b")]);
    let before = list.rooms().clone();
    list.add_room_ui(RoomData::new("3", "c"));
    assert_eq!(list.rooms().len(), 3);
    list.remove_room_ui("3");
    assert_eq!(list.rooms(), &before);
}

#[test]
fn on_client_joined_asks_for_history_and_chat_view() {
    let mut app = App::new();
    assert_eq!(
        app.on_client_joined(addr("a"), "r1".to_string()),
        AppAction::ClientJoined {
            history: HistoryRequest { addr: addr("a"), room_id: "r1".to_string(), limit: 10 },
            to_server: ServerLocalData::ChatView(addr("a")),
        }
    );
    assert!(app.is_member(&addr("a"), &"r1".to_string()));
}

#[test]
fn no_room_is_left_empty_over_a_sequence() {
    let mut app = App::new();
    let seq = vec![
        ServerLocalData::Joined(addr("a"), "r".to_string()),
        ServerLocalData::Joined(addr("b"), "r".to_string()),
        ServerLocalData::Left(addr("a"), "r".to_string()),
        ServerLocalData::Left(addr("b"), "r".to_string()),
        ServerLocalData::Joined(addr("c"), "s".to_string()),
        ServerLocalData::Left(addr("z"), "s".to_string()),
    ];
    for d in seq {
        app.recv(d);
    }
    assert!(app.members(&"r".to_string()).is_empty());
    assert_eq!(app.members(&"s".to_string()), vec![addr("c")]);
}

#[test]
fn history_keeps_first_rows() {
    let mut h = History::new(2);
    assert!(h.wants_more());
    h.offer(UserMessageData::new("r", "u", "1"));
    h.offer(UserMessageData::new("r", "u", "2"));
    assert!(!h.wants_more());
    h.offer(UserMessageData::new("r", "u", "3"));
    assert_eq!(
        h.into_messages(),
        vec![UserMessageData::new("r", "u", "1"), UserMessageData::new("r", "u", "2")]
    );
    let mut empty = History::new(0);
    assert!(!empty.wants_more());
    empty.offer(UserMessageData::new("r", "u", "1"));
    assert!(empty.into_messages().is_empty());
}
