use chat_app::client::app::{App, AppAction};
use chat_app::client::client::{Client, ClientAction};
use chat_app::client::interface::{
    on_server_ping, on_set_server_ticket, recv as interface_recv, request_for, ChatLog, InterfaceAction, WindowEvent,
};
use chat_app::client::protocol::ClientProtocol;
use chat_app::server::protocol::ServerProtocol;
use chat_app::server::server::{Server, ServerAction};
use chat_app::data::{
    ClientLocalData, ClientNetworkData, PeerAddr, PeerTicket, RoomData, ServerNetworkData,
    UserMessageData,
};

fn addr(s: &str) -> PeerAddr {
    PeerAddr::new(s.to_string())
}

#[test]
fn client_app_starts_empty() {
    let app = App::new();
    assert_eq!(app.user_name, "");
    assert_eq!(app.current_room_id, None);
}

#[test]
fn join_request_needs_user_name() {
    let mut app = App::new();
    assert_eq!(app.recv(ClientLocalData::JoinRequest("r".to_string())), AppAction::Ignore);
    assert_eq!(app.recv(ClientLocalData::UserName("ann".to_string())), AppAction::Ignore);
    assert_eq!(app.user_name, "ann");
    assert_eq!(
        app.recv(ClientLocalData::JoinRequest("r".to_string())),
        AppAction::ToClient(ClientLocalData::JoinRequest("r".to_string()))
    );
}

#[test]
fn join_accepted_sets_room_and_shows_chat() {
    let mut app = App::new();
    assert_eq!(
        app.recv(ClientLocalData::JoinAccepted("r".to_string())),
        AppAction::ToInterface(ClientLocalData::ChatView)
    );
    assert_eq!(app.current_room_id, Some("r".to_string()));
}

#[test]
fn leave_request_uses_current_room() {
    let mut app = App::new();
    assert_eq!(app.recv(ClientLocalData::LeaveRequest("".to_string())), AppAction::Ignore);
    app.recv(ClientLocalData::JoinAccepted("r".to_string()));
    assert_eq!(
        app.recv(ClientLocalData::LeaveRequest("".to_string())),
        AppAction::ToClient(ClientLocalData::LeaveRequest("r".to_string()))
    );
    assert_eq!(app.current_room_id, Some("r".to_string()));
}

#[test]
fn send_message_builds_message() {
    let mut app = App::new();
    assert_eq!(app.recv(ClientLocalData::SendMessage("hi".to_string())), AppAction::Ignore);
    app.recv(ClientLocalData::UserName("ann".to_string()));
    assert_eq!(app.recv(ClientLocalData::SendMessage("hi".to_string())), AppAction::Ignore);
    app.recv(ClientLocalData::JoinAccepted("r".to_string()));
    assert_eq!(
        app.recv(ClientLocalData::SendMessage("hi".to_string())),
        AppAction::ToClient(ClientLocalData::SendMessageInit(UserMessageData::new(
            "r", "ann", "hi"
        )))
    );
}

#[test]
fn received_messages_filtered_by_room() {
    let mut app = App::new();
    let m1 = UserMessageData::new("r", "u", "a");
    let m2 = UserMessageData::new("s", "u", "b");
    assert_eq!(app.recv(ClientLocalData::ReceiveMessages(vec![m1.clone()])), AppAction::Ignore);
    assert_eq!(
        app.recv(ClientLocalData::ReceiveMessages(vec![])),
        AppAction::ToInterface(ClientLocalData::ReceiveMessages(vec![]))
    );
    app.recv(ClientLocalData::JoinAccepted("r".to_string()));
    assert_eq!(
        app.recv(ClientLocalData::ReceiveMessages(vec![m1.clone()])),
        AppAction::ToInterface(ClientLocalData::ReceiveMessages(vec![m1.clone()]))
    );
    assert_eq!(
        app.recv(ClientLocalData::ReceiveMessages(vec![m1, m2])),
        AppAction::Ignore
    );
}

#[test]
fn client_app_forwards_and_stores() {
    let mut app = App::new();
    assert_eq!(app.recv(ClientLocalData::Shutdown), AppAction::Shutdown);
    assert_eq!(
        app.recv(ClientLocalData::ServerAddr(addr("s"))),
        AppAction::ToClient(ClientLocalData::ServerAddr(addr("s")))
    );
    assert_eq!(
        app.recv(ClientLocalData::AddRoomRequest("1".to_string())),
        AppAction::ToClient(ClientLocalData::AddRoomRequest("1".to_string()))
    );
    let room = RoomData::new("1", "x");
    assert_eq!(
        app.recv(ClientLocalData::AddRoomAccepted(room.clone())),
        AppAction::InsertRoom(room.clone())
    );
    assert_eq!(
        app.on_room_inserted(room.clone(), true),
        Some(ClientLocalData::AddRoomsUI(vec![room.clone()]))
    );
    assert_eq!(app.on_room_inserted(room, false), None);
    assert_eq!(app.recv(ClientLocalData::ChatView), AppAction::Ignore);
}

#[test]
fn client_network_task_needs_server_addr() {
    let t = PeerTicket::new(addr("me"));
    let mut c = Client::new(t.clone());
    assert_eq!(c.recv(ClientLocalData::JoinRequest("r".to_string())), ClientAction::Ignore);
    assert_eq!(c.recv(ClientLocalData::ServerAddr(addr("srv"))), ClientAction::Ignore);
    assert_eq!(c.server_addr, Some(addr("srv")));
    assert_eq!(
        c.recv(ClientLocalData::JoinRequest("r".to_string())),
        ClientAction::ToServer(addr("srv"), ServerNetworkData::Joined(t.clone(), "r".to_string()))
    );
    assert_eq!(
        c.recv(ClientLocalData::LeaveRequest("r".to_string())),
        ClientAction::ToServer(addr("srv"), ServerNetworkData::Left(t.clone(), "r".to_string()))
    );
    assert_eq!(
        c.recv(ClientLocalData::AddRoomRequest("1".to_string())),
        ClientAction::ToServer(
            addr("srv"),
            ServerNetworkData::AddRoomRequest(t.clone(), "1".to_string())
        )
    );
    let m = UserMessageData::new("r", "u", "c");
    assert_eq!(
        c.recv(ClientLocalData::SendMessageInit(m.clone())),
        ClientAction::ToServer(addr("srv"), ServerNetworkData::MessageSent(m.clone()))
    );
    assert_eq!(
        c.recv(ClientLocalData::ReceiveMessages(vec![m.clone()])),
        ClientAction::ToApp(ClientLocalData::ReceiveMessages(vec![m]))
    );
    assert_eq!(
        c.recv(ClientLocalData::JoinAccepted("r".to_string())),
        ClientAction::ToApp(ClientLocalData::JoinAccepted("r".to_string()))
    );
    let room = RoomData::new("1", "x");
    assert_eq!(
        c.recv(ClientLocalData::AddRoomAccepted(room.clone())),
        ClientAction::ToApp(ClientLocalData::AddRoomAccepted(room))
    );
    assert_eq!(c.recv(ClientLocalData::Shutdown), ClientAction::Shutdown);
    assert_eq!(c.recv(ClientLocalData::ChatView), ClientAction::Ignore);
}

#[test]
fn client_protocol_routes_answers() {
    let p = ClientProtocol::new();
    let m = UserMessageData::new("r", "u", "c");
    assert_eq!(
        p.accept(ClientNetworkData::ReceiveMessages(vec![m.clone()])),
        ClientLocalData::ReceiveMessages(vec![m])
    );
    assert_eq!(
        p.accept(ClientNetworkData::JoinAccepted("r".to_string())),
        ClientLocalData::JoinAccepted("r".to_string())
    );
    let room = RoomData::new("1", "x");
    assert_eq!(
        p.accept(ClientNetworkData::RoomAdded(room.clone())),
        ClientLocalData::AddRoomAccepted(room)
    );
}

#[test]
fn client_interface_dispatch() {
    assert_eq!(interface_recv(ClientLocalData::ChatView), InterfaceAction::ShowChat);
    let m = UserMessageData::new("r", "u", "c");
    assert_eq!(
        interface_recv(ClientLocalData::ReceiveMessages(vec![m.clone()])),
        InterfaceAction::LoadMessages(vec![m])
    );
    let room = RoomData::new("1", "x");
    assert_eq!(
        interface_recv(ClientLocalData::AddRoomsUI(vec![room.clone()])),
        InterfaceAction::AddRooms(vec![room])
    );
    assert_eq!(
        interface_recv(ClientLocalData::RemoveRoomUI("1".to_string())),
        InterfaceAction::RemoveRoom("1".to_string())
    );
    assert_eq!(interface_recv(ClientLocalData::Shutdown), InterfaceAction::Ignore);
}

#[test]
fn client_window_requests() {
    assert_eq!(
        request_for(WindowEvent::SetUserName("ann".to_string())),
        Some(ClientLocalData::UserName("ann".to_string()))
    );
    assert_eq!(
        request_for(WindowEvent::AddRoom("1".to_string())),
        Some(ClientLocalData::AddRoomRequest("1".to_string()))
    );
    assert_eq!(
        request_for(WindowEvent::JoinRoom("1".to_string())),
        Some(ClientLocalData::JoinRequest("1".to_string()))
    );
    assert_eq!(
        request_for(WindowEvent::SendMessage("hi".to_string())),
        Some(ClientLocalData::SendMessage("hi".to_string()))
    );
    assert_eq!(request_for(WindowEvent::SendMessage(String::new())), None);
    assert_eq!(
        request_for(WindowEvent::ChatViewBack),
        Some(ClientLocalData::LeaveRequest(String::new()))
    );
}

#[test]
fn server_ping_outcome() {
    assert_eq!(
        on_server_ping(addr("s"), true),
        Some(ClientLocalData::ServerAddr(addr("s")))
    );
    assert_eq!(on_server_ping(addr("s"), false), None);
}

#[test]
fn chat_log_appends_in_order() {
    let mut log = ChatLog::new();
    let a = UserMessageData::new("r", "u", "1");
    let b = UserMessageData::new("r", "u", "2");
    log.load_messages(vec![a.clone()]);
    log.load_messages(vec![b.clone()]);
    assert_eq!(log.messages(), &vec![a, b]);
}

#[test]
fn request_round_trip_through_both_sides() {
    let t = PeerTicket::new(addr("me"));
    let mut c = Client::new(t.clone());
    c.recv(ClientLocalData::ServerAddr(addr("srv")));
    let sent = match c.recv(ClientLocalData::JoinRequest("r".to_string())) {
        ClientAction::ToServer(_, d) => d,
        other => panic!("unexpected {:?}", other),
    };
    let local = ServerProtocol::new().accept(sent).unwrap();
    let server = Server::new(PeerTicket::new(addr("srv")));
    match server.recv(local) {
        ServerAction::ToAppAndPeer { peer, data, .. } => {
            assert_eq!(peer, addr("me"));
            let back = ClientProtocol::new().accept(data);
            let mut app = App::new();
            app.recv(back);
            assert_eq!(app.current_room_id, Some("r".to_string()));
        }
        other => panic!("unexpected {:?}", other),
    }
}

fn ticket_text() -> String {
    let key = iroh::SecretKey::from_bytes(&[7u8; 32]);
    let addr = iroh::EndpointAddr::new(key.public());
    iroh_tickets::endpoint::EndpointTicket::new(addr).to_string()
}

#[test]
fn server_ticket_parses_to_its_address() {
    let text = ticket_text();
    assert_eq!(on_set_server_ticket(&text), Some(PeerAddr::new(text.clone())));
}

#[test]
fn server_ticket_is_read_back_in_canonical_form() {
    let text = ticket_text();
    let shouted = format!("endpoint{}", text["endpoint".len()..].to_ascii_uppercase());
    assert_ne!(shouted, text);
    assert_eq!(on_set_server_ticket(&shouted), Some(PeerAddr::new(text)));
}

#[test]
fn bad_server_ticket_gives_nothing() {
    assert_eq!(on_set_server_ticket("not a ticket"), None);
    assert_eq!(on_set_server_ticket(""), None);
}

#[test]
fn last_name_and_room_win_over_a_sequence() {
    let mut app = App::new();
    let seq = vec![
        ClientLocalData::UserName("a".to_string()),
        ClientLocalData::JoinAccepted("r1".to_string()),
        ClientLocalData::ChatView,
        ClientLocalData::UserName("b".to_string()),
        ClientLocalData::JoinAccepted("r2".to_string()),
        ClientLocalData::SendMessage("x".to_string()),
    ];
    for d in seq {
        app.recv(d);
    }
    assert_eq!(app.user_name, "b");
    assert_eq!(app.current_room_id, Some("r2".to_string()));
}

#[test]
fn last_server_addr_wins_over_a_sequence() {
    let mut c = Client::new(PeerTicket::new(addr("me")));
    let seq = vec![
        ClientLocalData::ServerAddr(addr("s1")),
        ClientLocalData::JoinRequest("r".to_string()),
        ClientLocalData::ServerAddr(addr("s2")),
        ClientLocalData::ChatView,
    ];
    for d in seq {
        c.recv(d);
    }
    assert_eq!(c.server_addr, Some(addr("s2")));
}
