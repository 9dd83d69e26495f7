use tango_netplay::lobby::{
    Action, CreateStream, CreateStreamToClient, CreateStreamToServer, Frame, JoinRequest,
    JoinStream, JoinStreamToClient, LobbyError, Server, Verdict, ID_LENGTH,
};

fn create_request() -> Frame<CreateStreamToServer> {
    Frame::Message(CreateStreamToServer::CreateReq {
        game_info: Some(vec![1, 2, 3]),
        save_data: vec![4, 5],
    })
}

fn join_request(lobby_id: &str) -> Frame<JoinRequest> {
    Frame::Message(JoinRequest {
        lobby_id: lobby_id.to_string(),
        game_info: Some(vec![7]),
        save_data: vec![8, 9],
    })
}

fn open_lobby(server: &mut Server, host: &mut CreateStream) -> String {
    let (actions, verdict) = server.handle_create_stream(host, create_request());
    assert_eq!(verdict, Verdict::Continue);
    assert_eq!(actions.len(), 1);
    match &actions[0] {
        Action::SendToCreator { lobby_id, message: CreateStreamToClient::CreateResp { lobby_id: said } } => {
            assert_eq!(lobby_id, said);
            lobby_id.clone()
        }
        other => panic!("the host was answered with {:?}", other),
    }
}

fn join(server: &mut Server, joiner: &mut JoinStream, lobby_id: &str) -> String {
    let (actions, verdict) = server.handle_join_stream(joiner, join_request(lobby_id));
    assert_eq!(verdict, Verdict::Continue);
    assert_eq!(actions.len(), 2);
    let told_host = match &actions[0] {
        Action::SendToCreator {
            lobby_id: to,
            message: CreateStreamToClient::JoinInd { opponent_id, player },
        } => {
            assert_eq!(to, lobby_id);
            assert_eq!(player.game_info, vec![7]);
            assert_eq!(player.save_data, vec![8, 9]);
            opponent_id.clone()
        }
        other => panic!("the host was told {:?}", other),
    };
    match &actions[1] {
        Action::SendToJoiner {
            opponent_id: to,
            message: JoinStreamToClient::JoinResp { opponent_id, player },
        } => {
            assert_eq!(to, &told_host);
            assert_eq!(opponent_id, &told_host);
            assert_eq!(player.game_info, vec![1, 2, 3]);
            assert_eq!(player.save_data, vec![4, 5]);
        }
        other => panic!("the joiner was told {:?}", other),
    }
    told_host
}

fn is_id(id: &str) -> bool {
    id.len() == ID_LENGTH && id.chars().all(|c| c.is_ascii_alphanumeric())
}

#[test]
fn lobby_accept() {
    let mut server = Server::new();
    let mut host = CreateStream::new();
    let mut joiner = JoinStream::new();
    let lobby_id = open_lobby(&mut server, &mut host);
    assert!(is_id(&lobby_id));
    assert!(server.has_lobby(&lobby_id));
    assert_eq!(host.lobby_id.as_ref(), Some(&lobby_id));

    let opponent_id = join(&mut server, &mut joiner, &lobby_id);
    assert!(is_id(&opponent_id));
    assert_eq!(joiner.joined, Some((lobby_id.clone(), opponent_id.clone())));
    assert_eq!(server.pending_count(&lobby_id), Some(1));

    let (actions, verdict) = server.handle_create_stream(
        &mut host,
        Frame::Message(CreateStreamToServer::AcceptReq { opponent_id: opponent_id.clone() }),
    );
    assert_eq!(verdict, Verdict::Finished);
    assert_eq!(actions.len(), 3);
    let to_host = match &actions[0] {
        Action::SendToCreator { lobby_id: to, message: CreateStreamToClient::AcceptResp { session_id } } => {
            assert_eq!(to, &lobby_id);
            session_id.clone()
        }
        other => panic!("the host was told {:?}", other),
    };
    let to_joiner = match &actions[1] {
        Action::SendToJoiner { opponent_id: to, message: JoinStreamToClient::AcceptInd { session_id } } => {
            assert_eq!(to, &opponent_id);
            session_id.clone()
        }
        other => panic!("the joiner was told {:?}", other),
    };
    assert!(matches!(&actions[2], Action::CloseJoiner { opponent_id: to } if to == &opponent_id));
    assert!(is_id(&to_host));
    assert_eq!(to_host, to_joiner);

    let closing = server.close_create_stream(&mut host);
    assert_eq!(closing.len(), 1);
    assert!(matches!(&closing[0], Action::CloseJoiner { opponent_id: to } if to == &opponent_id));
    assert!(!server.has_lobby(&lobby_id));
    assert_eq!(server.lobby_count(), 0);
    assert!(host.lobby_id.is_none());

    server.close_join_stream(&mut joiner);
    assert!(joiner.joined.is_none());
    assert_eq!(server.lobby_count(), 0);
}

#[test]
fn lobby_reject() {
    let mut server = Server::new();
    let mut host = CreateStream::new();
    let lobby_id = open_lobby(&mut server, &mut host);
    let mut first = JoinStream::new();
    let mut second = JoinStream::new();
    let one = join(&mut server, &mut first, &lobby_id);
    let two = join(&mut server, &mut second, &lobby_id);
    assert_ne!(one, two);
    assert_eq!(server.pending_count(&lobby_id), Some(2));

    let (actions, verdict) = server.handle_create_stream(
        &mut host,
        Frame::Message(CreateStreamToServer::RejectReq { opponent_id: one.clone() }),
    );
    assert_eq!(verdict, Verdict::Continue);
    assert_eq!(actions.len(), 2);
    assert!(matches!(
        &actions[0],
        Action::SendToCreator { lobby_id: to, message: CreateStreamToClient::RejectResp } if to == &lobby_id
    ));
    assert!(matches!(&actions[1], Action::CloseJoiner { opponent_id: to } if to == &one));
    assert_eq!(server.pending_count(&lobby_id), Some(1));

    let (actions, verdict) = server.handle_create_stream(
        &mut host,
        Frame::Message(CreateStreamToServer::RejectReq { opponent_id: one.clone() }),
    );
    assert_eq!(verdict, Verdict::Continue);
    assert!(actions.is_empty());

    let (actions, verdict) = server.handle_create_stream(
        &mut host,
        Frame::Message(CreateStreamToServer::AcceptReq { opponent_id: "nobody".to_string() }),
    );
    assert_eq!(verdict, Verdict::Continue);
    assert!(actions.is_empty());

    server.close_join_stream(&mut second);
    assert_eq!(server.pending_count(&lobby_id), Some(0));
    assert!(server.close_create_stream(&mut host).is_empty());
    assert_eq!(server.lobby_count(), 0);
}

#[test]
fn closing_a_host_lets_every_joiner_go() {
    let mut server = Server::new();
    let mut host = CreateStream::new();
    let lobby_id = open_lobby(&mut server, &mut host);
    let mut other_host = CreateStream::new();
    let other_lobby = open_lobby(&mut server, &mut other_host);
    let mut first = JoinStream::new();
    let mut second = JoinStream::new();
    let one = join(&mut server, &mut first, &lobby_id);
    let two = join(&mut server, &mut second, &lobby_id);
    let (actions, verdict) = server.handle_create_stream(&mut host, Frame::Closed);
    assert_eq!(verdict, Verdict::Finished);
    assert!(actions.is_empty());
    let closing = server.close_create_stream(&mut host);
    let let_go: Vec<String> = closing
        .iter()
        .map(|action| match action {
            Action::CloseJoiner { opponent_id } => opponent_id.clone(),
            other => panic!("closing did {:?}", other),
        })
        .collect();
    assert_eq!(let_go, vec![one, two]);
    assert!(!server.has_lobby(&lobby_id));
    assert!(server.has_lobby(&other_lobby));
    assert_eq!(server.lobby_count(), 1);
    server.close_join_stream(&mut first);
    assert_eq!(server.lobby_count(), 1);
}

#[test]
fn create_stream_errors() {
    let mut server = Server::new();
    let mut host = CreateStream::new();
    let (actions, verdict) = server.handle_create_stream(
        &mut host,
        Frame::Message(CreateStreamToServer::CreateReq { game_info: None, save_data: vec![] }),
    );
    assert!(actions.is_empty());
    assert_eq!(verdict, Verdict::Failed(LobbyError::MissingGameInfo));
    let (_, verdict) = server.handle_create_stream(
        &mut host,
        Frame::Message(CreateStreamToServer::AcceptReq { opponent_id: "x".to_string() }),
    );
    assert_eq!(verdict, Verdict::Failed(LobbyError::UnexpectedMessage));
    let (_, verdict) = server.handle_create_stream(&mut host, Frame::Unexpected);
    assert_eq!(verdict, Verdict::Failed(LobbyError::UnexpectedMessage));
    let (_, verdict) = server.handle_create_stream(&mut host, Frame::Empty);
    assert_eq!(verdict, Verdict::Failed(LobbyError::UnexpectedMessage));
    assert_eq!(server.lobby_count(), 0);
    open_lobby(&mut server, &mut host);
    let (_, verdict) = server.handle_create_stream(&mut host, create_request());
    assert_eq!(verdict, Verdict::Failed(LobbyError::UnexpectedMessage));
    assert_eq!(server.lobby_count(), 1);
}

#[test]
fn join_stream_errors() {
    let mut server = Server::new();
    let mut joiner = JoinStream::new();
    let (actions, verdict) = server.handle_join_stream(&mut joiner, join_request("nowhere"));
    assert!(actions.is_empty());
    assert_eq!(verdict, Verdict::Failed(LobbyError::NoSuchLobby));
    let mut host = CreateStream::new();
    let lobby_id = open_lobby(&mut server, &mut host);
    let (_, verdict) = server.handle_join_stream(
        &mut joiner,
        Frame::Message(JoinRequest { lobby_id: lobby_id.clone(), game_info: None, save_data: vec![] }),
    );
    assert_eq!(verdict, Verdict::Failed(LobbyError::MissingGameInfo));
    let (_, verdict) = server.handle_join_stream(&mut joiner, Frame::Closed);
    assert_eq!(verdict, Verdict::Finished);
    let (_, verdict) = server.handle_join_stream(&mut joiner, Frame::Unexpected);
    assert_eq!(verdict, Verdict::Failed(LobbyError::UnexpectedMessage));
    assert!(joiner.joined.is_none());
    assert_eq!(server.pending_count(&lobby_id), Some(0));
    join(&mut server, &mut joiner, &lobby_id);
    let (actions, verdict) = server.handle_join_stream(&mut joiner, join_request(&lobby_id));
    assert!(actions.is_empty());
    assert_eq!(verdict, Verdict::Failed(LobbyError::UnexpectedMessage));
    assert_eq!(server.pending_count(&lobby_id), Some(1));
}

#[test]
fn handed_out_ids_are_taken_as_given() {
    let mut server = Server::new();
    let mut host = CreateStream::new();
    let (actions, _) = server.handle_create_frame(&mut host, create_request(), "L".to_string());
    assert!(matches!(&actions[0], Action::SendToCreator { lobby_id, .. } if lobby_id == "L"));
    let mut joiner = JoinStream::new();
    let (_, verdict) = server.handle_join_frame(&mut joiner, join_request("L"), "O".to_string());
    assert_eq!(verdict, Verdict::Continue);
    assert_eq!(joiner.joined, Some(("L".to_string(), "O".to_string())));
    let (actions, verdict) = server.handle_create_frame(
        &mut host,
        Frame::Message(CreateStreamToServer::AcceptReq { opponent_id: "O".to_string() }),
        "S".to_string(),
    );
    assert_eq!(verdict, Verdict::Finished);
    assert!(matches!(
        &actions[1],
        Action::SendToJoiner { message: JoinStreamToClient::AcceptInd { session_id }, .. } if session_id == "S"
    ));
}
