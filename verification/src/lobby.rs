//! The lobby: the rendezvous at which a host offers a match and joiners ask
//! for it. The server keeps a registry of lobbies and, for each, the players
//! that wait for the host's answer. What arrives on a stream is handed in
//! frame by frame; what is to be sent and which joiners are to be let go
//! comes back as a list of actions.

use rand::Rng;
use vstd::prelude::*;

verus! {

/// Length of every identifier that the server hands out.
pub const ID_LENGTH: usize = 32;

/// A lobby, a joiner or a session is named by a string of letters and
/// digits.
pub type Id = String;

/// What a player brings: the game and the save data.
#[derive(Debug)]
pub struct Player {
    /// The description of the game, as it came over the wire.
    pub game_info: Vec<u8>,
    pub save_data: Vec<u8>,
}

/// Mathematical model of a [`Player`].
pub struct PlayerView {
    pub game_info: Seq<u8>,
    pub save_data: Seq<u8>,
}

impl View for Player {
    type V = PlayerView;

    open spec fn view(&self) -> PlayerView {
        PlayerView { game_info: self.game_info@, save_data: self.save_data@ }
    }
}

impl Clone for Player {
    fn clone(&self) -> (copy: Player)
        ensures
            copy@ == self@,
    {
        Player { game_info: self.game_info.clone(), save_data: self.save_data.clone() }
    }
}

/// What a host sends.
#[derive(Debug)]
pub enum CreateStreamToServer {
    /// Open a lobby. A request without game info is refused.
    CreateReq { game_info: Option<Vec<u8>>, save_data: Vec<u8> },
    AcceptReq { opponent_id: Id },
    RejectReq { opponent_id: Id },
}

/// Mathematical model of a [`CreateStreamToServer`].
pub enum CreateStreamToServerView {
    CreateReq { game_info: Option<Seq<u8>>, save_data: Seq<u8> },
    AcceptReq { opponent_id: Seq<char> },
    RejectReq { opponent_id: Seq<char> },
}

impl View for CreateStreamToServer {
    type V = CreateStreamToServerView;

    open spec fn view(&self) -> CreateStreamToServerView {
        match self {
            CreateStreamToServer::CreateReq { game_info, save_data } => {
                CreateStreamToServerView::CreateReq {
                    game_info: crate::input::option_view(*game_info),
                    save_data: save_data@,
                }
            },
            CreateStreamToServer::AcceptReq { opponent_id } => CreateStreamToServerView::AcceptReq {
                opponent_id: opponent_id@,
            },
            CreateStreamToServer::RejectReq { opponent_id } => CreateStreamToServerView::RejectReq {
                opponent_id: opponent_id@,
            },
        }
    }
}

/// What a joiner sends: the lobby it asks for and what it brings. A request
/// without game info is refused.
#[derive(Debug)]
pub struct JoinRequest {
    pub lobby_id: Id,
    pub game_info: Option<Vec<u8>>,
    pub save_data: Vec<u8>,
}

/// Mathematical model of a [`JoinRequest`].
pub struct JoinRequestView {
    pub lobby_id: Seq<char>,
    pub game_info: Option<Seq<u8>>,
    pub save_data: Seq<u8>,
}

impl View for JoinRequest {
    type V = JoinRequestView;

    open spec fn view(&self) -> JoinRequestView {
        JoinRequestView {
            lobby_id: self.lobby_id@,
            game_info: crate::input::option_view(self.game_info),
            save_data: self.save_data@,
        }
    }
}

/// One unit of what arrives on a stream.
#[derive(Debug)]
pub enum Frame<M> {
    /// A message of the stream's protocol.
    Message(M),
    /// A well-formed envelope that holds no message.
    Empty,
    /// The peer closed the stream, or the stream ended.
    Closed,
    /// Anything else.
    Unexpected,
}

/// Mathematical model of a frame: the model of its message, if it holds
/// one.
pub open spec fn frame_view<M: View>(frame: Frame<M>) -> Frame<M::V> {
    match frame {
        Frame::Message(message) => Frame::Message(message@),
        Frame::Empty => Frame::Empty,
        Frame::Closed => Frame::Closed,
        Frame::Unexpected => Frame::Unexpected,
    }
}

/// What the server sends to a host.
#[derive(Debug)]
pub enum CreateStreamToClient {
    CreateResp { lobby_id: Id },
    JoinInd { opponent_id: Id, player: Player },
    AcceptResp { session_id: Id },
    RejectResp,
}

/// What the server sends to a joiner.
#[derive(Debug)]
pub enum JoinStreamToClient {
    JoinResp { opponent_id: Id, player: Player },
    AcceptInd { session_id: Id },
}

/// One thing for the owner of the connections to do.
#[derive(Debug)]
#[allow(inconsistent_fields)]
pub enum Action {
    /// Send a message to the host of a lobby.
    SendToCreator { lobby_id: Id, message: CreateStreamToClient },
    /// Send a message to a joiner.
    SendToJoiner { opponent_id: Id, message: JoinStreamToClient },
    /// Let a joiner go: its stream is to end.
    CloseJoiner { opponent_id: Id },
}

/// Mathematical model of an [`Action`].
pub enum ActionView {
    SendCreateResp { lobby_id: Seq<char> },
    SendJoinInd { lobby_id: Seq<char>, opponent_id: Seq<char>, player: PlayerView },
    SendAcceptResp { lobby_id: Seq<char>, session_id: Seq<char> },
    SendRejectResp { lobby_id: Seq<char> },
    SendJoinResp { opponent_id: Seq<char>, player: PlayerView },
    SendAcceptInd { opponent_id: Seq<char>, session_id: Seq<char> },
    CloseJoiner { opponent_id: Seq<char> },
    /// A message that says of another lobby than the one it is sent to.
    Misdirected,
}

impl View for Action {
    type V = ActionView;

    open spec fn view(&self) -> ActionView {
        match self {
            Action::SendToCreator { lobby_id, message } => match message {
                CreateStreamToClient::CreateResp { lobby_id: said } => if said@ == lobby_id@ {
                    ActionView::SendCreateResp { lobby_id: lobby_id@ }
                } else {
                    ActionView::Misdirected
                },
                CreateStreamToClient::JoinInd { opponent_id, player } => ActionView::SendJoinInd {
                    lobby_id: lobby_id@,
                    opponent_id: opponent_id@,
                    player: player@,
                },
                CreateStreamToClient::AcceptResp { session_id } => ActionView::SendAcceptResp {
                    lobby_id: lobby_id@,
                    session_id: session_id@,
                },
                CreateStreamToClient::RejectResp => ActionView::SendRejectResp {
                    lobby_id: lobby_id@,
                },
            },
            Action::SendToJoiner { opponent_id, message } => match message {
                JoinStreamToClient::JoinResp { opponent_id: said, player } => if said@
                    == opponent_id@ {
                    ActionView::SendJoinResp { opponent_id: opponent_id@, player: player@ }
                } else {
                    ActionView::Misdirected
                },
                JoinStreamToClient::AcceptInd { session_id } => ActionView::SendAcceptInd {
                    opponent_id: opponent_id@,
                    session_id: session_id@,
                },
            },
            Action::CloseJoiner { opponent_id } => ActionView::CloseJoiner {
                opponent_id: opponent_id@,
            },
        }
    }
}

/// The models of a list of actions, in order.
pub open spec fn actions_view(actions: Seq<Action>) -> Seq<ActionView> {
    actions.map_values(|action: Action| action@)
}

/// Why a stream ends with an error.
#[derive(Clone, Copy, Debug, PartialEq, Eq, Structural)]
pub enum LobbyError {
    /// A frame that the protocol has no place for.
    UnexpectedMessage,
    /// A request that lacks the game info.
    MissingGameInfo,
    /// A request for a lobby that the registry does not hold.
    NoSuchLobby,
}

/// How a stream goes on after a frame.
#[derive(Clone, Copy, Debug, PartialEq, Eq, Structural)]
pub enum Verdict {
    /// The stream stays open.
    Continue,
    /// The stream ends well.
    Finished,
    /// The stream ends with an error.
    Failed(LobbyError),
}

/// A lobby: what its host brought and who waits for the host's answer.
pub struct Lobby {
    lobby_id: Id,
    host: Player,
    pending_players: Vec<Id>,
}

/// Mathematical model of a [`Lobby`].
pub struct LobbyView {
    pub lobby_id: Seq<char>,
    pub host: PlayerView,
    /// The joiners that wait for an answer, in the order they came.
    pub pending_players: Seq<Seq<char>>,
}

impl View for Lobby {
    type V = LobbyView;

    closed spec fn view(&self) -> LobbyView {
        LobbyView {
            lobby_id: self.lobby_id@,
            host: self.host@,
            pending_players: crate::input::seq_view(self.pending_players@),
        }
    }
}

/// The place of the first of `ids` that equals `id`, if there is one.
#[verifier::opaque]
pub open spec fn position(ids: Seq<Seq<char>>, id: Seq<char>) -> Option<int> {
    if exists|i: int| 0 <= i < ids.len() && ids[i] == id {
        Some(
            choose|i: int|
                0 <= i < ids.len() && ids[i] == id && forall|j: int| 0 <= j < i ==> ids[j] != id,
        )
    } else {
        None
    }
}

/// The identifiers of lobbies, in the order of the registry.
pub open spec fn lobby_ids(lobbies: Seq<LobbyView>) -> Seq<Seq<char>> {
    lobbies.map_values(|lobby: LobbyView| lobby.lobby_id)
}

/// Whether every character is a letter or a digit of the basic alphabet.
pub open spec fn is_alphanumeric(text: Seq<char>) -> bool {
    forall|i: int|
        0 <= i < text.len() ==> {
            let c = #[trigger] text[i];
            ('0' <= c && c <= '9') || ('a' <= c && c <= 'z') || ('A' <= c && c <= 'Z')
        }
}

/// Whether `id` can be an identifier that the server handed out.
pub open spec fn is_id(id: Seq<char>) -> bool {
    id.len() == ID_LENGTH && is_alphanumeric(id)
}

/// Draws 32 characters from `rand::distributions::Alphanumeric` with
/// `rand::thread_rng`. Which characters come out is left to chance; each is
/// a letter or a digit of the basic alphabet.
#[verifier::external_body]
fn generate_id() -> (id: Id)
    ensures
        is_id(id@),
{
    rand::thread_rng().sample_iter(&rand::distributions::Alphanumeric).take(32).map(
        char::from,
    ).collect()
}

/// What `position` says of a place at which `id` is found first, and of
/// a sequence in which it is not found.
pub proof fn lemma_position(ids: Seq<Seq<char>>, id: Seq<char>, at: int)
    ensures
        0 <= at < ids.len() && ids[at] == id && (forall|j: int| 0 <= j < at ==> ids[j] != id)
            ==> position(ids, id) == Some(at),
        (forall|j: int| 0 <= j < ids.len() ==> ids[j] != id) ==> position(ids, id) is None,
        position(ids, id) is Some ==> 0 <= position(ids, id)->0 < ids.len() && ids[position(
            ids,
            id,
        )->0] == id,
        position(ids, id) is None ==> forall|j: int| 0 <= j < ids.len() ==> ids[j] != id,
{
    reveal(position);
    if 0 <= at < ids.len() && ids[at] == id && (forall|j: int| 0 <= j < at ==> ids[j] != id) {
        let chosen = choose|i: int|
            0 <= i < ids.len() && ids[i] == id && forall|j: int| 0 <= j < i ==> ids[j] != id;
        assert(chosen == at);
    }
    if exists|i: int| 0 <= i < ids.len() && ids[i] == id {
        let first = lemma_first_match(ids, id, ids.len() as int);
        assert(0 <= first < ids.len() && ids[first] == id && forall|j: int|
            0 <= j < first ==> ids[j] != id);
    }
}

/// Among the first `upto` of `ids` the first that equals `id`, where one
/// of them does.
proof fn lemma_first_match(ids: Seq<Seq<char>>, id: Seq<char>, upto: int) -> (first: int)
    requires
        0 <= upto <= ids.len(),
        exists|i: int| 0 <= i < upto && ids[i] == id,
    ensures
        0 <= first < upto,
        ids[first] == id,
        forall|j: int| 0 <= j < first ==> ids[j] != id,
    decreases upto,
{
    if exists|i: int| 0 <= i < upto - 1 && ids[i] == id {
        lemma_first_match(ids, id, upto - 1)
    } else {
        upto - 1
    }
}

/// The place of the first of `ids` that equals `id`, if there is one.
fn find_id(ids: &Vec<Id>, id: &Id) -> (found: Option<usize>)
    ensures
        match found {
            Some(at) => at < ids@.len() && position(crate::input::seq_view(ids@), id@) == Some(
                at as int,
            ),
            None => position(crate::input::seq_view(ids@), id@) is None,
        },
{
    let ghost views = crate::input::seq_view(ids@);
    let mut i: usize = 0;
    while i < ids.len()
        invariant
            i <= ids.len(),
            views == crate::input::seq_view(ids@),
            forall|j: int| 0 <= j < i ==> views[j] != id@,
        decreases ids.len() - i,
    {
        if ids[i] == *id {
            proof {
                assert(views[i as int] == id@);
                lemma_position(views, id@, i as int);
            }
            return Some(i);
        }
        i = i + 1;
    }
    proof {
        lemma_position(views, id@, 0);
    }
    None
}

/// The registry of lobbies.
pub struct Server {
    lobbies: Vec<Lobby>,
}

/// Mathematical model of a [`Server`]: the lobbies in the order in which
/// they were opened. A lobby is found by its identifier; of two with the
/// same identifier the older one is found.
pub struct ServerView {
    pub lobbies: Seq<LobbyView>,
}

impl ServerView {
    /// The place of the lobby with the given identifier, if there is one.
    pub open spec fn find(self, lobby_id: Seq<char>) -> Option<int> {
        position(lobby_ids(self.lobbies), lobby_id)
    }

    /// The registry with a lobby put in place of another.
    pub open spec fn with_lobby(self, at: int, lobby: LobbyView) -> ServerView {
        ServerView { lobbies: self.lobbies.update(at, lobby) }
    }
}

impl View for Server {
    type V = ServerView;

    closed spec fn view(&self) -> ServerView {
        ServerView { lobbies: crate::input::seq_view(self.lobbies@) }
    }
}

/// A host's stream as the server sees it: the lobby it has opened, if any.
pub struct CreateStream {
    pub lobby_id: Option<Id>,
}

/// A joiner's stream as the server sees it: the lobby it waits in and the
/// name it was given, if it has joined.
pub struct JoinStream {
    pub joined: Option<(Id, Id)>,
}

/// Mathematical model of what a stream has registered.
pub open spec fn id_view(id: Option<Id>) -> Option<Seq<char>> {
    crate::input::option_view(id)
}

/// Mathematical model of what a joiner's stream has registered.
pub open spec fn joined_view(joined: Option<(Id, Id)>) -> Option<(Seq<char>, Seq<char>)> {
    match joined {
        Some((lobby_id, opponent_id)) => Some((lobby_id@, opponent_id@)),
        None => None,
    }
}

/// What a frame on a host's stream does, given the identifier that is
/// handed out if one is needed: the registry and the stream's lobby after
/// the frame, the actions, and how the stream goes on.
///
/// Before a lobby is open, only the request to open one is in place; it
/// must bring game info. It is answered with the new lobby's identifier.
/// Afterwards the host accepts or rejects joiners by name. A name that does
/// not wait in the lobby is passed over. Accepting tells both sides the
/// session, lets the joiner go and ends the stream well; rejecting answers
/// the host, lets the joiner go and takes it off the list. The end of the
/// stream is not an error at any time.
pub open spec fn create_frame_spec(
    server: ServerView,
    stream: Option<Seq<char>>,
    frame: Frame<CreateStreamToServerView>,
    fresh_id: Seq<char>,
) -> (ServerView, Option<Seq<char>>, Seq<ActionView>, Verdict) {
    match frame {
        Frame::Closed => (server, stream, Seq::empty(), Verdict::Finished),
        Frame::Unexpected | Frame::Empty => (
            server,
            stream,
            Seq::empty(),
            Verdict::Failed(LobbyError::UnexpectedMessage),
        ),
        Frame::Message(message) => match stream {
            None => match message {
                CreateStreamToServerView::CreateReq { game_info, save_data } => match game_info {
                    None => (
                        server,
                        stream,
                        Seq::empty(),
                        Verdict::Failed(LobbyError::MissingGameInfo),
                    ),
                    Some(game_info) => (
                        ServerView {
                            lobbies: server.lobbies.push(
                                LobbyView {
                                    lobby_id: fresh_id,
                                    host: PlayerView { game_info, save_data },
                                    pending_players: Seq::empty(),
                                },
                            ),
                        },
                        Some(fresh_id),
                        seq![ActionView::SendCreateResp { lobby_id: fresh_id }],
                        Verdict::Continue,
                    ),
                },
                _ => (
                    server,
                    stream,
                    Seq::empty(),
                    Verdict::Failed(LobbyError::UnexpectedMessage),
                ),
            },
            Some(lobby_id) => match message {
                CreateStreamToServerView::CreateReq { .. } => (
                    server,
                    stream,
                    Seq::empty(),
                    Verdict::Failed(LobbyError::UnexpectedMessage),
                ),
                CreateStreamToServerView::AcceptReq { opponent_id } => match server.find(lobby_id) {
                    None => (server, stream, Seq::empty(), Verdict::Continue),
                    Some(at) => match position(server.lobbies[at].pending_players, opponent_id) {
                        None => (server, stream, Seq::empty(), Verdict::Continue),
                        Some(_) => (
                            server,
                            stream,
                            seq![
                                ActionView::SendAcceptResp { lobby_id, session_id: fresh_id },
                                ActionView::SendAcceptInd { opponent_id, session_id: fresh_id },
                                ActionView::CloseJoiner { opponent_id },
                            ],
                            Verdict::Finished,
                        ),
                    },
                },
                CreateStreamToServerView::RejectReq { opponent_id } => match server.find(lobby_id) {
                    None => (server, stream, Seq::empty(), Verdict::Continue),
                    Some(at) => {
                        let lobby = server.lobbies[at];
                        match position(lobby.pending_players, opponent_id) {
                            None => (server, stream, Seq::empty(), Verdict::Continue),
                            Some(who) => (
                                server.with_lobby(
                                    at,
                                    LobbyView {
                                        pending_players: lobby.pending_players.remove(who),
                                        ..lobby
                                    },
                                ),
                                stream,
                                seq![
                                    ActionView::SendRejectResp { lobby_id },
                                    ActionView::CloseJoiner { opponent_id },
                                ],
                                Verdict::Continue,
                            ),
                        }
                    },
                },
            },
        },
    }
}

/// What the end of a host's stream does: its lobby leaves the registry and
/// every joiner that still waits in it is let go, in the order they came.
pub open spec fn close_create_spec(server: ServerView, stream: Option<Seq<char>>) -> (
    ServerView,
    Seq<ActionView>,
) {
    match stream {
        None => (server, Seq::empty()),
        Some(lobby_id) => match server.find(lobby_id) {
            None => (server, Seq::empty()),
            Some(at) => (
                ServerView { lobbies: server.lobbies.remove(at) },
                server.lobbies[at].pending_players.map_values(
                    |opponent_id: Seq<char>| ActionView::CloseJoiner { opponent_id },
                ),
            ),
        },
    }
}

/// What the first frame on a joiner's stream does, given the name that the
/// joiner is given if it gets one. The request must bring game info and ask
/// for a lobby that is open. The host is told who asks, the joiner is told
/// whom it asked, and the joiner waits in the lobby.
pub open spec fn join_frame_spec(
    server: ServerView,
    frame: Frame<JoinRequestView>,
    fresh_id: Seq<char>,
) -> (ServerView, Option<(Seq<char>, Seq<char>)>, Seq<ActionView>, Verdict) {
    match frame {
        Frame::Closed => (server, None, Seq::empty(), Verdict::Finished),
        Frame::Unexpected | Frame::Empty => (
            server,
            None,
            Seq::empty(),
            Verdict::Failed(LobbyError::UnexpectedMessage),
        ),
        Frame::Message(request) => match request.game_info {
            None => (server, None, Seq::empty(), Verdict::Failed(LobbyError::MissingGameInfo)),
            Some(game_info) => match server.find(request.lobby_id) {
                None => (server, None, Seq::empty(), Verdict::Failed(LobbyError::NoSuchLobby)),
                Some(at) => {
                    let lobby = server.lobbies[at];
                    (
                        server.with_lobby(
                            at,
                            LobbyView {
                                pending_players: lobby.pending_players.push(fresh_id),
                                ..lobby
                            },
                        ),
                        Some((request.lobby_id, fresh_id)),
                        seq![
                            ActionView::SendJoinInd {
                                lobby_id: request.lobby_id,
                                opponent_id: fresh_id,
                                player: PlayerView { game_info, save_data: request.save_data },
                            },
                            ActionView::SendJoinResp { opponent_id: fresh_id, player: lobby.host },
                        ],
                        Verdict::Continue,
                    )
                },
            },
        },
    }
}

/// What the end of a joiner's stream does: the joiner leaves the lobby it
/// waited in, if the lobby is still open.
pub open spec fn close_join_spec(server: ServerView, joined: Option<(Seq<char>, Seq<char>)>) -> ServerView {
    match joined {
        None => server,
        Some((lobby_id, opponent_id)) => match server.find(lobby_id) {
            None => server,
            Some(at) => {
                let lobby = server.lobbies[at];
                match position(lobby.pending_players, opponent_id) {
                    None => server,
                    Some(who) => server.with_lobby(
                        at,
                        LobbyView { pending_players: lobby.pending_players.remove(who), ..lobby },
                    ),
                }
            },
        },
    }
}

/// Whether a frame on a host's stream has an identifier handed out: a
/// lobby's when a lobby is opened, a session's when a joiner is accepted.
pub open spec fn create_frame_needs_id(
    server: ServerView,
    stream: Option<Seq<char>>,
    frame: Frame<CreateStreamToServerView>,
) -> bool {
    match (frame, stream) {
        (Frame::Message(CreateStreamToServerView::CreateReq { game_info, .. }), None) => game_info is Some,
        (Frame::Message(CreateStreamToServerView::AcceptReq { opponent_id }), Some(lobby_id)) => {
            match server.find(lobby_id) {
                Some(at) => position(server.lobbies[at].pending_players, opponent_id) is Some,
                None => false,
            }
        },
        _ => false,
    }
}

/// Whether the first frame on a joiner's stream has a name handed out.
pub open spec fn join_frame_needs_id(server: ServerView, frame: Frame<JoinRequestView>) -> bool {
    match frame {
        Frame::Message(request) => request.game_info is Some && server.find(request.lobby_id) is Some,
        _ => false,
    }
}

/// No actions.
fn no_actions() -> (actions: Vec<Action>)
    ensures
        actions_view(actions@) == Seq::<ActionView>::empty(),
{
    let actions: Vec<Action> = Vec::new();
    assert(actions_view(actions@) =~= Seq::<ActionView>::empty());
    actions
}

/// Appends one action to `actions`.
fn push_action(actions: &mut Vec<Action>, action: Action)
    ensures
        actions_view(final(actions)@) == actions_view(old(actions)@).push(action@),
{
    let ghost before = actions_view(actions@);
    actions.push(action);
    assert(actions_view(actions@) =~= before.push(action@));
}

impl Server {
    /// A registry without lobbies.
    pub fn new() -> (server: Server)
        ensures
            server@.lobbies == Seq::<LobbyView>::empty(),
    {
        let server = Server { lobbies: Vec::new() };
        assert(server@.lobbies =~= Seq::<LobbyView>::empty());
        server
    }

    /// Number of lobbies that are open.
    pub fn lobby_count(&self) -> (count: usize)
        ensures
            count == self@.lobbies.len(),
    {
        self.lobbies.len()
    }

    /// Whether a lobby with this identifier is open.
    pub fn has_lobby(&self, lobby_id: &Id) -> (open: bool)
        ensures
            open == self@.find(lobby_id@) is Some,
    {
        self.find_lobby(lobby_id).is_some()
    }

    /// Number of joiners that wait in the lobby with this identifier, if it
    /// is open.
    pub fn pending_count(&self, lobby_id: &Id) -> (count: Option<usize>)
        ensures
            match count {
                Some(pending) => self@.find(lobby_id@) is Some && pending
                    == self@.lobbies[self@.find(lobby_id@)->0].pending_players.len(),
                None => self@.find(lobby_id@) is None,
            },
    {
        match self.find_lobby(lobby_id) {
            Some(at) => Some(self.lobbies[at].pending_players.len()),
            None => None,
        }
    }

    /// The place of the lobby with this identifier, if it is open.
    fn find_lobby(&self, lobby_id: &Id) -> (found: Option<usize>)
        ensures
            match found {
                Some(at) => at < self.lobbies@.len() && self@.find(lobby_id@) == Some(at as int)
                    && self@.lobbies[at as int] == self.lobbies@[at as int]@,
                None => self@.find(lobby_id@) is None,
            },
    {
        let ghost ids = lobby_ids(self@.lobbies);
        let mut i: usize = 0;
        while i < self.lobbies.len()
            invariant
                i <= self.lobbies.len(),
                ids == lobby_ids(self@.lobbies),
                ids.len() == self.lobbies@.len(),
                forall|j: int| 0 <= j < i ==> ids[j] != lobby_id@,
            decreases self.lobbies.len() - i,
        {
            assert(ids[i as int] == self.lobbies@[i as int].lobby_id@);
            if self.lobbies[i].lobby_id == *lobby_id {
                proof {
                    lemma_position(ids, lobby_id@, i as int);
                }
                return Some(i);
            }
            i = i + 1;
        }
        proof {
            lemma_position(ids, lobby_id@, 0);
        }
        None
    }

    /// Handles a frame on a host's stream, with `fresh_id` as the
    /// identifier to hand out where one is needed.
    pub fn handle_create_frame(
        &mut self,
        stream: &mut CreateStream,
        frame: Frame<CreateStreamToServer>,
        fresh_id: Id,
    ) -> (done: (Vec<Action>, Verdict))
        ensures
            (final(self)@, id_view(final(stream).lobby_id), actions_view(done.0@), done.1)
                == create_frame_spec(
                old(self)@,
                id_view(old(stream).lobby_id),
                frame_view(frame),
                fresh_id@,
            ),
    {
        let message = match frame {
            Frame::Closed => {
                return (no_actions(), Verdict::Finished);
            },
            Frame::Unexpected => {
                return (no_actions(), Verdict::Failed(LobbyError::UnexpectedMessage));
            },
            Frame::Empty => {
                return (no_actions(), Verdict::Failed(LobbyError::UnexpectedMessage));
            },
            Frame::Message(message) => message,
        };
        let lobby_id = match &stream.lobby_id {
            None => {
                match message {
                    CreateStreamToServer::CreateReq { game_info, save_data } => {
                        let game_info = match game_info {
                            Some(game_info) => game_info,
                            None => {
                                return (
                                    no_actions(),
                                    Verdict::Failed(LobbyError::MissingGameInfo),
                                );
                            },
                        };
                        let mut actions = no_actions();
                        push_action(
                            &mut actions,
                            Action::SendToCreator {
                                lobby_id: fresh_id.clone(),
                                message: CreateStreamToClient::CreateResp {
                                    lobby_id: fresh_id.clone(),
                                },
                            },
                        );
                        let lobby = Lobby {
                            lobby_id: fresh_id.clone(),
                            host: Player { game_info, save_data },
                            pending_players: Vec::new(),
                        };
                        let ghost before = self@.lobbies;
                        self.lobbies.push(lobby);
                        stream.lobby_id = Some(fresh_id);
                        proof {
                            assert(lobby@.pending_players =~= Seq::<Seq<char>>::empty());
                            assert(self@.lobbies =~= before.push(lobby@));
                            assert(actions_view(actions@) =~= seq![
                                ActionView::SendCreateResp { lobby_id: fresh_id@ },
                            ]);
                        }
                        return (actions, Verdict::Continue);
                    },
                    _ => {
                        return (no_actions(), Verdict::Failed(LobbyError::UnexpectedMessage));
                    },
                }
            },
            Some(lobby_id) => lobby_id.clone(),
        };
        match message {
            CreateStreamToServer::CreateReq { .. } => (
                no_actions(),
                Verdict::Failed(LobbyError::UnexpectedMessage),
            ),
            CreateStreamToServer::AcceptReq { opponent_id } => {
                let at = match self.find_lobby(&lobby_id) {
                    Some(at) => at,
                    None => {
                        return (no_actions(), Verdict::Continue);
                    },
                };
                if find_id(&self.lobbies[at].pending_players, &opponent_id).is_none() {
                    return (no_actions(), Verdict::Continue);
                }
                let mut actions = no_actions();
                push_action(
                    &mut actions,
                    Action::SendToCreator {
                        lobby_id,
                        message: CreateStreamToClient::AcceptResp { session_id: fresh_id.clone() },
                    },
                );
                push_action(
                    &mut actions,
                    Action::SendToJoiner {
                        opponent_id: opponent_id.clone(),
                        message: JoinStreamToClient::AcceptInd { session_id: fresh_id },
                    },
                );
                push_action(&mut actions, Action::CloseJoiner { opponent_id });
                proof {
                    assert(actions_view(actions@) =~= seq![
                        ActionView::SendAcceptResp { lobby_id: lobby_id@, session_id: fresh_id@ },
                        ActionView::SendAcceptInd {
                            opponent_id: opponent_id@,
                            session_id: fresh_id@,
                        },
                        ActionView::CloseJoiner { opponent_id: opponent_id@ },
                    ]);
                }
                (actions, Verdict::Finished)
            },
            CreateStreamToServer::RejectReq { opponent_id } => {
                let at = match self.find_lobby(&lobby_id) {
                    Some(at) => at,
                    None => {
                        return (no_actions(), Verdict::Continue);
                    },
                };
                let who = match find_id(&self.lobbies[at].pending_players, &opponent_id) {
                    Some(who) => who,
                    None => {
                        return (no_actions(), Verdict::Continue);
                    },
                };
                let ghost before = self@.lobbies;
                let mut lobby = self.lobbies.remove(at);
                let ghost lobby_before = lobby@;
                lobby.pending_players.remove(who);
                proof {
                    assert(lobby@.pending_players =~= lobby_before.pending_players.remove(
                        who as int,
                    ));
                }
                self.lobbies.insert(at, lobby);
                let mut actions = no_actions();
                push_action(
                    &mut actions,
                    Action::SendToCreator { lobby_id, message: CreateStreamToClient::RejectResp },
                );
                push_action(&mut actions, Action::CloseJoiner { opponent_id });
                proof {
                    assert(self@.lobbies =~= before.update(at as int, lobby@));
                    assert(actions_view(actions@) =~= seq![
                        ActionView::SendRejectResp { lobby_id: lobby_id@ },
                        ActionView::CloseJoiner { opponent_id: opponent_id@ },
                    ]);
                }
                (actions, Verdict::Continue)
            },
        }
    }

    /// Whether a frame on a host's stream has an identifier handed out.
    fn create_frame_needs_id(&self, stream: &CreateStream, frame: &Frame<CreateStreamToServer>) -> (needs:
        bool)
        ensures
            needs == create_frame_needs_id(self@, id_view(stream.lobby_id), frame_view(*frame)),
    {
        match frame {
            Frame::Message(CreateStreamToServer::CreateReq { game_info, .. }) => {
                stream.lobby_id.is_none() && game_info.is_some()
            },
            Frame::Message(CreateStreamToServer::AcceptReq { opponent_id }) => {
                match &stream.lobby_id {
                    Some(lobby_id) => match self.find_lobby(lobby_id) {
                        Some(at) => {
                                        find_id(&self.lobbies[at].pending_players, opponent_id).is_some()
                        },
                        None => false,
                    },
                    None => false,
                }
            },
            _ => false,
        }
    }

    /// Handles a frame on a host's stream. Where an identifier is handed
    /// out, it is a fresh draw: 32 letters and digits.
    pub fn handle_create_stream(&mut self, stream: &mut CreateStream, frame: Frame<CreateStreamToServer>) -> (done:
        (Vec<Action>, Verdict))
        ensures
            exists|fresh_id: Seq<char>|
                (create_frame_needs_id(
                    old(self)@,
                    id_view(old(stream).lobby_id),
                    frame_view(frame),
                ) ==> is_id(fresh_id)) && (
                    final(self)@,
                    id_view(final(stream).lobby_id),
                    actions_view(done.0@),
                    done.1,
                ) == #[trigger] create_frame_spec(
                    old(self)@,
                    id_view(old(stream).lobby_id),
                    frame_view(frame),
                    fresh_id,
                ),
    {
        let fresh_id = if self.create_frame_needs_id(stream, &frame) {
            generate_id()
        } else {
            String::new()
        };
        self.handle_create_frame(stream, frame, fresh_id)
    }

    /// Ends a host's stream, for whatever reason it ends: its lobby leaves
    /// the registry and every joiner that still waits in it is let go.
    pub fn close_create_stream(&mut self, stream: &mut CreateStream) -> (actions: Vec<Action>)
        ensures
            (final(self)@, actions_view(actions@)) == close_create_spec(
                old(self)@,
                id_view(old(stream).lobby_id),
            ),
            final(stream).lobby_id is None,
    {
        let lobby_id = match stream.lobby_id.take() {
            Some(lobby_id) => lobby_id,
            None => {
                return no_actions();
            },
        };
        let at = match self.find_lobby(&lobby_id) {
            Some(at) => at,
            None => {
                return no_actions();
            },
        };
        let ghost before = self@.lobbies;
        let lobby = self.lobbies.remove(at);
        proof {
            assert(self@.lobbies =~= before.remove(at as int));
            assert(lobby@ == before[at as int]);
        }
        let ghost closing = lobby@.pending_players.map_values(
            |opponent_id: Seq<char>| ActionView::CloseJoiner { opponent_id },
        );
        let mut actions = no_actions();
        let mut i: usize = 0;
        assert(actions_view(actions@) =~= closing.take(0));
        while i < lobby.pending_players.len()
            invariant
                i <= lobby.pending_players.len(),
                closing == lobby@.pending_players.map_values(
                    |opponent_id: Seq<char>| ActionView::CloseJoiner { opponent_id },
                ),
                actions_view(actions@) == closing.take(i as int),
            decreases lobby.pending_players.len() - i,
        {
            let action = Action::CloseJoiner { opponent_id: lobby.pending_players[i].clone() };
            proof {
                assert(action@ == closing[i as int]);
            }
            push_action(&mut actions, action);
            proof {
                assert(closing.take(i as int + 1) =~= closing.take(i as int).push(closing[i as int]));
            }
            i = i + 1;
        }
        assert(closing.take(i as int) =~= closing);
        actions
    }

    /// Handles the first frame on a joiner's stream, with `fresh_id` as
    /// the name to give the joiner where it gets one.
    pub fn handle_join_frame(&mut self, stream: &mut JoinStream, frame: Frame<JoinRequest>, fresh_id: Id) -> (done:
        (Vec<Action>, Verdict))
        ensures
            (final(self)@, joined_view(final(stream).joined), actions_view(done.0@), done.1) == (
                if joined_view(old(stream).joined) is Some {
                    (
                        old(self)@,
                        joined_view(old(stream).joined),
                        Seq::<ActionView>::empty(),
                        Verdict::Failed(LobbyError::UnexpectedMessage),
                    )
                } else {
                    join_frame_spec(old(self)@, frame_view(frame), fresh_id@)
                }
            ),
    {
        if stream.joined.is_some() {
            return (no_actions(), Verdict::Failed(LobbyError::UnexpectedMessage));
        }
        let request = match frame {
            Frame::Closed => {
                return (no_actions(), Verdict::Finished);
            },
            Frame::Unexpected => {
                return (no_actions(), Verdict::Failed(LobbyError::UnexpectedMessage));
            },
            Frame::Empty => {
                return (no_actions(), Verdict::Failed(LobbyError::UnexpectedMessage));
            },
            Frame::Message(request) => request,
        };
        let game_info = match request.game_info {
            Some(game_info) => game_info,
            None => {
                return (no_actions(), Verdict::Failed(LobbyError::MissingGameInfo));
            },
        };
        let at = match self.find_lobby(&request.lobby_id) {
            Some(at) => at,
            None => {
                return (no_actions(), Verdict::Failed(LobbyError::NoSuchLobby));
            },
        };
        let ghost before = self@.lobbies;
        let mut lobby = self.lobbies.remove(at);
        let ghost lobby_before = lobby@;
        let host = lobby.host.clone();
        lobby.pending_players.push(fresh_id.clone());
        proof {
            assert(lobby_before == before[at as int]);
            assert(lobby@.pending_players =~= lobby_before.pending_players.push(fresh_id@));
        }
        self.lobbies.insert(at, lobby);
        let mut actions = no_actions();
        push_action(
            &mut actions,
            Action::SendToCreator {
                lobby_id: request.lobby_id.clone(),
                message: CreateStreamToClient::JoinInd {
                    opponent_id: fresh_id.clone(),
                    player: Player { game_info, save_data: request.save_data },
                },
            },
        );
        push_action(
            &mut actions,
            Action::SendToJoiner {
                opponent_id: fresh_id.clone(),
                message: JoinStreamToClient::JoinResp { opponent_id: fresh_id.clone(), player: host },
            },
        );
        stream.joined = Some((request.lobby_id, fresh_id));
        proof {
            assert(self@.lobbies =~= before.update(at as int, lobby@));
            assert(actions_view(actions@) =~= seq![
                ActionView::SendJoinInd {
                    lobby_id: request.lobby_id@,
                    opponent_id: fresh_id@,
                    player: PlayerView { game_info: game_info@, save_data: request.save_data@ },
                },
                ActionView::SendJoinResp { opponent_id: fresh_id@, player: lobby_before.host },
            ]);
        }
        (actions, Verdict::Continue)
    }

    /// Handles the first frame on a joiner's stream. Where the joiner gets
    /// a name, it is a fresh draw: 32 letters and digits. A stream that has
    /// joined already has no place for another frame.
    pub fn handle_join_stream(&mut self, stream: &mut JoinStream, frame: Frame<JoinRequest>) -> (done:
        (Vec<Action>, Verdict))
        ensures
            joined_view(old(stream).joined) is Some ==> (
                final(self)@,
                joined_view(final(stream).joined),
                actions_view(done.0@),
                done.1,
            ) == (
                old(self)@,
                joined_view(old(stream).joined),
                Seq::<ActionView>::empty(),
                Verdict::Failed(LobbyError::UnexpectedMessage),
            ),
            joined_view(old(stream).joined) is None ==> exists|fresh_id: Seq<char>|
                (join_frame_needs_id(old(self)@, frame_view(frame)) ==> is_id(fresh_id)) && (
                    final(self)@,
                    joined_view(final(stream).joined),
                    actions_view(done.0@),
                    done.1,
                ) == #[trigger] join_frame_spec(old(self)@, frame_view(frame), fresh_id),
    {
        let needs = match &frame {
            Frame::Message(request) => request.game_info.is_some() && self.find_lobby(
                &request.lobby_id,
            ).is_some(),
            _ => false,
        };
        let fresh_id = if needs {
            generate_id()
        } else {
            String::new()
        };
        self.handle_join_frame(stream, frame, fresh_id)
    }

    /// Ends a joiner's stream, for whatever reason it ends: the joiner
    /// leaves the lobby it waited in, if the lobby is still open.
    pub fn close_join_stream(&mut self, stream: &mut JoinStream)
        ensures
            final(self)@ == close_join_spec(old(self)@, joined_view(old(stream).joined)),
            final(stream).joined is None,
    {
        let (lobby_id, opponent_id) = match stream.joined.take() {
            Some(joined) => joined,
            None => {
                return ;
            },
        };
        let at = match self.find_lobby(&lobby_id) {
            Some(at) => at,
            None => {
                return ;
            },
        };
        let who = match find_id(&self.lobbies[at].pending_players, &opponent_id) {
            Some(who) => who,
            None => {
                return ;
            },
        };
        let ghost before = self@.lobbies;
        let mut lobby = self.lobbies.remove(at);
        let ghost lobby_before = lobby@;
        lobby.pending_players.remove(who);
        proof {
            assert(lobby@.pending_players =~= lobby_before.pending_players.remove(who as int));
        }
        self.lobbies.insert(at, lobby);
        proof {
            assert(self@.lobbies =~= before.update(at as int, lobby@));
        }
    }
}

impl CreateStream {
    /// A host's stream that has opened no lobby yet.
    pub fn new() -> (stream: CreateStream)
        ensures
            stream.lobby_id is None,
    {
        CreateStream { lobby_id: None }
    }
}

impl JoinStream {
    /// A joiner's stream that has joined no lobby yet.
    pub fn new() -> (stream: JoinStream)
        ensures
            stream.joined is None,
    {
        JoinStream { joined: None }
    }
}

/// Whether no two lobbies of the registry have the same identifier.
pub open spec fn ids_are_distinct(server: ServerView) -> bool {
    forall|i: int, j: int|
        0 <= i < server.lobbies.len() && 0 <= j < server.lobbies.len() && i != j ==> (
        #[trigger] server.lobbies[i]).lobby_id != (#[trigger] server.lobbies[j]).lobby_id
}

/// A registry whose lobbies have distinct identifiers keeps them distinct,
/// whatever arrives on the streams, as long as no identifier is handed out
/// twice.
pub proof fn lemma_ids_stay_distinct(
    server: ServerView,
    stream: Option<Seq<char>>,
    joined: Option<(Seq<char>, Seq<char>)>,
    create_frame: Frame<CreateStreamToServerView>,
    join_frame: Frame<JoinRequestView>,
    fresh_id: Seq<char>,
)
    requires
        ids_are_distinct(server),
        server.find(fresh_id) is None,
    ensures
        ids_are_distinct(create_frame_spec(server, stream, create_frame, fresh_id).0),
        ids_are_distinct(close_create_spec(server, stream).0),
        ids_are_distinct(join_frame_spec(server, join_frame, fresh_id).0),
        ids_are_distinct(close_join_spec(server, joined)),
{
    let ids = lobby_ids(server.lobbies);
    lemma_position(ids, fresh_id, 0);
    if stream is Some {
        lemma_position(ids, stream->0, 0);
    }
    if let Frame::Message(request) = join_frame {
        lemma_position(ids, request.lobby_id, 0);
    }
    if let Some((lobby_id, _)) = joined {
        lemma_position(ids, lobby_id, 0);
    }
    let opened = create_frame_spec(server, stream, create_frame, fresh_id).0;
    assert(ids_are_distinct(opened)) by {
        assert forall|i: int, j: int|
            0 <= i < opened.lobbies.len() && 0 <= j < opened.lobbies.len() && i != j implies (
            #[trigger] opened.lobbies[i]).lobby_id != (#[trigger] opened.lobbies[j]).lobby_id by {
            if opened.lobbies.len() == server.lobbies.len() + 1 {
                if i < server.lobbies.len() {
                    assert(lobby_ids(server.lobbies)[i] == server.lobbies[i].lobby_id);
                }
                if j < server.lobbies.len() {
                    assert(lobby_ids(server.lobbies)[j] == server.lobbies[j].lobby_id);
                }
            } else {
                assert(opened.lobbies[i].lobby_id == server.lobbies[i].lobby_id);
                assert(opened.lobbies[j].lobby_id == server.lobbies[j].lobby_id);
            }
        }
    }
    let closed = close_create_spec(server, stream).0;
    assert(ids_are_distinct(closed)) by {
        if closed.lobbies.len() != server.lobbies.len() {
            let at = server.find(stream->0)->0;
            assert forall|i: int, j: int|
                0 <= i < closed.lobbies.len() && 0 <= j < closed.lobbies.len() && i != j implies (
                #[trigger] closed.lobbies[i]).lobby_id != (
                #[trigger] closed.lobbies[j]).lobby_id by {
                let from_i = if i < at {
                    i
                } else {
                    i + 1
                };
                let from_j = if j < at {
                    j
                } else {
                    j + 1
                };
                assert(closed.lobbies[i] == server.lobbies[from_i]);
                assert(closed.lobbies[j] == server.lobbies[from_j]);
            }
        }
    }
    let joined_to = join_frame_spec(server, join_frame, fresh_id).0;
    assert(ids_are_distinct(joined_to)) by {
        assert(joined_to.lobbies.len() == server.lobbies.len());
        assert forall|i: int, j: int|
            0 <= i < joined_to.lobbies.len() && 0 <= j < joined_to.lobbies.len() && i != j implies (
            #[trigger] joined_to.lobbies[i]).lobby_id != (
            #[trigger] joined_to.lobbies[j]).lobby_id by {
            assert(joined_to.lobbies[i].lobby_id == server.lobbies[i].lobby_id);
            assert(joined_to.lobbies[j].lobby_id == server.lobbies[j].lobby_id);
        }
    }
    let left = close_join_spec(server, joined);
    assert(ids_are_distinct(left)) by {
        assert(left.lobbies.len() == server.lobbies.len());
        assert forall|i: int, j: int|
            0 <= i < left.lobbies.len() && 0 <= j < left.lobbies.len() && i != j implies (
            #[trigger] left.lobbies[i]).lobby_id != (#[trigger] left.lobbies[j]).lobby_id by {
            assert(left.lobbies[i].lobby_id == server.lobbies[i].lobby_id);
            assert(left.lobbies[j].lobby_id == server.lobbies[j].lobby_id);
        }
    }
}

} // verus!
