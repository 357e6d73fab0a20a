//! Trello: cards, lists and boards.

use crate::http::{
    choose_scope, first_of, no_pairs, pair, pairs2, plain_request, push_pair, HttpBody,
    HttpMethod, HttpRequest, RequestView,
};
use crate::json::{json_data, string_field, string_field_or, text_member, text_member_or, JsonData};
use crate::text::{join3, same};
use serde_json::Value;
use vstd::prelude::*;
use vstd::string::*;

verus! {

/// Why a Trello operation failed.
#[derive(Debug)]
pub enum TrelloError {
    MissingCredentials,
    ApiKeyRequired,
    BoardRequired,
    Configuration(String),
    Http(reqwest::Error),
}

#[derive(Clone, Debug)]
pub struct TrelloConfig {
    pub default_board: Option<String>,
    pub api_key: Option<String>,
}

impl Default for TrelloConfig {
    fn default() -> (config: TrelloConfig)
        ensures
            config.default_board is None,
            config.api_key is None,
    {
        TrelloConfig { default_board: None, api_key: None }
    }
}

/// One card, with the name of the list it is on.
#[derive(Clone, Debug)]
pub struct TrelloCard {
    pub id: String,
    pub name: String,
    pub description: Option<String>,
    pub list_name: String,
    pub url: Option<String>,
}

#[derive(Clone, Debug)]
pub struct TrelloBoard {
    pub id: String,
    pub name: String,
    pub url: String,
}

/// One list of a board.
#[derive(Clone, Debug)]
pub struct TrelloList {
    pub id: String,
    pub name: String,
}

/// The mathematical content of a `TrelloCard`.
pub struct TrelloCardView {
    pub id: Seq<char>,
    pub name: Seq<char>,
    pub description: Option<Seq<char>>,
    pub list_name: Seq<char>,
    pub url: Option<Seq<char>>,
}

impl View for TrelloCard {
    type V = TrelloCardView;

    open spec fn view(&self) -> TrelloCardView {
        TrelloCardView {
            id: self.id@,
            name: self.name@,
            description: self.description.deep_view(),
            list_name: self.list_name@,
            url: self.url.deep_view(),
        }
    }
}

/// The mathematical content of a `TrelloList`.
pub struct TrelloListView {
    pub id: Seq<char>,
    pub name: Seq<char>,
}

impl View for TrelloList {
    type V = TrelloListView;

    open spec fn view(&self) -> TrelloListView {
        TrelloListView { id: self.id@, name: self.name@ }
    }
}

/// The content of each list of a board.
pub open spec fn list_views(lists: Seq<TrelloList>) -> Seq<TrelloListView> {
    lists.map_values(|list: TrelloList| list@)
}

/// The content of each card of a list.
pub open spec fn card_views(cards: Seq<TrelloCard>) -> Seq<TrelloCardView> {
    cards.map_values(|card: TrelloCard| card@)
}

/// The description of a card: its text member `desc`, unless that is empty.
pub open spec fn card_description(d: JsonData) -> Option<Seq<char>> {
    match text_member(d, "desc"@) {
        Some(text) => if text.len() == 0 {
            None
        } else {
            Some(text)
        },
        None => None,
    }
}

/// The card that a JSON record describes, on the list called `list_name`.
pub open spec fn trello_card_of(d: JsonData, list_name: Seq<char>) -> TrelloCardView {
    TrelloCardView {
        id: text_member_or(d, "id"@, Seq::empty()),
        name: text_member_or(d, "name"@, "untitled"@),
        description: card_description(d),
        list_name,
        url: text_member(d, "url"@),
    }
}

/// The name of the list with the identifier `id`. Where several lists have
/// it, the last of them counts.
pub open spec fn list_name_of(lists: Seq<TrelloListView>, id: Seq<char>) -> Option<Seq<char>>
    decreases lists.len(),
{
    if lists.len() == 0 {
        None
    } else if lists.last().id == id {
        Some(lists.last().name)
    } else {
        list_name_of(lists.drop_last(), id)
    }
}

/// The name of the list that a card is on: the list that its text member
/// `idList` names, or `Unknown` where there is no such list.
pub open spec fn card_list_name(d: JsonData, lists: Seq<TrelloListView>) -> Seq<char> {
    match text_member(d, "idList"@) {
        Some(id) => match list_name_of(lists, id) {
            Some(name) => name,
            None => "Unknown"@,
        },
        None => "Unknown"@,
    }
}

/// The cards of a listing, each with the name of its list.
pub open spec fn cards_of(cards: Seq<Value>, lists: Seq<TrelloListView>) -> Seq<TrelloCardView> {
    cards.map_values(
        |card: Value| trello_card_of(json_data(card), card_list_name(json_data(card), lists)),
    )
}

/// The name of the list with the identifier `id`.
pub fn find_list_name(lists: &Vec<TrelloList>, id: &str) -> (name: Option<String>)
    ensures
        name.deep_view() == list_name_of(list_views(lists@), id@),
{
    let mut name: Option<String> = None;
    let mut i: usize = 0;
    while i < lists.len()
        invariant
            i <= lists.len(),
            name.deep_view() == list_name_of(list_views(lists@.take(i as int)), id@),
        decreases lists.len() - i,
    {
        proof {
            let next = list_views(lists@.take(i + 1));
            assert(next.drop_last() =~= list_views(lists@.take(i as int)));
        }
        if same(lists[i].id.as_str(), id) {
            name = Some(lists[i].name.clone());
        }
        i += 1;
    }
    proof {
        assert(lists@.take(lists.len() as int) =~= lists@);
    }
    name
}

/// The name of the list that a card is on.
pub fn list_name_for(card: &Value, lists: &Vec<TrelloList>) -> (name: String)
    ensures
        name@ == card_list_name(json_data(*card), list_views(lists@)),
{
    match string_field(card, "idList") {
        Some(id) => match find_list_name(lists, id.as_str()) {
            Some(name) => name,
            None => "Unknown".to_owned(),
        },
        None => "Unknown".to_owned(),
    }
}

impl TrelloCard {
    /// Reads a card from the JSON record that Trello sends for it.
    pub fn from_json(value: &Value, list_name: &str) -> (card: TrelloCard)
        ensures
            card@ == trello_card_of(json_data(*value), list_name@),
    {
        proof {
            reveal_strlit("");
            assert(""@ =~= Seq::<char>::empty());
        }
        let description = match string_field(value, "desc") {
            Some(text) => if text.as_str().is_empty() {
                None
            } else {
                Some(text)
            },
            None => None,
        };
        TrelloCard {
            id: string_field_or(value, "id", ""),
            name: string_field_or(value, "name", "untitled"),
            description,
            list_name: list_name.to_owned(),
            url: string_field(value, "url"),
        }
    }

    /// Reads the cards of a listing and gives each the name of its list.
    pub fn read_listing(cards: &Vec<Value>, lists: &Vec<TrelloList>) -> (found: Vec<TrelloCard>)
        ensures
            card_views(found@) == cards_of(cards@, list_views(lists@)),
    {
        let mut found: Vec<TrelloCard> = Vec::new();
        let mut i: usize = 0;
        while i < cards.len()
            invariant
                i <= cards.len(),
                card_views(found@) == cards_of(cards@.take(i as int), list_views(lists@)),
            decreases cards.len() - i,
        {
            let ghost before = card_views(found@);
            let list_name = list_name_for(&cards[i], lists);
            let card = TrelloCard::from_json(&cards[i], list_name.as_str());
            found.push(card);
            proof {
                assert(card_views(found@) =~= before.push(card@));
            }
            i += 1;
        }
        found
    }
}

/// A client for one Trello account: its token, the key of the application
/// and the board it works on when a call names none.
pub struct TrelloClient {
    token: String,
    api_key: String,
    default_board: Option<String>,
}

/// The mathematical content of a `TrelloClient`.
pub struct TrelloClientView {
    pub token: Seq<char>,
    pub api_key: Seq<char>,
    pub default_board: Option<Seq<char>>,
}

impl View for TrelloClient {
    type V = TrelloClientView;

    closed spec fn view(&self) -> TrelloClientView {
        TrelloClientView {
            token: self.token@,
            api_key: self.api_key@,
            default_board: self.default_board.deep_view(),
        }
    }
}

/// The query pairs that authorise a call: the key, then the token.
pub open spec fn auth_pairs(api_key: Seq<char>, token: Seq<char>) -> Seq<(Seq<char>, Seq<char>)> {
    seq![("key"@, api_key), ("token"@, token)]
}

/// The address of one collection of a board.
pub open spec fn board_url(board: Seq<char>, collection: Seq<char>) -> Seq<char> {
    "https://api.trello.com/1/boards/"@ + board + collection
}

/// The GET request for `url`, authorised by query pairs.
pub open spec fn trello_get(url: Seq<char>, api_key: Seq<char>, token: Seq<char>) -> RequestView {
    plain_request(HttpMethod::Get, url, auth_pairs(api_key, token), Seq::empty())
}

/// The query pairs that create a card: the authorisation, the name, the
/// list and, where one is given, the description.
pub open spec fn new_card_pairs(
    api_key: Seq<char>,
    token: Seq<char>,
    name: Seq<char>,
    list_id: Seq<char>,
    description: Option<Seq<char>>,
) -> Seq<(Seq<char>, Seq<char>)> {
    let required = auth_pairs(api_key, token).push(("name"@, name)).push(("idList"@, list_id));
    match description {
        Some(text) => required.push(("desc"@, text)),
        None => required,
    }
}

/// The request that creates a card on the list `list_id`.
pub open spec fn new_card_view(
    api_key: Seq<char>,
    token: Seq<char>,
    name: Seq<char>,
    list_id: Seq<char>,
    description: Option<Seq<char>>,
) -> RequestView {
    plain_request(
        HttpMethod::Post,
        "https://api.trello.com/1/cards"@,
        new_card_pairs(api_key, token, name, list_id, description),
        Seq::empty(),
    )
}

/// The query pairs that authorise a call.
pub fn auth_query(api_key: &str, token: &str) -> (pairs: Vec<(String, String)>)
    ensures
        pairs.deep_view() == auth_pairs(api_key@, token@),
{
    pairs2(pair("key", api_key), pair("token", token))
}

/// The GET request for one collection of a board.
pub fn board_request(board: &str, collection: &str, api_key: &str, token: &str) -> (request:
    HttpRequest)
    ensures
        request@ == trello_get(board_url(board@, collection@), api_key@, token@),
{
    HttpRequest {
        method: HttpMethod::Get,
        url: join3("https://api.trello.com/1/boards/", board, collection),
        query: auth_query(api_key, token),
        headers: no_pairs(),
        body: HttpBody::Empty,
    }
}

/// The request that creates a card on the list `list_id`.
pub fn new_card_request(
    api_key: &str,
    token: &str,
    name: &str,
    list_id: &str,
    description: Option<&str>,
) -> (request: HttpRequest)
    ensures
        request@ == new_card_view(api_key@, token@, name@, list_id@, description.deep_view()),
{
    let mut query = auth_query(api_key, token);
    push_pair(&mut query, pair("name", name));
    push_pair(&mut query, pair("idList", list_id));
    match description {
        Some(text) => push_pair(&mut query, pair("desc", text)),
        None => {},
    }
    HttpRequest {
        method: HttpMethod::Post,
        url: "https://api.trello.com/1/cards".to_owned(),
        query,
        headers: no_pairs(),
        body: HttpBody::Empty,
    }
}

impl TrelloClient {
    pub fn new(token: String, api_key: String, default_board: Option<String>) -> (client:
        TrelloClient)
        ensures
            client@ == (TrelloClientView {
                token: token@,
                api_key: api_key@,
                default_board: default_board.deep_view(),
            }),
    {
        TrelloClient { token, api_key, default_board }
    }

    pub fn with_board(token: String, api_key: String, board: String) -> (client: TrelloClient)
        ensures
            client@ == (TrelloClientView {
                token: token@,
                api_key: api_key@,
                default_board: Some(board@),
            }),
    {
        TrelloClient { token, api_key, default_board: Some(board) }
    }

    /// The default board of the client.
    pub fn config(&self) -> (board: Option<&String>)
        ensures
            board.deep_view() == self@.default_board,
    {
        self.default_board.as_ref()
    }

    /// The query pairs that authorise a call: the key, then the token.
    pub fn auth_params(&self) -> (pairs: Vec<(String, String)>)
        ensures
            pairs.deep_view() == auth_pairs(self@.api_key, self@.token),
    {
        auth_query(self.api_key.as_str(), self.token.as_str())
    }

    /// The board to work on: `override_board` where it is given, else the
    /// default of the client. Without either, a board is required.
    pub fn resolve_board(&self, override_board: Option<&String>) -> (r: Result<String, TrelloError>)
        ensures
            match first_of(override_board.deep_view(), self@.default_board) {
                Some(board) => r matches Ok(found) && found@ == board,
                None => r matches Err(TrelloError::BoardRequired),
            },
    {
        match choose_scope(override_board, &self.default_board) {
            Some(board) => Ok(board),
            None => Err(TrelloError::BoardRequired),
        }
    }

    /// The request for the cards of a board.
    pub fn list_cards(&self, board: Option<String>) -> (r: Result<HttpRequest, TrelloError>)
        ensures
            match first_of(board.deep_view(), self@.default_board) {
                Some(id) => r matches Ok(request) && request@ == trello_get(
                    board_url(id, "/cards"@),
                    self@.api_key,
                    self@.token,
                ),
                None => r matches Err(TrelloError::BoardRequired),
            },
    {
        let id = self.resolve_board(board.as_ref())?;
        Ok(board_request(id.as_str(), "/cards", self.api_key.as_str(), self.token.as_str()))
    }

    /// The request for the lists of a board.
    pub fn list_lists(&self, board: Option<String>) -> (r: Result<HttpRequest, TrelloError>)
        ensures
            match first_of(board.deep_view(), self@.default_board) {
                Some(id) => r matches Ok(request) && request@ == trello_get(
                    board_url(id, "/lists"@),
                    self@.api_key,
                    self@.token,
                ),
                None => r matches Err(TrelloError::BoardRequired),
            },
    {
        let id = self.resolve_board(board.as_ref())?;
        Ok(board_request(id.as_str(), "/lists", self.api_key.as_str(), self.token.as_str()))
    }

    /// Reads the cards of a board, given what the request for the lists of
    /// the board came to. Where the lists could not be fetched, the failure
    /// is handed on.
    pub fn list_cards_result(cards: &Vec<Value>, lists: Result<Vec<TrelloList>, TrelloError>) -> (r:
        Result<Vec<TrelloCard>, TrelloError>)
        ensures
            match lists {
                Ok(fetched) => r matches Ok(found) && card_views(found@) == cards_of(
                    cards@,
                    list_views(fetched@),
                ),
                Err(cause) => r matches Err(e) && e == cause,
            },
    {
        match lists {
            Ok(fetched) => Ok(TrelloCard::read_listing(cards, &fetched)),
            Err(cause) => Err(cause),
        }
    }

    /// Reads the reply to the creation of a card, given the lists of the
    /// board: the card, with the name of its list, as a listing shows it.
    pub fn create_card_result(reply: &Value, lists: &Vec<TrelloList>) -> (card: TrelloCard)
        ensures
            card@ == trello_card_of(
                json_data(*reply),
                card_list_name(json_data(*reply), list_views(lists@)),
            ),
    {
        let list_name = list_name_for(reply, lists);
        TrelloCard::from_json(reply, list_name.as_str())
    }

    /// The request for the boards of the account.
    pub fn list_boards(&self) -> (request: HttpRequest)
        ensures
            request@ == trello_get(
                "https://api.trello.com/1/members/me/boards"@,
                self@.api_key,
                self@.token,
            ),
    {
        HttpRequest {
            method: HttpMethod::Get,
            url: "https://api.trello.com/1/members/me/boards".to_owned(),
            query: self.auth_params(),
            headers: no_pairs(),
            body: HttpBody::Empty,
        }
    }

    /// The request that creates a card on the first of `lists`, the lists of
    /// the board. A board without lists cannot take a card.
    pub fn create_card(
        &self,
        lists: &Vec<TrelloList>,
        name: &str,
        description: Option<&str>,
    ) -> (r: Result<HttpRequest, TrelloError>)
        ensures
            lists.len() == 0 ==> (r matches Err(TrelloError::Configuration(detail)) && detail@
                == "No lists found on board"@),
            lists.len() > 0 ==> (r matches Ok(request) && request@ == new_card_view(
                self@.api_key,
                self@.token,
                name@,
                lists[0].id@,
                description.deep_view(),
            )),
    {
        if lists.len() == 0 {
            return Err(TrelloError::Configuration("No lists found on board".to_owned()));
        }
        Ok(
            new_card_request(
                self.api_key.as_str(),
                self.token.as_str(),
                name,
                lists[0].id.as_str(),
                description,
            ),
        )
    }
}

/// The message of an error. A transport failure has the message of its
/// cause.
pub open spec fn trello_error_text(e: TrelloError) -> Seq<char> {
    match e {
        TrelloError::MissingCredentials => "missing credentials"@,
        TrelloError::ApiKeyRequired => "API key is required"@,
        TrelloError::BoardRequired => "board is required"@,
        TrelloError::Configuration(detail) => "configuration error: "@ + detail@,
        TrelloError::Http(cause) => crate::unified::transport_text(cause),
    }
}

impl TrelloError {
    /// The message shown to people.
    pub fn message(&self) -> (text: String)
        ensures
            text@ == trello_error_text(*self),
    {
        match self {
            TrelloError::MissingCredentials => "missing credentials".to_owned(),
            TrelloError::ApiKeyRequired => "API key is required".to_owned(),
            TrelloError::BoardRequired => "board is required".to_owned(),
            TrelloError::Configuration(detail) => crate::text::join2(
                "configuration error: ",
                detail.as_str(),
            ),
            TrelloError::Http(cause) => crate::unified::transport_message(cause),
        }
    }
}

} // verus!
